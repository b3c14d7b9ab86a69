use syggrel_chat::contact::{chat_items_from_contacts, Contact, ValidationError};

fn sample_contact() -> Contact {
    Contact::new(
        "200:1111:2222:3333::1".to_string(),
        "127.0.0.1:9050".to_string(),
        "Alice".to_string(),
        false,
    )
}

#[test]
fn new_contact_defaults() {
    let contact = sample_contact();
    assert!(contact.id.is_none());
    assert_eq!(contact.yggdrasil_address, "200:1111:2222:3333::1");
    assert_eq!(contact.socks5_proxy, "127.0.0.1:9050");
    assert_eq!(contact.display_name, "Alice");
    assert!(contact.is_active);
    assert!(contact.last_seen.is_none());
    assert_eq!(contact.created_at, contact.updated_at);
    assert!(!contact.is_hidden_peer);
    assert!(contact.notes.is_none());
}

#[test]
fn valid_contact_passes_validation() {
    assert_eq!(sample_contact().validate(), Ok(()));
}

#[test]
fn empty_address_is_rejected() {
    let mut contact = sample_contact();
    contact.yggdrasil_address = String::new();
    assert_eq!(contact.validate(), Err(ValidationError::InvalidAddress));
}

#[test]
fn blank_display_name_is_rejected() {
    let mut contact = sample_contact();
    contact.display_name = "  \t ".to_string();
    assert_eq!(contact.validate(), Err(ValidationError::InvalidDisplayName));
}

#[test]
fn hidden_peer_needs_a_proxy() {
    let mut contact = sample_contact();
    contact.is_hidden_peer = true;
    contact.socks5_proxy = String::new();
    assert_eq!(contact.validate(), Err(ValidationError::InvalidProxy));
}

#[test]
fn hidden_peer_with_proxy_passes() {
    let mut contact = sample_contact();
    contact.is_hidden_peer = true;
    assert_eq!(contact.validate(), Ok(()));
}

#[test]
fn validation_messages() {
    assert_eq!(ValidationError::InvalidAddress.message(), "Unvalid Yggdrasil address");
    assert_eq!(ValidationError::InvalidDisplayName.message(), "Invalid display name");
    assert_eq!(
        ValidationError::InvalidProxy.message(),
        "Invalid SOCKS5 proxy configuration"
    );
}

#[test]
fn chat_list_keeps_only_active_contacts() {
    let mut active = sample_contact();
    active.id = Some(7);
    active.last_seen = Some(123_456);
    let mut inactive = sample_contact();
    inactive.id = Some(8);
    inactive.is_active = false;
    let mut never_seen = sample_contact();
    never_seen.id = Some(-3);
    never_seen.display_name = "Bob".to_string();

    let items = chat_items_from_contacts(&vec![active, inactive, never_seen]);
    assert_eq!(items.len(), 2);
    assert_eq!(items[0].id.0, "7");
    assert_eq!(items[0].name, "Alice");
    assert_eq!(items[0].timestamp, 123_456);
    assert!(items[0].last_message.is_none());
    assert_eq!(items[0].unread_count, 0);
    assert!(!items[0].is_online);
    assert_eq!(items[1].id.0, "-3");
    assert_eq!(items[1].name, "Bob");
    assert_eq!(items[1].timestamp, 0);
}

#[test]
fn contact_without_id_maps_to_zero() {
    let contact = sample_contact();
    let items = chat_items_from_contacts(&vec![contact]);
    assert_eq!(items[0].id.0, "0");
}
