//! Contact records, their validation, and their mapping into the chat list.
//!
//! Contacts are what the persistence layer stores; the queries themselves
//! happen outside the library, which receives the rows as plain values.
//! Timestamps are milliseconds since the Unix epoch, UTC.

use vstd::prelude::*;

verus! {

use crate::chat_data::{ChatId, ChatItem};
use crate::text::{dec_int, i32_to_string};

/// Relies on `chrono::Utc::now` and `DateTime::timestamp_millis`: the
/// current UTC time in milliseconds since the Unix epoch. Nothing can be
/// promised of a clock reading.
#[verifier::external_body]
fn now_utc_millis() -> i64 {
    chrono::Utc::now().timestamp_millis()
}

/// What `str::trim` returns: the input without leading and trailing
/// whitespace. The result depends on the characters alone.
pub uninterp spec fn trimmed_of(s: Seq<char>) -> Seq<char>;

/// Relies on `str::trim`: removes leading and trailing whitespace, so the
/// result is never longer than the input, and empty input stays empty.
#[verifier::external_body]
fn trim_of(s: &str) -> (trimmed: String)
    ensures
        trimmed@ == trimmed_of(s@),
        trimmed@.len() <= s@.len(),
        s@.len() == 0 ==> trimmed@.len() == 0,
{
    s.trim().to_string()
}

/// A peer contact.
#[derive(Clone, Debug, PartialEq, Eq)]
pub struct Contact {
    pub id: Option<i32>,
    pub yggdrasil_address: String,
    pub socks5_proxy: String,
    pub display_name: String,
    pub is_active: bool,
    pub last_seen: Option<i64>,
    pub created_at: i64,
    pub updated_at: i64,
    pub is_hidden_peer: bool,
    pub notes: Option<String>,
}

/// Why a contact is rejected.
#[derive(Debug, Clone, PartialEq, Eq)]
pub enum ValidationError {
    InvalidAddress,
    InvalidDisplayName,
    InvalidProxy,
}

impl ValidationError {
    /// The human-readable description of the defect.
    pub open spec fn message_spec(&self) -> Seq<char> {
        match self {
            ValidationError::InvalidAddress => "Unvalid Yggdrasil address"@,
            ValidationError::InvalidDisplayName => "Invalid display name"@,
            ValidationError::InvalidProxy => "Invalid SOCKS5 proxy configuration"@,
        }
    }

    /// Renders the defect for display.
    pub fn message(&self) -> (text: String)
        ensures
            text@ == self.message_spec(),
    {
        match self {
            ValidationError::InvalidAddress => "Unvalid Yggdrasil address".to_owned(),
            ValidationError::InvalidDisplayName => "Invalid display name".to_owned(),
            ValidationError::InvalidProxy => "Invalid SOCKS5 proxy configuration".to_owned(),
        }
    }
}

impl Contact {
    /// Creates a contact stamped with the current clock reading: active,
    /// never seen, no notes, and no database id yet.
    pub fn new(
        yggdrasil_address: String,
        socks5_proxy: String,
        display_name: String,
        is_hidden_peer: bool,
    ) -> (contact: Contact)
        ensures
            contact.id.is_none(),
            contact.yggdrasil_address == yggdrasil_address,
            contact.socks5_proxy == socks5_proxy,
            contact.display_name == display_name,
            contact.is_active,
            contact.last_seen.is_none(),
            contact.created_at == contact.updated_at,
            contact.is_hidden_peer == is_hidden_peer,
            contact.notes.is_none(),
    {
        let now = now_utc_millis();
        Contact {
            id: None,
            yggdrasil_address,
            socks5_proxy,
            display_name,
            is_active: true,
            last_seen: None,
            created_at: now,
            updated_at: now,
            is_hidden_peer,
            notes: None,
        }
    }

    /// How validation decides: the first defect found — an empty overlay
    /// address, then a blank display name, then a hidden peer without a
    /// proxy.
    pub open spec fn validation_spec(&self) -> Result<(), ValidationError> {
        if self.yggdrasil_address@.len() == 0 {
            Err(ValidationError::InvalidAddress)
        } else if trimmed_of(self.display_name@).len() == 0 {
            Err(ValidationError::InvalidDisplayName)
        } else if self.is_hidden_peer && self.socks5_proxy@.len() == 0 {
            Err(ValidationError::InvalidProxy)
        } else {
            Ok(())
        }
    }

    pub fn validate(&self) -> (outcome: Result<(), ValidationError>)
        ensures
            outcome == self.validation_spec(),
    {
        if self.yggdrasil_address.as_str().is_empty() {
            return Err(ValidationError::InvalidAddress);
        }
        let trimmed = trim_of(self.display_name.as_str());
        if trimmed.as_str().is_empty() {
            return Err(ValidationError::InvalidDisplayName);
        }
        if self.is_hidden_peer && self.socks5_proxy.as_str().is_empty() {
            return Err(ValidationError::InvalidProxy);
        }
        Ok(())
    }
}

/// How a stored contact appears in the chat list: the database id (or zero
/// before one is assigned) as decimal text, the display name, no last
/// message yet, the last-seen time (or the epoch when never seen), nothing
/// unread, presence unknown.
pub open spec fn is_chat_item_of(item: ChatItem, c: Contact) -> bool {
    &&& item.id.0@ == dec_int(if c.id is Some { c.id.unwrap() as int } else { 0 })
    &&& item.name@ == c.display_name@
    &&& item.last_message.is_none()
    &&& item.timestamp == (if c.last_seen is Some { c.last_seen.unwrap() } else { 0 })
    &&& item.unread_count == 0
    &&& !item.is_online
}

/// `items` lists, in order, one chat entry for each active contact of `cs`.
pub open spec fn chat_list_of(cs: Seq<Contact>, items: Seq<ChatItem>) -> bool
    decreases cs.len(),
{
    if cs.len() == 0 {
        items.len() == 0
    } else if cs[0].is_active {
        &&& items.len() > 0
        &&& is_chat_item_of(items[0], cs[0])
        &&& chat_list_of(cs.skip(1), items.skip(1))
    } else {
        chat_list_of(cs.skip(1), items)
    }
}

proof fn lemma_chat_list_push_active(cs: Seq<Contact>, items: Seq<ChatItem>, c: Contact, item: ChatItem)
    requires
        chat_list_of(cs, items),
        c.is_active,
        is_chat_item_of(item, c),
    ensures
        chat_list_of(cs.push(c), items.push(item)),
    decreases cs.len(),
{
    if cs.len() == 0 {
        assert(items.len() == 0);
        assert(cs.push(c)[0] == c);
        assert(items.push(item)[0] == item);
        assert(cs.push(c).skip(1) =~= Seq::<Contact>::empty());
        assert(items.push(item).skip(1) =~= Seq::<ChatItem>::empty());
        assert(chat_list_of(Seq::<Contact>::empty(), Seq::<ChatItem>::empty()));
    } else {
        assert(cs.push(c).skip(1) =~= cs.skip(1).push(c));
        if cs[0].is_active {
            assert(items.push(item).skip(1) =~= items.skip(1).push(item));
            lemma_chat_list_push_active(cs.skip(1), items.skip(1), c, item);
        } else {
            lemma_chat_list_push_active(cs.skip(1), items, c, item);
        }
        assert(cs.push(c)[0] == cs[0]);
    }
}

proof fn lemma_chat_list_push_inactive(cs: Seq<Contact>, items: Seq<ChatItem>, c: Contact)
    requires
        chat_list_of(cs, items),
        !c.is_active,
    ensures
        chat_list_of(cs.push(c), items),
    decreases cs.len(),
{
    if cs.len() == 0 {
        assert(cs.push(c)[0] == c);
        assert(cs.push(c).skip(1) =~= Seq::<Contact>::empty());
        assert(chat_list_of(Seq::<Contact>::empty(), items));
    } else {
        assert(cs.push(c).skip(1) =~= cs.skip(1).push(c));
        if cs[0].is_active {
            lemma_chat_list_push_inactive(cs.skip(1), items.skip(1), c);
        } else {
            lemma_chat_list_push_inactive(cs.skip(1), items, c);
        }
        assert(cs.push(c)[0] == cs[0]);
    }
}

/// Turns the stored contacts into the chat list: one entry per active
/// contact, in storage order; inactive contacts are left out.
#[verifier::loop_isolation(false)]
pub fn chat_items_from_contacts(contacts: &Vec<Contact>) -> (items: Vec<ChatItem>)
    ensures
        chat_list_of(contacts@, items@),
{
    let mut items: Vec<ChatItem> = Vec::new();
    proof {
        assert(contacts@.take(0) =~= Seq::<Contact>::empty());
    }
    let mut i: usize = 0;
    while i < contacts.len()
        invariant
            i <= contacts@.len(),
            chat_list_of(contacts@.take(i as int), items@),
        decreases contacts@.len() - i,
    {
        let c = &contacts[i];
        if c.is_active {
            let id_number: i32 = match c.id {
                Some(n) => n,
                None => 0,
            };
            let last_seen: i64 = match c.last_seen {
                Some(t) => t,
                None => 0,
            };
            let item = ChatItem {
                id: ChatId(i32_to_string(id_number)),
                name: c.display_name.clone(),
                last_message: None,
                timestamp: last_seen,
                unread_count: 0,
                is_online: false,
            };
            proof {
                assert(is_chat_item_of(item, contacts@[i as int]));
                lemma_chat_list_push_active(contacts@.take(i as int), items@, contacts@[i as int], item);
                assert(contacts@.take(i + 1) =~= contacts@.take(i as int).push(contacts@[i as int]));
            }
            items.push(item);
        } else {
            proof {
                lemma_chat_list_push_inactive(contacts@.take(i as int), items@, contacts@[i as int]);
                assert(contacts@.take(i + 1) =~= contacts@.take(i as int).push(contacts@[i as int]));
            }
        }
        i = i + 1;
    }
    proof {
        assert(contacts@.take(contacts@.len() as int) =~= contacts@);
    }
    items
}

} // verus!
