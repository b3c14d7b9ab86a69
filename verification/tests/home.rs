use syggrel_chat::chat_data::{ChatId, ChatItem};
use syggrel_chat::home::{home_view, sort_chats_by_recency, HomeView};

fn item(id: &str, timestamp: i64) -> ChatItem {
    ChatItem {
        id: ChatId(id.to_string()),
        name: format!("peer {}", id),
        last_message: None,
        timestamp,
        unread_count: 0,
        is_online: false,
    }
}

#[test]
fn chats_are_sorted_most_recent_first() {
    let chats = vec![item("a", 5), item("b", 9), item("c", 7)];
    let sorted = sort_chats_by_recency(chats);
    let order: Vec<&str> = sorted.iter().map(|c| c.id.0.as_str()).collect();
    assert_eq!(order, vec!["b", "c", "a"]);
}

#[test]
fn sorting_keeps_every_chat() {
    let chats = vec![item("a", 1), item("b", 1), item("c", 3), item("d", 2)];
    let mut sorted = sort_chats_by_recency(chats.clone());
    assert_eq!(sorted.len(), chats.len());
    assert_eq!(sorted[0].id.0, "c");
    assert_eq!(sorted[1].id.0, "d");
    sorted.sort_by(|x, y| x.id.0.cmp(&y.id.0));
    let mut expected = chats;
    expected.sort_by(|x, y| x.id.0.cmp(&y.id.0));
    assert_eq!(sorted, expected);
}

#[test]
fn loading_wins_over_everything() {
    assert!(matches!(home_view(true, None), HomeView::Loading));
    assert!(matches!(home_view(true, Some(vec![item("a", 1)])), HomeView::Loading));
}

#[test]
fn chats_are_shown_sorted() {
    match home_view(false, Some(vec![item("a", 1), item("b", 2)])) {
        HomeView::Chats(shown) => {
            assert_eq!(shown[0].id.0, "b");
            assert_eq!(shown[1].id.0, "a");
        }
        _ => panic!("chats are shown"),
    }
}

#[test]
fn nothing_to_show_is_the_empty_state() {
    assert!(matches!(home_view(false, None), HomeView::Empty));
    assert!(matches!(home_view(false, Some(vec![])), HomeView::Empty));
}
