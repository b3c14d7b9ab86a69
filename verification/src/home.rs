//! The compute part of the home screen: ordering the chat list by recency
//! and choosing which of its states the screen shows. Rendering itself lives
//! outside the library.

use vstd::prelude::*;

verus! {

use crate::chat_data::ChatItem;
use vstd::multiset::Multiset;

/// Most recent activity first.
pub open spec fn sorted_by_recency(items: Seq<ChatItem>) -> bool {
    forall|i: int, j: int|
        0 <= i < j < items.len() ==> items[i].timestamp >= items[j].timestamp
}

/// Orders the chats most recent first. The result is a rearrangement of the
/// input: the same multiset of items.
pub fn sort_chats_by_recency(chats: Vec<ChatItem>) -> (sorted: Vec<ChatItem>)
    ensures
        sorted_by_recency(sorted@),
        sorted@.to_multiset() == chats@.to_multiset(),
{
    broadcast use vstd::seq_lib::group_to_multiset_ensures;

    let mut rest = chats;
    let mut sorted: Vec<ChatItem> = Vec::new();
    proof {
        assert(sorted@.to_multiset().add(rest@.to_multiset()) =~= chats@.to_multiset());
    }
    while rest.len() > 0
        invariant
            sorted_by_recency(sorted@),
            sorted@.to_multiset().add(rest@.to_multiset()) == chats@.to_multiset(),
            forall|i: int, j: int|
                0 <= i < sorted@.len() && 0 <= j < rest@.len() ==> sorted@[i].timestamp
                    >= rest@[j].timestamp,
        decreases rest@.len(),
    {
        broadcast use vstd::seq_lib::group_to_multiset_ensures;

        let mut newest: usize = 0;
        let mut probe: usize = 1;
        while probe < rest.len()
            invariant
                newest < rest@.len(),
                probe <= rest@.len(),
                rest@.len() > 0,
                forall|j: int| 0 <= j < probe ==> rest@[newest as int].timestamp >= rest@[j].timestamp,
            decreases rest@.len() - probe,
        {
            if rest[probe].timestamp > rest[newest].timestamp {
                newest = probe;
            }
            probe = probe + 1;
        }
        let ghost sorted_before = sorted@;
        let ghost rest_before = rest@;
        let item = rest.remove(newest);
        sorted.push(item);
        proof {
            assert(rest@ =~= rest_before.remove(newest as int));
            assert(sorted@.to_multiset() =~= sorted_before.to_multiset().insert(item));
            assert(rest_before.to_multiset().contains(item));
            assert(sorted@.to_multiset().add(rest@.to_multiset()) =~= chats@.to_multiset());
            assert forall|j: int| 0 <= j < rest@.len() implies item.timestamp
                >= rest@[j].timestamp by {
                if j < newest as int {
                    assert(rest@[j] == rest_before[j]);
                } else {
                    assert(rest@[j] == rest_before[j + 1]);
                }
            }
        }
    }
    proof {
        assert(rest@.to_multiset() =~= Multiset::<ChatItem>::empty());
        assert(sorted@.to_multiset() =~= chats@.to_multiset());
    }
    sorted
}

/// What the home screen shows.
pub enum HomeView {
    /// A load is in flight: the loading indicator.
    Loading,
    /// The chats, most recent first.
    Chats(Vec<ChatItem>),
    /// Nothing is cached or the list is empty: the empty state with the
    /// invitation to start a new chat.
    Empty,
}

/// Chooses the home screen's state from what the cache reports: the loading
/// indicator while a load is in flight, the sorted chats when there are any,
/// and the empty state otherwise.
pub fn home_view(is_loading: bool, chats: Option<Vec<ChatItem>>) -> (view: HomeView)
    ensures
        is_loading ==> view is Loading,
        !is_loading && (chats matches Some(c) && c@.len() > 0) ==> (view matches HomeView::Chats(
            shown,
        ) && sorted_by_recency(shown@) && shown@.to_multiset() == chats.unwrap()@.to_multiset()),
        !is_loading && (chats matches Some(c) ==> c@.len() == 0) ==> view is Empty,
    {
    if is_loading {
        return HomeView::Loading;
    }
    match chats {
        Some(c) => {
            if c.len() > 0 {
                HomeView::Chats(sort_chats_by_recency(c))
            } else {
                HomeView::Empty
            }
        },
        None => HomeView::Empty,
    }
}

} // verus!
