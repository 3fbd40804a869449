//! Which invite of a channel can be used again.
//!
//! An invite serves a request where the caller made it and it will still be
//! good when an invite made now for the request would run out. Of the invites
//! that serve, the first in the API's order is taken: the list is not sorted.

use vstd::prelude::*;
use crate::http::{ChannelInvite, ChannelInviteView, invite_views};

verus! {

/// Nanoseconds in a second.
pub const NANOS_PER_SECOND: i128 = 1_000_000_000;

/// The instant at which an invite made at `now` for `max_age` seconds runs out,
/// in nanoseconds since the Unix epoch.
pub open spec fn request_expiry(now: int, max_age: u64) -> int {
    now + max_age * NANOS_PER_SECOND
}

/// Whether `invite` serves a request of `owner` made at `now` for `max_age`
/// seconds: `owner` made it, and it never expires or expires strictly after
/// `request_expiry(now, max_age)`.
pub open spec fn reusable(invite: ChannelInviteView, owner: Seq<char>, now: int, max_age: u64) -> bool {
    &&& invite.inviter == owner
    &&& match invite.expires_at {
        None => true,
        Some(t) => t > request_expiry(now, max_age),
    }
}

/// Whether the invite at `i` serves and none before it does.
pub open spec fn is_first_reusable(
    invites: Seq<ChannelInviteView>,
    owner: Seq<char>,
    now: int,
    max_age: u64,
    i: int,
) -> bool {
    &&& 0 <= i < invites.len()
    &&& reusable(invites[i], owner, now, max_age)
    &&& forall|j: int| 0 <= j < i ==> !reusable(#[trigger] invites[j], owner, now, max_age)
}

/// Whether no invite of the list serves.
pub open spec fn none_reusable(
    invites: Seq<ChannelInviteView>,
    owner: Seq<char>,
    now: int,
    max_age: u64,
) -> bool {
    forall|j: int| 0 <= j < invites.len() ==> !reusable(#[trigger] invites[j], owner, now, max_age)
}

/// The place of the first invite that serves, if any does.
pub open spec fn first_reusable(
    invites: Seq<ChannelInviteView>,
    owner: Seq<char>,
    now: int,
    max_age: u64,
) -> Option<int> {
    if exists|i: int| is_first_reusable(invites, owner, now, max_age, i) {
        Some(choose|i: int| is_first_reusable(invites, owner, now, max_age, i))
    } else {
        None
    }
}

/// Only one place can hold the first invite that serves.
pub proof fn first_reusable_at(
    invites: Seq<ChannelInviteView>,
    owner: Seq<char>,
    now: int,
    max_age: u64,
    i: int,
)
    requires
        is_first_reusable(invites, owner, now, max_age, i),
    ensures
        first_reusable(invites, owner, now, max_age) == Some(i),
{
}

/// Where an invite serves, one at or before it is the first that does.
proof fn some_first_reusable(
    invites: Seq<ChannelInviteView>,
    owner: Seq<char>,
    now: int,
    max_age: u64,
    j: int,
)
    requires
        0 <= j < invites.len(),
        reusable(invites[j], owner, now, max_age),
    ensures
        exists|i: int| is_first_reusable(invites, owner, now, max_age, i),
    decreases j,
{
    if exists|k: int| 0 <= k < j && reusable(#[trigger] invites[k], owner, now, max_age) {
        let k = choose|k: int| 0 <= k < j && reusable(#[trigger] invites[k], owner, now, max_age);
        some_first_reusable(invites, owner, now, max_age, k);
    } else {
        assert(is_first_reusable(invites, owner, now, max_age, j));
    }
}

/// `first_reusable` takes the first invite that serves, and finds none only
/// where none serves.
pub proof fn first_reusable_is_first(
    invites: Seq<ChannelInviteView>,
    owner: Seq<char>,
    now: int,
    max_age: u64,
)
    ensures
        match first_reusable(invites, owner, now, max_age) {
            Some(i) => is_first_reusable(invites, owner, now, max_age, i),
            None => none_reusable(invites, owner, now, max_age),
        },
{
    if first_reusable(invites, owner, now, max_age) is None {
        assert forall|j: int| 0 <= j < invites.len() implies !reusable(
            #[trigger] invites[j],
            owner,
            now,
            max_age,
        ) by {
            if reusable(invites[j], owner, now, max_age) {
                some_first_reusable(invites, owner, now, max_age, j);
            }
        }
    }
}

/// Tells whether `invite` serves a request of `owner` made at `now` for
/// `max_age` seconds.
pub fn is_reusable(invite: &ChannelInvite, owner: &String, now: i128, max_age: u64) -> (serves: bool)
    ensures
        serves == reusable(invite@, owner@, now as int, max_age),
{
    if !(invite.inviter.id == *owner) {
        return false;
    }
    match invite.expires_at {
        None => true,
        Some(expires_at) => {
            let span: i128 = (max_age as i128) * NANOS_PER_SECOND;
            if now > i128::MAX - span {
                false
            } else {
                expires_at > now + span
            }
        },
    }
}

/// Takes the first invite of `invites` that serves a request of `owner` made at
/// `now` for `max_age` seconds, if any does.
pub fn select_invite(invites: Vec<ChannelInvite>, owner: &String, now: i128, max_age: u64) -> (chosen:
    Option<ChannelInvite>)
    ensures
        match first_reusable(invite_views(invites@), owner@, now as int, max_age) {
            Some(i) => chosen == Some(invites@[i]),
            None => chosen is None,
        },
{
    let ghost views = invite_views(invites@);
    let mut list = invites;
    let mut i: usize = 0;
    while i < list.len()
        invariant
            i <= list.len(),
            list@ == invites@,
            views == invite_views(invites@),
            forall|j: int| 0 <= j < i ==> !reusable(#[trigger] views[j], owner@, now as int, max_age),
        decreases list.len() - i,
    {
        if is_reusable(&list[i], owner, now, max_age) {
            proof {
                first_reusable_at(views, owner@, now as int, max_age, i as int);
            }
            let invite = list.remove(i);
            return Some(invite);
        }
        i += 1;
    }
    proof {
        first_reusable_is_first(views, owner@, now as int, max_age);
    }
    None
}

} // verus!
