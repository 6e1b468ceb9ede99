//! The `kdeconnect.sms.messages` packet and the unread-badge summary that
//! both the SMS window and the panel applet compute from it.

use vstd::prelude::*;
use crate::text::{decimal, decimal_string};

verus! {

/// A batch of SMS messages as the phone sends them.
#[derive(Clone, Debug)]
pub struct SmsMessages {
    pub messages: Vec<SmsMessage>,
    pub version: Option<i32>,
}

/// One SMS message. `read == 0` means the phone reports it unread.
#[derive(Clone, Debug)]
pub struct SmsMessage {
    pub id: i64,
    pub addresses: Vec<SmsAddress>,
    pub attachments: Vec<SmsAttachment>,
    pub body: String,
    pub date: i64,
    pub message_type: i32,
    pub read: i32,
    pub thread_id: i64,
    pub sub_id: Option<i32>,
    pub event: Option<i32>,
}

#[derive(Clone, Debug)]
pub struct SmsAddress {
    pub address: String,
}

#[derive(Clone, Debug)]
pub struct SmsAttachment {
    pub part_id: i64,
    pub mime_type: String,
    pub encoded_thumbnail: Option<String>,
    pub unique_identifier: Option<String>,
}

/// The "seen up to" date recorded for a thread, keyed by the thread id in
/// decimal. Keys are those of a map, so the first entry with a key is the
/// only one.
pub open spec fn seen_at(seen: Seq<(String, i64)>, key: Seq<char>) -> Option<i64>
    decreases seen.len(),
{
    if seen.len() == 0 {
        None
    } else if seen[0].0@ == key {
        Some(seen[0].1)
    } else {
        seen_at(seen.drop_first(), key)
    }
}

/// A message makes its conversation unread: it is newer than the date seen
/// for its thread, or, for a thread never opened (no entry at all), the
/// phone reports it unread.
pub open spec fn message_unread(m: SmsMessage, seen: Seq<(String, i64)>) -> bool {
    match seen_at(seen, decimal(m.thread_id as int)) {
        Some(seen_date) => m.date > seen_date,
        None => m.read == 0,
    }
}

/// Some conversation among `messages` is unread.
pub open spec fn any_unread(messages: Seq<SmsMessage>, seen: Seq<(String, i64)>) -> bool {
    exists|i: int| 0 <= i < messages.len() && message_unread(#[trigger] messages[i], seen)
}

/// Looks up the seen date recorded under `key`.
pub fn lookup_seen(seen: &Vec<(String, i64)>, key: &String) -> (r: Option<i64>)
    ensures
        r == seen_at(seen@, key@),
{
    let n = seen.len();
    let mut i: usize = 0;
    assert(seen@.skip(0) =~= seen@);
    while i < n
        invariant
            n == seen@.len(),
            i <= n,
            seen_at(seen@, key@) == seen_at(seen@.skip(i as int), key@),
        decreases n - i,
    {
        assert(seen@.skip(i as int).drop_first() =~= seen@.skip(i + 1));
        if seen[i].0 == *key {
            return Some(seen[i].1);
        }
        i = i + 1;
    }
    assert(seen@.skip(n as int).len() == 0);
    None
}

/// True if any conversation in `data` has a message newer than what is
/// recorded as seen for its thread in `last_seen` (keyed by the thread id in
/// decimal) or, for a thread with no entry in `last_seen` at all, true if
/// the phone reports any message in it unread. `None` stands for a batch
/// that could not be read, which never counts as unread.
pub fn has_unread(data: Option<&SmsMessages>, last_seen: &Vec<(String, i64)>) -> (r: bool)
    ensures
        r == (match data {
            Some(d) => any_unread(d.messages@, last_seen@),
            None => false,
        }),
{
    let batch = match data {
        Some(d) => d,
        None => {
            return false;
        },
    };
    let msgs = &batch.messages;
    let n = msgs.len();
    let mut i: usize = 0;
    while i < n
        invariant
            n == msgs@.len(),
            msgs@ == batch.messages@,
            data == Some(batch),
            i <= n,
            forall|j: int| 0 <= j < i ==> !message_unread(#[trigger] msgs@[j], last_seen@),
        decreases n - i,
    {
        let m = &msgs[i];
        let key = decimal_string(m.thread_id);
        let unread = match lookup_seen(last_seen, &key) {
            Some(seen_date) => m.date > seen_date,
            None => m.read == 0,
        };
        assert(key@ == decimal(msgs@[i as int].thread_id as int));
        if unread {
            assert(message_unread(msgs@[i as int], last_seen@));
            assert(any_unread(batch.messages@, last_seen@));
            return true;
        }
        i = i + 1;
    }
    false
}

/// Whether a batch has unread messages does not depend on the order in which
/// the phone listed them.
pub proof fn lemma_unread_ignores_order(
    a: Seq<SmsMessage>,
    b: Seq<SmsMessage>,
    seen: Seq<(String, i64)>,
)
    requires
        a.to_multiset() == b.to_multiset(),
    ensures
        any_unread(a, seen) == any_unread(b, seen),
{
    a.to_multiset_ensures();
    b.to_multiset_ensures();
    if any_unread(a, seen) {
        let i = choose|i: int| 0 <= i < a.len() && message_unread(#[trigger] a[i], seen);
        assert(a.contains(a[i]));
        assert(a.to_multiset().count(a[i]) > 0);
        assert(b.to_multiset().count(a[i]) > 0);
        assert(b.contains(a[i]));
        let j = choose|j: int| 0 <= j < b.len() && b[j] == a[i];
        assert(message_unread(b[j], seen));
    }
    if any_unread(b, seen) {
        let i = choose|i: int| 0 <= i < b.len() && message_unread(#[trigger] b[i], seen);
        assert(b.contains(b[i]));
        assert(b.to_multiset().count(b[i]) > 0);
        assert(a.to_multiset().count(b[i]) > 0);
        assert(a.contains(b[i]));
        let j = choose|j: int| 0 <= j < a.len() && a[j] == b[i];
        assert(message_unread(a[j], seen));
    }
}

/// Recording a thread as seen at or after its newest message clears it: with
/// every thread of the batch seen at a date no older than any of its
/// messages, nothing is unread.
pub proof fn lemma_all_seen_clears_badge(messages: Seq<SmsMessage>, seen: Seq<(String, i64)>)
    requires
        forall|i: int|
            0 <= i < messages.len() ==> match seen_at(
                seen,
                decimal((#[trigger] messages[i]).thread_id as int),
            ) {
                Some(d) => messages[i].date <= d,
                None => false,
            },
    ensures
        !any_unread(messages, seen),
{
}

} // verus!
