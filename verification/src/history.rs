//! The history of one chat: its messages in the order of their keys.
//!
//! The key of a message is its timestamp, then its id. A message is older than
//! another when its key is smaller. A well-formed history is strictly
//! increasing in that order and holds no id twice, so the messages older than
//! one at position `p` are exactly those before `p`.

use vstd::prelude::*;
use crate::state::{ChatMessage, ChatMessageView, DeliveryView, MessageDeliveryState};
use crate::text::{
    lemma_text_lt_connected, lemma_text_lt_irreflexive, lemma_text_lt_transitive, text_less,
    text_lt,
};

verus! {

/// Whether `a` is older than `b`.
pub open spec fn key_lt(a: ChatMessageView, b: ChatMessageView) -> bool {
    a.timestamp < b.timestamp || (a.timestamp == b.timestamp && text_lt(a.id, b.id))
}

/// Strictly increasing keys.
pub open spec fn history_sorted(ms: Seq<ChatMessageView>) -> bool {
    forall|i: int, j: int| 0 <= i < j < ms.len() ==> key_lt(#[trigger] ms[i], #[trigger] ms[j])
}

/// No id occurs twice.
pub open spec fn history_distinct(ms: Seq<ChatMessageView>) -> bool {
    forall|i: int, j: int| 0 <= i < j < ms.len() ==> (#[trigger] ms[i]).id != (#[trigger] ms[j]).id
}

/// A well-formed history.
pub open spec fn history_ok(ms: Seq<ChatMessageView>) -> bool {
    history_sorted(ms) && history_distinct(ms)
}

/// Whether a message with this id is in the history.
pub open spec fn has_message(ms: Seq<ChatMessageView>, id: Seq<char>) -> bool {
    exists|i: int| 0 <= i < ms.len() && (#[trigger] ms[i]).id == id
}

/// Where the message with this id stands, if there is one.
pub open spec fn message_index(ms: Seq<ChatMessageView>, id: Seq<char>) -> int {
    choose|i: int| 0 <= i < ms.len() && (#[trigger] ms[i]).id == id
}

/// Whether `m` belongs at position `p`: after everything older, before
/// everything newer.
pub open spec fn is_slot(ms: Seq<ChatMessageView>, m: ChatMessageView, p: int) -> bool {
    &&& 0 <= p <= ms.len()
    &&& forall|i: int| 0 <= i < p ==> key_lt(#[trigger] ms[i], m)
    &&& forall|i: int| p <= i < ms.len() ==> key_lt(m, #[trigger] ms[i])
}

/// The position at which `m` is inserted.
pub open spec fn slot_for(ms: Seq<ChatMessageView>, m: ChatMessageView) -> int {
    choose|p: int| is_slot(ms, m, p)
}

/// The history with `m` added in key order; unchanged if its id is there
/// already.
pub open spec fn history_insert(ms: Seq<ChatMessageView>, m: ChatMessageView) -> Seq<
    ChatMessageView,
> {
    if has_message(ms, m.id) {
        ms
    } else {
        ms.insert(slot_for(ms, m), m)
    }
}

/// The message `m` with another delivery state.
pub open spec fn with_delivery(m: ChatMessageView, delivery: DeliveryView) -> ChatMessageView {
    ChatMessageView { delivery, ..m }
}

/// The history with the delivery state of the message `id` replaced;
/// unchanged if there is no such message.
pub open spec fn history_set_delivery(
    ms: Seq<ChatMessageView>,
    id: Seq<char>,
    delivery: DeliveryView,
) -> Seq<ChatMessageView> {
    if has_message(ms, id) {
        let i = message_index(ms, id);
        ms.update(i, with_delivery(ms[i], delivery))
    } else {
        ms
    }
}

/// The `n` newest messages, oldest first; all of them if there are fewer.
pub open spec fn newest(ms: Seq<ChatMessageView>, n: nat) -> Seq<ChatMessageView> {
    if ms.len() > n {
        ms.subrange(ms.len() - n, ms.len() as int)
    } else {
        ms
    }
}

/// Up to `limit` messages just older than the message `before`, oldest first;
/// none if `before` is unknown.
pub open spec fn older_than(ms: Seq<ChatMessageView>, before: Seq<char>, limit: nat) -> Seq<
    ChatMessageView,
> {
    if has_message(ms, before) {
        let p = message_index(ms, before);
        if p > limit {
            ms.subrange(p - limit, p)
        } else {
            ms.subrange(0, p)
        }
    } else {
        Seq::empty()
    }
}

/// Whether any message is older than the message `id`.
pub open spec fn has_older(ms: Seq<ChatMessageView>, id: Seq<char>) -> bool {
    has_message(ms, id) && message_index(ms, id) > 0
}

/// `key_lt` is a strict order, total on messages with different ids.
pub proof fn lemma_key_lt_irreflexive(a: ChatMessageView)
    ensures
        !key_lt(a, a),
{
    lemma_text_lt_irreflexive(a.id);
}

pub proof fn lemma_key_lt_transitive(a: ChatMessageView, b: ChatMessageView, c: ChatMessageView)
    requires
        key_lt(a, b),
        key_lt(b, c),
    ensures
        key_lt(a, c),
{
    if a.timestamp == b.timestamp && b.timestamp == c.timestamp {
        lemma_text_lt_transitive(a.id, b.id, c.id);
    }
}

pub proof fn lemma_key_lt_connected(a: ChatMessageView, b: ChatMessageView)
    requires
        a.id != b.id,
    ensures
        key_lt(a, b) || key_lt(b, a),
{
    lemma_text_lt_connected(a.id, b.id);
}

pub proof fn lemma_key_lt_asymmetric(a: ChatMessageView, b: ChatMessageView)
    requires
        key_lt(a, b),
    ensures
        !key_lt(b, a),
{
    if key_lt(b, a) {
        lemma_key_lt_transitive(a, b, a);
        lemma_key_lt_irreflexive(a);
    }
}

/// In a history without repeated ids, a message is found at one place only.
pub proof fn lemma_message_index_is(ms: Seq<ChatMessageView>, id: Seq<char>, i: int)
    requires
        history_distinct(ms),
        0 <= i < ms.len(),
        ms[i].id == id,
    ensures
        has_message(ms, id),
        message_index(ms, id) == i,
{
    let k = message_index(ms, id);
    assert(0 <= k < ms.len() && ms[k].id == id);
    if k < i {
        assert(ms[k].id != ms[i].id);
    } else if i < k {
        assert(ms[i].id != ms[k].id);
    }
}

/// A message has at most one slot.
pub proof fn lemma_slot_is(ms: Seq<ChatMessageView>, m: ChatMessageView, p: int)
    requires
        is_slot(ms, m, p),
    ensures
        slot_for(ms, m) == p,
{
    let q = slot_for(ms, m);
    assert(is_slot(ms, m, q));
    if q < p {
        assert(key_lt(ms[q], m));
        assert(key_lt(m, ms[q]));
        lemma_key_lt_asymmetric(m, ms[q]);
    } else if p < q {
        assert(key_lt(ms[p], m));
        assert(key_lt(m, ms[p]));
        lemma_key_lt_asymmetric(m, ms[p]);
    }
}

/// Inserting keeps a history well-formed.
pub proof fn lemma_history_insert_ok(ms: Seq<ChatMessageView>, m: ChatMessageView)
    requires
        history_ok(ms),
    ensures
        history_ok(history_insert(ms, m)),
        has_message(history_insert(ms, m), m.id),
        forall|id: Seq<char>|
            has_message(history_insert(ms, m), id) <==> (id == m.id || has_message(ms, id)),
{
    let out = history_insert(ms, m);
    if has_message(ms, m.id) {
    } else {
        lemma_slot_exists(ms, m);
        let p = slot_for(ms, m);
        assert(is_slot(ms, m, p));
        assert(out == ms.insert(p, m));
        assert forall|i: int, j: int| 0 <= i < j < out.len() implies key_lt(
            #[trigger] out[i],
            #[trigger] out[j],
        ) by {
            if j < p {
                assert(out[i] == ms[i] && out[j] == ms[j]);
            } else if j == p {
                assert(out[i] == ms[i]);
            } else if i < p {
                assert(out[i] == ms[i] && out[j] == ms[j - 1]);
                if j - 1 == i {
                }
                lemma_key_lt_transitive(ms[i], m, ms[j - 1]);
            } else if i == p {
                assert(out[j] == ms[j - 1]);
            } else {
                assert(out[i] == ms[i - 1] && out[j] == ms[j - 1]);
            }
        }
        assert forall|i: int, j: int| 0 <= i < j < out.len() implies (#[trigger] out[i]).id != (
        #[trigger] out[j]).id by {
            lemma_key_lt_irreflexive(out[i]);
            if out[i].id == out[j].id {
                // keys are strictly increasing, so the timestamps agree and the ids differ
                assert(key_lt(out[i], out[j]));
                if i == p {
                    assert(out[j] == ms[j - 1]);
                    assert(has_message(ms, m.id));
                } else if j == p {
                    assert(out[i] == ms[i]);
                    assert(has_message(ms, m.id));
                } else {
                    let a = if i < p { i } else { i - 1 };
                    let b = if j < p { j } else { j - 1 };
                    assert(out[i] == ms[a] && out[j] == ms[b]);
                    assert(a < b);
                }
            }
        }
        assert(out[p] == m);
    }
    assert forall|id: Seq<char>| has_message(out, id) <==> (id == m.id || has_message(ms, id)) by {
        if has_message(ms, m.id) {
        } else {
            let p = slot_for(ms, m);
            lemma_slot_exists(ms, m);
            assert(is_slot(ms, m, p));
            if has_message(out, id) {
                let k = choose|k: int| 0 <= k < out.len() && (#[trigger] out[k]).id == id;
                if k < p {
                    assert(ms[k].id == id);
                } else if k > p {
                    assert(ms[k - 1].id == id);
                }
            }
            if has_message(ms, id) {
                let k = choose|k: int| 0 <= k < ms.len() && (#[trigger] ms[k]).id == id;
                if k < p {
                    assert(out[k].id == id);
                } else {
                    assert(out[k + 1].id == id);
                }
            }
            if id == m.id {
                assert(out[p].id == id);
            }
        }
    }
    if has_message(ms, m.id) {
    } else {
        let p = slot_for(ms, m);
        lemma_slot_exists(ms, m);
        assert(is_slot(ms, m, p));
        assert(out[p].id == m.id);
    }
}

/// A well-formed history has a slot for every message whose id is new.
pub proof fn lemma_slot_exists(ms: Seq<ChatMessageView>, m: ChatMessageView)
    requires
        history_ok(ms),
        !has_message(ms, m.id),
    ensures
        is_slot(ms, m, slot_for(ms, m)),
{
    let p = first_newer(ms, m, 0);
    lemma_first_newer(ms, m, 0);
    assert(is_slot(ms, m, p));
}

/// The first position from `from` on whose message is newer than `m`.
spec fn first_newer(ms: Seq<ChatMessageView>, m: ChatMessageView, from: int) -> int
    decreases ms.len() - from,
{
    if from < 0 || from >= ms.len() {
        ms.len() as int
    } else if key_lt(m, ms[from]) {
        from
    } else {
        first_newer(ms, m, from + 1)
    }
}

proof fn lemma_first_newer(ms: Seq<ChatMessageView>, m: ChatMessageView, from: int)
    requires
        history_ok(ms),
        !has_message(ms, m.id),
        0 <= from <= ms.len(),
        forall|i: int| 0 <= i < from ==> key_lt(#[trigger] ms[i], m),
    ensures
        is_slot(ms, m, first_newer(ms, m, from)),
    decreases ms.len() - from,
{
    if from >= ms.len() {
    } else if key_lt(m, ms[from]) {
        assert forall|i: int| from <= i < ms.len() implies key_lt(m, #[trigger] ms[i]) by {
            if i > from {
                assert(key_lt(ms[from], ms[i]));
                lemma_key_lt_transitive(m, ms[from], ms[i]);
            }
        }
    } else {
        assert(ms[from].id != m.id);
        lemma_key_lt_connected(ms[from], m);
        lemma_first_newer(ms, m, from + 1);
    }
}

/// Replacing a delivery state keeps a history well-formed, and keeps every
/// id and timestamp where it was.
pub proof fn lemma_history_set_delivery_ok(
    ms: Seq<ChatMessageView>,
    id: Seq<char>,
    delivery: DeliveryView,
)
    requires
        history_ok(ms),
    ensures
        history_ok(history_set_delivery(ms, id, delivery)),
        history_set_delivery(ms, id, delivery).len() == ms.len(),
        forall|i: int|
            0 <= i < ms.len() ==> {
                &&& (#[trigger] history_set_delivery(ms, id, delivery)[i]).id == ms[i].id
                &&& history_set_delivery(ms, id, delivery)[i].timestamp == ms[i].timestamp
                &&& history_set_delivery(ms, id, delivery)[i].content == ms[i].content
            },
{
    let out = history_set_delivery(ms, id, delivery);
    if has_message(ms, id) {
        let k = message_index(ms, id);
        assert forall|i: int, j: int| 0 <= i < j < out.len() implies key_lt(
            #[trigger] out[i],
            #[trigger] out[j],
        ) by {
            assert(key_lt(ms[i], ms[j]));
        }
        assert forall|i: int, j: int| 0 <= i < j < out.len() implies (#[trigger] out[i]).id != (
        #[trigger] out[j]).id by {
            assert(ms[i].id != ms[j].id);
        }
    }
}

/// In a well-formed history the messages before a position are exactly the
/// ones older than the message at it.
pub proof fn lemma_older_is_before(ms: Seq<ChatMessageView>, p: int, i: int)
    requires
        history_ok(ms),
        0 <= p < ms.len(),
        0 <= i < ms.len(),
    ensures
        key_lt(ms[i], ms[p]) <==> i < p,
{
    if i < p {
        assert(key_lt(ms[i], ms[p]));
    } else if i == p {
        lemma_key_lt_irreflexive(ms[p]);
    } else {
        assert(key_lt(ms[p], ms[i]));
        lemma_key_lt_asymmetric(ms[p], ms[i]);
    }
}

/// Whether `window` is the newest end of `history`.
pub open spec fn is_tail(history: Seq<ChatMessageView>, window: Seq<ChatMessageView>) -> bool {
    window.len() <= history.len() && window == history.subrange(
        history.len() - window.len(),
        history.len() as int,
    )
}

/// The newest messages are the newest end of the history, as many as asked
/// for or all there are.
pub proof fn lemma_newest_is_tail(history: Seq<ChatMessageView>, n: nat)
    ensures
        is_tail(history, newest(history, n)),
        newest(history, n).len() == if history.len() > n {
            n
        } else {
            history.len()
        },
{
    if history.len() <= n {
        assert(history.subrange(0, history.len() as int) =~= history);
    }
}

/// Paging back from the oldest message of a window that is the newest end of
/// the history: the page holds the `limit` messages just before the window,
/// or all that are left, and put in front of the window it gives the newest
/// end again. More is left exactly when the history is longer than both.
pub proof fn lemma_page_before_tail(
    history: Seq<ChatMessageView>,
    window: Seq<ChatMessageView>,
    limit: nat,
)
    requires
        history_ok(history),
        is_tail(history, window),
        window.len() > 0,
    ensures
        ({
            let page = older_than(history, window[0].id, limit);
            let left = history.len() - window.len();
            &&& page.len() == if left > limit {
                limit as int
            } else {
                left
            }
            &&& is_tail(history, page + window)
            &&& has_older(history, window[0].id) == (left > 0)
            &&& page.len() > 0 ==> has_older(history, page[0].id) == (left > limit)
        }),
{
    let left = history.len() - window.len();
    assert(window[0] == history[left]);
    lemma_message_index_is(history, window[0].id, left);
    let page = older_than(history, window[0].id, limit);
    let from = if left > limit {
        left - limit
    } else {
        0
    };
    assert(page == history.subrange(from, left));
    assert(page + window =~= history.subrange(from, history.len() as int));
    if page.len() > 0 {
        assert(page[0] == history[from]);
        lemma_message_index_is(history, page[0].id, from);
    }
}

/// The oldest part of a well-formed history is well-formed.
pub proof fn lemma_sorted_prefix(history: Seq<ChatMessageView>, n: int)
    requires
        history_ok(history),
        0 <= n <= history.len(),
    ensures
        history_ok(history.subrange(0, n)),
{
    let prefix = history.subrange(0, n);
    assert forall|i: int, j: int| 0 <= i < j < prefix.len() implies key_lt(
        #[trigger] prefix[i],
        #[trigger] prefix[j],
    ) by {
        assert(key_lt(history[i], history[j]));
    }
    assert forall|i: int, j: int| 0 <= i < j < prefix.len() implies (#[trigger] prefix[i]).id != (
    #[trigger] prefix[j]).id by {
        assert(history[i].id != history[j].id);
    }
}

/// Adding the next message of a well-formed history to what came before it
/// puts it at the end.
pub proof fn lemma_insert_next(history: Seq<ChatMessageView>)
    requires
        history_ok(history),
        history.len() > 0,
    ensures
        history_insert(history.drop_last(), history.last()) == history,
{
    let prefix = history.drop_last();
    let m = history.last();
    if has_message(prefix, m.id) {
        let k = choose|k: int| 0 <= k < prefix.len() && (#[trigger] prefix[k]).id == m.id;
        assert(history[k].id != history[history.len() - 1].id);
    }
    assert forall|i: int| 0 <= i < prefix.len() implies key_lt(#[trigger] prefix[i], m) by {
        assert(key_lt(history[i], history[history.len() - 1]));
    }
    assert(is_slot(prefix, m, prefix.len() as int));
    lemma_slot_is(prefix, m, prefix.len() as int);
    assert(prefix.insert(prefix.len() as int, m) =~= history);
}

/// The history that holds the given messages: each added in turn, a repeated
/// id left out.
pub open spec fn history_of(ms: Seq<ChatMessageView>) -> Seq<ChatMessageView>
    decreases ms.len(),
{
    if ms.len() == 0 {
        Seq::empty()
    } else {
        history_insert(history_of(ms.drop_last()), ms.last())
    }
}

/// `history_of` gives a well-formed history.
pub proof fn lemma_history_of_ok(ms: Seq<ChatMessageView>)
    ensures
        history_ok(history_of(ms)),
    decreases ms.len(),
{
    if ms.len() > 0 {
        lemma_history_of_ok(ms.drop_last());
        lemma_history_insert_ok(history_of(ms.drop_last()), ms.last());
    }
}

/// A well-formed history read back message by message is itself.
pub proof fn lemma_history_of_same(ms: Seq<ChatMessageView>)
    requires
        history_ok(ms),
    ensures
        history_of(ms) == ms,
    decreases ms.len(),
{
    if ms.len() == 0 {
        assert(ms =~= Seq::empty());
    } else {
        lemma_sorted_prefix(ms, ms.len() - 1);
        assert(ms.drop_last() =~= ms.subrange(0, ms.len() - 1));
        lemma_history_of_same(ms.drop_last());
        lemma_insert_next(ms);
    }
}

/// Whether `a` is older than `b`.
pub fn message_older(a: &ChatMessage, b: &ChatMessage) -> (r: bool)
    ensures
        r == key_lt(a@, b@),
{
    if a.timestamp < b.timestamp {
        true
    } else if a.timestamp == b.timestamp {
        text_less(a.id.as_str(), b.id.as_str())
    } else {
        false
    }
}

/// Looks a message up by its id: gives the first position that holds it.
pub fn find_message(ms: &Vec<ChatMessage>, id: &String) -> (r: Option<usize>)
    ensures
        r is Some <==> has_message(ms.deep_view(), id@),
        r matches Some(i) ==> i < ms.len() && ms[i as int].id@ == id@ && forall|j: int|
            0 <= j < i ==> (#[trigger] ms.deep_view()[j]).id != id@,
        r matches Some(i) ==> (history_distinct(ms.deep_view()) ==> i == message_index(
            ms.deep_view(),
            id@,
        )),
{
    let mut i: usize = 0;
    while i < ms.len()
        invariant
            i <= ms.len(),
            forall|j: int| 0 <= j < i ==> (#[trigger] ms.deep_view()[j]).id != id@,
        decreases ms.len() - i,
    {
        if ms[i].id == *id {
            proof {
                assert(ms.deep_view()[i as int].id == id@);
                if history_distinct(ms.deep_view()) {
                    lemma_message_index_is(ms.deep_view(), id@, i as int);
                }
            }
            return Some(i);
        }
        i += 1;
    }
    None
}

/// Adds `m` in key order. Returns whether it was added: a message whose id
/// the history already holds is left out.
pub fn insert_message(ms: &mut Vec<ChatMessage>, m: ChatMessage) -> (added: bool)
    requires
        history_ok(old(ms).deep_view()),
    ensures
        added == !has_message(old(ms).deep_view(), m@.id),
        final(ms).deep_view() == history_insert(old(ms).deep_view(), m@),
        added ==> is_slot(old(ms).deep_view(), m@, slot_for(old(ms).deep_view(), m@)),
        history_ok(final(ms).deep_view()),
{
    proof {
        lemma_history_insert_ok(ms.deep_view(), m@);
        if !has_message(ms.deep_view(), m@.id) {
            lemma_slot_exists(ms.deep_view(), m@);
        }
    }
    if find_message(ms, &m.id).is_some() {
        return false;
    }
    let mut p: usize = ms.len();
    while p > 0 && message_older(&m, &ms[p - 1])
        invariant
            p <= ms.len(),
            forall|i: int| p <= i < ms.len() ==> key_lt(m@, #[trigger] ms.deep_view()[i]),
        decreases p,
    {
        p -= 1;
    }
    proof {
        let v = ms.deep_view();
        assert forall|i: int| 0 <= i < p implies key_lt(#[trigger] v[i], m@) by {
            assert(v[p - 1].id != m@.id);
            lemma_key_lt_connected(v[p - 1], m@);
            if i < p - 1 {
                assert(key_lt(v[i], v[p - 1]));
                lemma_key_lt_transitive(v[i], v[p - 1], m@);
            }
        }
        assert(is_slot(v, m@, p as int));
        lemma_slot_is(v, m@, p as int);
    }
    let ghost before = ms.deep_view();
    let ghost mv = m@;
    ms.insert(p, m);
    assert(ms.deep_view() =~= before.insert(p as int, mv));
    true
}

/// Sets the delivery state of the message `id`. Returns whether there is such
/// a message.
pub fn set_message_delivery(
    ms: &mut Vec<ChatMessage>,
    id: &String,
    delivery: MessageDeliveryState,
) -> (found: bool)
    requires
        history_ok(old(ms).deep_view()),
    ensures
        found == has_message(old(ms).deep_view(), id@),
        final(ms).deep_view() == history_set_delivery(old(ms).deep_view(), id@, delivery@),
        history_ok(final(ms).deep_view()),
{
    proof {
        lemma_history_set_delivery_ok(ms.deep_view(), id@, delivery@);
    }
    match find_message(ms, id) {
        Some(i) => {
            let ghost before = ms.deep_view();
            let ghost d = delivery@;
            ms[i].delivery = delivery;
            assert(ms.deep_view() =~= before.update(i as int, with_delivery(before[i as int], d)));
            true
        },
        None => false,
    }
}

/// Copies of the messages from `from` up to `to`.
pub fn copy_range(ms: &Vec<ChatMessage>, from: usize, to: usize) -> (r: Vec<ChatMessage>)
    requires
        from <= to <= ms.len(),
    ensures
        r.deep_view() == ms.deep_view().subrange(from as int, to as int),
{
    let mut out: Vec<ChatMessage> = Vec::new();
    let mut i: usize = from;
    while i < to
        invariant
            from <= i <= to <= ms.len(),
            out.deep_view() == ms.deep_view().subrange(from as int, i as int),
        decreases to - i,
    {
        let ghost before = out.deep_view();
        out.push(ms[i].clone());
        assert(out.deep_view() =~= before.push(ms.deep_view()[i as int]));
        assert(out.deep_view() =~= ms.deep_view().subrange(from as int, i + 1));
        i += 1;
    }
    out
}

/// The `n` newest messages, oldest first.
pub fn newest_messages(ms: &Vec<ChatMessage>, n: usize) -> (r: Vec<ChatMessage>)
    ensures
        r.deep_view() == newest(ms.deep_view(), n as nat),
{
    let len = ms.len();
    if len > n {
        copy_range(ms, len - n, len)
    } else {
        let r = copy_range(ms, 0, len);
        assert(r.deep_view() =~= ms.deep_view());
        r
    }
}

/// Up to `limit` messages just older than the message `before`, oldest first.
pub fn messages_older_than(ms: &Vec<ChatMessage>, before: &String, limit: usize) -> (r: Vec<
    ChatMessage,
>)
    requires
        history_ok(ms.deep_view()),
    ensures
        r.deep_view() == older_than(ms.deep_view(), before@, limit as nat),
{
    match find_message(ms, before) {
        Some(p) => {
            if p > limit {
                copy_range(ms, p - limit, p)
            } else {
                copy_range(ms, 0, p)
            }
        },
        None => {
            let r: Vec<ChatMessage> = Vec::new();
            assert(r.deep_view() =~= Seq::empty());
            r
        },
    }
}

/// Whether any message is older than the message `id`.
pub fn any_older_than(ms: &Vec<ChatMessage>, id: &String) -> (r: bool)
    requires
        history_ok(ms.deep_view()),
    ensures
        r == has_older(ms.deep_view(), id@),
{
    match find_message(ms, id) {
        Some(p) => p > 0,
        None => false,
    }
}

/// Builds a history from messages in any order: see [`history_of`].
pub fn history_from(ms: &Vec<ChatMessage>) -> (r: Vec<ChatMessage>)
    ensures
        r.deep_view() == history_of(ms.deep_view()),
        history_ok(r.deep_view()),
{
    let mut out: Vec<ChatMessage> = Vec::new();
    let mut i: usize = 0;
    proof {
        assert(ms.deep_view().subrange(0, 0) =~= Seq::empty());
        assert(out.deep_view() =~= Seq::empty());
    }
    while i < ms.len()
        invariant
            i <= ms.len(),
            history_ok(out.deep_view()),
            out.deep_view() == history_of(ms.deep_view().subrange(0, i as int)),
        decreases ms.len() - i,
    {
        proof {
            let upto = ms.deep_view().subrange(0, i + 1);
            assert(upto.drop_last() =~= ms.deep_view().subrange(0, i as int));
            assert(upto.last() == ms.deep_view()[i as int]);
        }
        insert_message(&mut out, ms[i].clone());
        i += 1;
    }
    assert(ms.deep_view().subrange(0, ms.len() as int) =~= ms.deep_view());
    out
}

} // verus!
