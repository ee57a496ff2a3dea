//! The chat store of one identity: its chats, each with a summary row and a
//! history, in the order in which the chats were created.

use vstd::prelude::*;
use crate::history::{
    any_older_than, find_message, has_message, has_older, history_from, history_insert,
    history_of, history_ok, history_set_delivery, insert_message, lemma_history_insert_ok,
    lemma_history_of_ok, lemma_history_of_same, messages_older_than, newest, newest_messages,
    older_than, set_message_delivery,
};
use crate::state::{
    ChatMessage, ChatMessageView, ChatSummary, ChatSummaryView, DeliveryView,
    MessageDeliveryState,
};

verus! {

/// One chat as it is stored: its summary row and its messages.
#[derive(Debug, PartialEq, Eq)]
pub struct StoredChat {
    pub summary: ChatSummary,
    pub messages: Vec<ChatMessage>,
}

/// View of a [`StoredChat`].
pub struct StoredChatView {
    pub summary: ChatSummaryView,
    pub messages: Seq<ChatMessageView>,
}

impl DeepView for StoredChat {
    type V = StoredChatView;

    open spec fn deep_view(&self) -> StoredChatView {
        StoredChatView { summary: self.summary@, messages: self.messages.deep_view() }
    }
}

impl View for StoredChat {
    type V = StoredChatView;

    open spec fn view(&self) -> StoredChatView {
        self.deep_view()
    }
}

impl Clone for StoredChat {
    fn clone(&self) -> (r: Self)
        ensures
            r@ == self@,
    {
        let messages = self.messages.clone();
        assert(messages@ =~= self.messages@);
        StoredChat { summary: self.summary.clone(), messages }
    }
}

/// Whether the store holds a chat with this id.
pub open spec fn has_chat(s: Seq<StoredChatView>, chat_id: Seq<char>) -> bool {
    exists|i: int| 0 <= i < s.len() && (#[trigger] s[i]).summary.chat_id == chat_id
}

/// Where the chat with this id stands, if there is one.
pub open spec fn chat_index(s: Seq<StoredChatView>, chat_id: Seq<char>) -> int {
    choose|i: int| 0 <= i < s.len() && (#[trigger] s[i]).summary.chat_id == chat_id
}

/// No chat id occurs twice.
pub open spec fn chats_distinct(s: Seq<StoredChatView>) -> bool {
    forall|i: int, j: int|
        0 <= i < j < s.len() ==> (#[trigger] s[i]).summary.chat_id != (
        #[trigger] s[j]).summary.chat_id
}

/// A well-formed store: no chat id twice, every history well-formed.
pub open spec fn store_ok(s: Seq<StoredChatView>) -> bool {
    &&& chats_distinct(s)
    &&& forall|i: int| 0 <= i < s.len() ==> history_ok((#[trigger] s[i]).messages)
}

/// The summary rows, in the order of the chats.
pub open spec fn summaries(s: Seq<StoredChatView>) -> Seq<ChatSummaryView> {
    Seq::new(s.len(), |i: int| s[i].summary)
}

/// The summary row of a chat.
pub open spec fn summary_of(s: Seq<StoredChatView>, chat_id: Seq<char>) -> Option<
    ChatSummaryView,
> {
    if has_chat(s, chat_id) {
        Some(s[chat_index(s, chat_id)].summary)
    } else {
        None
    }
}

/// The history of a chat; empty if there is no such chat.
pub open spec fn messages_of(s: Seq<StoredChatView>, chat_id: Seq<char>) -> Seq<
    ChatMessageView,
> {
    if has_chat(s, chat_id) {
        s[chat_index(s, chat_id)].messages
    } else {
        Seq::empty()
    }
}

/// The store with the summary row of a chat written: over the old row if the
/// chat is there, as a new chat without messages at the end if it is not.
pub open spec fn store_upsert(s: Seq<StoredChatView>, summary: ChatSummaryView) -> Seq<
    StoredChatView,
> {
    if has_chat(s, summary.chat_id) {
        let i = chat_index(s, summary.chat_id);
        s.update(i, StoredChatView { summary, messages: s[i].messages })
    } else {
        s.push(StoredChatView { summary, messages: Seq::empty() })
    }
}

/// The store with a message added to the history of a chat; unchanged if
/// there is no such chat.
pub open spec fn store_insert(s: Seq<StoredChatView>, chat_id: Seq<char>, m: ChatMessageView) -> Seq<
    StoredChatView,
> {
    if has_chat(s, chat_id) {
        let i = chat_index(s, chat_id);
        s.update(
            i,
            StoredChatView { summary: s[i].summary, messages: history_insert(s[i].messages, m) },
        )
    } else {
        s
    }
}

/// The store with the delivery state of one message replaced.
pub open spec fn store_set_delivery(
    s: Seq<StoredChatView>,
    chat_id: Seq<char>,
    id: Seq<char>,
    delivery: DeliveryView,
) -> Seq<StoredChatView> {
    if has_chat(s, chat_id) {
        let i = chat_index(s, chat_id);
        s.update(
            i,
            StoredChatView {
                summary: s[i].summary,
                messages: history_set_delivery(s[i].messages, id, delivery),
            },
        )
    } else {
        s
    }
}

/// One stored row taken into a store: left out if its chat id is there
/// already.
pub open spec fn store_ingest(s: Seq<StoredChatView>, row: StoredChatView) -> Seq<StoredChatView> {
    if has_chat(s, row.summary.chat_id) {
        s
    } else {
        s.push(StoredChatView { summary: row.summary, messages: history_of(row.messages) })
    }
}

/// The store that holds the given rows, taken in one after the other.
pub open spec fn store_of(rows: Seq<StoredChatView>) -> Seq<StoredChatView>
    decreases rows.len(),
{
    if rows.len() == 0 {
        Seq::empty()
    } else {
        store_ingest(store_of(rows.drop_last()), rows.last())
    }
}

/// In a store without repeated chat ids, a chat is found at one place only.
pub proof fn lemma_chat_index_is(s: Seq<StoredChatView>, chat_id: Seq<char>, i: int)
    requires
        chats_distinct(s),
        0 <= i < s.len(),
        s[i].summary.chat_id == chat_id,
    ensures
        has_chat(s, chat_id),
        chat_index(s, chat_id) == i,
{
    let k = chat_index(s, chat_id);
    assert(0 <= k < s.len() && s[k].summary.chat_id == chat_id);
    if k < i {
        assert(s[k].summary.chat_id != s[i].summary.chat_id);
    } else if i < k {
        assert(s[i].summary.chat_id != s[k].summary.chat_id);
    }
}

/// Writing a summary row keeps the store well-formed, and the chat is there
/// afterwards with that row.
pub proof fn lemma_store_upsert_ok(s: Seq<StoredChatView>, summary: ChatSummaryView)
    requires
        store_ok(s),
    ensures
        store_ok(store_upsert(s, summary)),
        has_chat(store_upsert(s, summary), summary.chat_id),
        summary_of(store_upsert(s, summary), summary.chat_id) == Some(summary),
        messages_of(store_upsert(s, summary), summary.chat_id) == messages_of(s, summary.chat_id),
        forall|other: Seq<char>|
            other != summary.chat_id ==> {
                &&& has_chat(store_upsert(s, summary), other) == has_chat(s, other)
                &&& summary_of(store_upsert(s, summary), other) == summary_of(s, other)
                &&& messages_of(store_upsert(s, summary), other) == messages_of(s, other)
            },
{
    let out = store_upsert(s, summary);
    let k = if has_chat(s, summary.chat_id) {
        chat_index(s, summary.chat_id)
    } else {
        s.len() as int
    };
    assert(0 <= k < out.len());
    assert(out[k].summary == summary);
    assert forall|i: int| 0 <= i < out.len() && i != k implies #[trigger] out[i] == s[i] by {}
    assert forall|i: int, j: int| 0 <= i < j < out.len() implies (#[trigger] out[i]).summary.chat_id
        != (#[trigger] out[j]).summary.chat_id by {
        if has_chat(s, summary.chat_id) {
            assert(s[i].summary.chat_id != s[j].summary.chat_id);
        } else if j == k {
            assert(out[i] == s[i]);
        } else {
            assert(s[i].summary.chat_id != s[j].summary.chat_id);
        }
    }
    assert forall|i: int| 0 <= i < out.len() implies history_ok((#[trigger] out[i]).messages) by {
        if i < s.len() {
            assert(history_ok(s[i].messages));
        }
    }
    lemma_chat_index_is(out, summary.chat_id, k);
    assert forall|other: Seq<char>| other != summary.chat_id implies {
        &&& has_chat(out, other) == has_chat(s, other)
        &&& summary_of(out, other) == summary_of(s, other)
        &&& messages_of(out, other) == messages_of(s, other)
    } by {
        if has_chat(s, other) {
            let i = chat_index(s, other);
            assert(out[i] == s[i]);
            lemma_chat_index_is(out, other, i);
        }
        if has_chat(out, other) {
            let i = chat_index(out, other);
            assert(out[i] == s[i]);
            lemma_chat_index_is(s, other, i);
        }
    }
}

/// Replacing the history of one chat by another well-formed one keeps the
/// store well-formed and every summary row as it was.
pub proof fn lemma_store_update_history(
    s: Seq<StoredChatView>,
    chat_id: Seq<char>,
    history: Seq<ChatMessageView>,
)
    requires
        store_ok(s),
        has_chat(s, chat_id),
        history_ok(history),
    ensures
        ({
            let i = chat_index(s, chat_id);
            let out = s.update(i, StoredChatView { summary: s[i].summary, messages: history });
            &&& store_ok(out)
            &&& summaries(out) == summaries(s)
            &&& messages_of(out, chat_id) == history
            &&& forall|other: Seq<char>| has_chat(out, other) == has_chat(s, other)
            &&& forall|other: Seq<char>| summary_of(out, other) == summary_of(s, other)
            &&& forall|other: Seq<char>|
                other != chat_id ==> messages_of(out, other) == messages_of(s, other)
        }),
{
    let i = chat_index(s, chat_id);
    let out = s.update(i, StoredChatView { summary: s[i].summary, messages: history });
    assert forall|a: int, b: int| 0 <= a < b < out.len() implies (#[trigger] out[a]).summary.chat_id
        != (#[trigger] out[b]).summary.chat_id by {
        assert(s[a].summary.chat_id != s[b].summary.chat_id);
    }
    assert forall|a: int| 0 <= a < out.len() implies history_ok((#[trigger] out[a]).messages) by {
        assert(history_ok(s[a].messages));
    }
    assert(summaries(out) =~= summaries(s));
    assert forall|other: Seq<char>| has_chat(out, other) == has_chat(s, other) by {
        if has_chat(s, other) {
            let k = chat_index(s, other);
            assert(out[k].summary.chat_id == other);
        }
        if has_chat(out, other) {
            let k = chat_index(out, other);
            assert(s[k].summary.chat_id == other);
        }
    }
    assert forall|other: Seq<char>| summary_of(out, other) == summary_of(s, other) by {
        if has_chat(s, other) {
            let k = chat_index(s, other);
            assert(out[k].summary.chat_id == other);
            lemma_chat_index_is(out, other, k);
        }
    }
    assert forall|other: Seq<char>| other != chat_id implies messages_of(out, other)
        == messages_of(s, other) by {
        if has_chat(s, other) {
            let k = chat_index(s, other);
            assert(out[k].summary.chat_id == other);
            lemma_chat_index_is(out, other, k);
        }
    }
    lemma_chat_index_is(out, chat_id, i);
}

/// Adding a message keeps the store well-formed and every summary row as it
/// was.
pub proof fn lemma_store_insert_ok(s: Seq<StoredChatView>, chat_id: Seq<char>, m: ChatMessageView)
    requires
        store_ok(s),
    ensures
        store_ok(store_insert(s, chat_id, m)),
        summaries(store_insert(s, chat_id, m)) == summaries(s),
        forall|other: Seq<char>| has_chat(store_insert(s, chat_id, m), other) == has_chat(s, other),
        forall|other: Seq<char>|
            summary_of(store_insert(s, chat_id, m), other) == summary_of(s, other),
        has_chat(s, chat_id) ==> messages_of(store_insert(s, chat_id, m), chat_id)
            == history_insert(messages_of(s, chat_id), m),
        forall|other: Seq<char>|
            other != chat_id ==> messages_of(store_insert(s, chat_id, m), other) == messages_of(
                s,
                other,
            ),
{
    if has_chat(s, chat_id) {
        let i = chat_index(s, chat_id);
        assert(history_ok(s[i].messages));
        lemma_history_insert_ok(s[i].messages, m);
        lemma_store_update_history(s, chat_id, history_insert(s[i].messages, m));
    }
}

/// Replacing a delivery state keeps the store well-formed and every summary
/// row as it was.
pub proof fn lemma_store_set_delivery_ok(
    s: Seq<StoredChatView>,
    chat_id: Seq<char>,
    id: Seq<char>,
    delivery: DeliveryView,
)
    requires
        store_ok(s),
    ensures
        store_ok(store_set_delivery(s, chat_id, id, delivery)),
        summaries(store_set_delivery(s, chat_id, id, delivery)) == summaries(s),
        forall|other: Seq<char>|
            has_chat(store_set_delivery(s, chat_id, id, delivery), other) == has_chat(s, other),
        forall|other: Seq<char>|
            summary_of(store_set_delivery(s, chat_id, id, delivery), other) == summary_of(
                s,
                other,
            ),
        has_chat(s, chat_id) ==> messages_of(store_set_delivery(s, chat_id, id, delivery), chat_id)
            == history_set_delivery(messages_of(s, chat_id), id, delivery),
        forall|other: Seq<char>|
            other != chat_id ==> messages_of(store_set_delivery(s, chat_id, id, delivery), other)
                == messages_of(s, other),
{
    if has_chat(s, chat_id) {
        let i = chat_index(s, chat_id);
        assert(history_ok(s[i].messages));
        crate::history::lemma_history_set_delivery_ok(s[i].messages, id, delivery);
        lemma_store_update_history(s, chat_id, history_set_delivery(s[i].messages, id, delivery));
    }
}

/// Taking a row in keeps the store well-formed.
pub proof fn lemma_store_ingest_ok(s: Seq<StoredChatView>, row: StoredChatView)
    requires
        store_ok(s),
    ensures
        store_ok(store_ingest(s, row)),
{
    let out = store_ingest(s, row);
    lemma_history_of_ok(row.messages);
    if !has_chat(s, row.summary.chat_id) {
        assert forall|i: int, j: int| 0 <= i < j < out.len() implies (
        #[trigger] out[i]).summary.chat_id != (#[trigger] out[j]).summary.chat_id by {
            if j < s.len() {
                assert(s[i].summary.chat_id != s[j].summary.chat_id);
            } else {
                assert(out[i] == s[i]);
            }
        }
        assert forall|i: int| 0 <= i < out.len() implies history_ok((#[trigger] out[i]).messages) by {
            if i < s.len() {
                assert(history_ok(s[i].messages));
            }
        }
    }
}

/// `store_of` gives a well-formed store.
pub proof fn lemma_store_of_ok(rows: Seq<StoredChatView>)
    ensures
        store_ok(store_of(rows)),
    decreases rows.len(),
{
    if rows.len() > 0 {
        lemma_store_of_ok(rows.drop_last());
        lemma_store_ingest_ok(store_of(rows.drop_last()), rows.last());
    }
}

/// A well-formed store read back row by row is itself: what was written out
/// is what comes back.
pub proof fn lemma_store_of_same(s: Seq<StoredChatView>)
    requires
        store_ok(s),
    ensures
        store_of(s) == s,
    decreases s.len(),
{
    if s.len() == 0 {
        assert(s =~= Seq::empty());
    } else {
        let prefix = s.drop_last();
        let row = s.last();
        assert forall|i: int, j: int| 0 <= i < j < prefix.len() implies (
        #[trigger] prefix[i]).summary.chat_id != (#[trigger] prefix[j]).summary.chat_id by {
            assert(s[i].summary.chat_id != s[j].summary.chat_id);
        }
        assert forall|i: int| 0 <= i < prefix.len() implies history_ok(
            (#[trigger] prefix[i]).messages,
        ) by {
            assert(history_ok(s[i].messages));
        }
        lemma_store_of_same(prefix);
        if has_chat(prefix, row.summary.chat_id) {
            let k = chat_index(prefix, row.summary.chat_id);
            assert(s[k].summary.chat_id != s[s.len() - 1].summary.chat_id);
        }
        assert(history_ok(s[s.len() - 1].messages));
        lemma_history_of_same(row.messages);
        assert(prefix.push(row) =~= s);
    }
}

/// The chats and message histories of the signed-in identity.
pub struct ChatStore {
    chats: Vec<StoredChat>,
}

impl View for ChatStore {
    type V = Seq<StoredChatView>;

    closed spec fn view(&self) -> Seq<StoredChatView> {
        self.chats.deep_view()
    }
}

impl ChatStore {
    /// Well-formedness: see [`store_ok`].
    pub open spec fn wf(&self) -> bool {
        store_ok(self@)
    }

    /// A store without chats.
    pub fn new() -> (s: Self)
        ensures
            s@ == Seq::<StoredChatView>::empty(),
            s.wf(),
    {
        let s = ChatStore { chats: Vec::new() };
        assert(s.chats.deep_view() =~= Seq::empty());
        s
    }

    fn find_chat(&self, chat_id: &String) -> (r: Option<usize>)
        requires
            self.wf(),
        ensures
            r is Some <==> has_chat(self@, chat_id@),
            r matches Some(i) ==> i < self.chats.len() && i == chat_index(self@, chat_id@),
    {
        let mut i: usize = 0;
        while i < self.chats.len()
            invariant
                i <= self.chats.len(),
                self.wf(),
                forall|j: int|
                    0 <= j < i ==> (#[trigger] self.chats.deep_view()[j]).summary.chat_id
                        != chat_id@,
            decreases self.chats.len() - i,
        {
            if self.chats[i].summary.chat_id == *chat_id {
                proof {
                    assert(self.chats.deep_view()[i as int].summary.chat_id == chat_id@);
                    lemma_chat_index_is(self@, chat_id@, i as int);
                }
                return Some(i);
            }
            i += 1;
        }
        None
    }

    /// Whether the store holds the chat.
    pub fn contains(&self, chat_id: &String) -> (r: bool)
        requires
            self.wf(),
        ensures
            r == has_chat(self@, chat_id@),
    {
        self.find_chat(chat_id).is_some()
    }

    /// The summary row of a chat.
    pub fn summary(&self, chat_id: &String) -> (r: Option<ChatSummary>)
        requires
            self.wf(),
        ensures
            r.deep_view() == summary_of(self@, chat_id@),
    {
        match self.find_chat(chat_id) {
            Some(i) => Some(self.chats[i].summary.clone()),
            None => None,
        }
    }

    /// All summary rows, in the order of the chats.
    pub fn summaries(&self) -> (r: Vec<ChatSummary>)
        ensures
            r.deep_view() == summaries(self@),
    {
        let mut out: Vec<ChatSummary> = Vec::new();
        let mut i: usize = 0;
        assert(out.deep_view() =~= summaries(self@).subrange(0, 0));
        while i < self.chats.len()
            invariant
                i <= self.chats.len(),
                out.deep_view() == summaries(self@).subrange(0, i as int),
            decreases self.chats.len() - i,
        {
            let ghost before = out.deep_view();
            out.push(self.chats[i].summary.clone());
            assert(out.deep_view() =~= before.push(self.chats.deep_view()[i as int].summary));
            assert(out.deep_view() =~= summaries(self@).subrange(0, i + 1));
            i += 1;
        }
        assert(out.deep_view() =~= summaries(self@));
        out
    }

    /// Copies of all chats with their histories, as rows to write out.
    pub fn rows(&self) -> (r: Vec<StoredChat>)
        ensures
            r.deep_view() == self@,
    {
        let r = self.chats.clone();
        assert(r.deep_view() =~= self.chats.deep_view()) by {
            assert(r.len() == self.chats.len());
            assert forall|i: int| 0 <= i < r.len() implies #[trigger] r.deep_view()[i]
                == self.chats.deep_view()[i] by {
                assert(vstd::pervasive::cloned::<StoredChat>(self.chats@[i], r@[i]));
            }
        }
        r
    }

    /// Writes a summary row: see [`store_upsert`].
    pub fn upsert_chat(&mut self, summary: ChatSummary)
        requires
            old(self).wf(),
        ensures
            final(self).wf(),
            final(self)@ == store_upsert(old(self)@, summary@),
    {
        proof {
            lemma_store_upsert_ok(self@, summary@);
        }
        let ghost before = self.chats.deep_view();
        let ghost sv = summary@;
        match self.find_chat(&summary.chat_id) {
            Some(i) => {
                self.chats[i].summary = summary;
                assert(self.chats.deep_view() =~= before.update(
                    i as int,
                    StoredChatView { summary: sv, messages: before[i as int].messages },
                ));
            },
            None => {
                let chat = StoredChat { summary, messages: Vec::new() };
                assert(chat.messages.deep_view() =~= Seq::empty());
                self.chats.push(chat);
                assert(self.chats.deep_view() =~= before.push(
                    StoredChatView { summary: sv, messages: Seq::empty() },
                ));
            },
        }
    }

    /// Adds a message to the history of a chat, in key order. Returns whether
    /// it was added: it is not if the chat is unknown or holds the id already.
    pub fn insert_message(&mut self, chat_id: &String, m: ChatMessage) -> (added: bool)
        requires
            old(self).wf(),
        ensures
            final(self).wf(),
            final(self)@ == store_insert(old(self)@, chat_id@, m@),
            added == (has_chat(old(self)@, chat_id@) && !has_message(
                messages_of(old(self)@, chat_id@),
                m@.id,
            )),
    {
        let ghost before = self.chats.deep_view();
        match self.find_chat(chat_id) {
            Some(i) => {
                proof {
                    assert(history_ok(before[i as int].messages));
                    lemma_history_insert_ok(before[i as int].messages, m@);
                    lemma_store_update_history(
                        before,
                        chat_id@,
                        history_insert(before[i as int].messages, m@),
                    );
                }
                let ghost mv = m@;
                let added = insert_message(&mut self.chats[i].messages, m);
                assert(self.chats.deep_view() =~= before.update(
                    i as int,
                    StoredChatView {
                        summary: before[i as int].summary,
                        messages: history_insert(before[i as int].messages, mv),
                    },
                ));
                added
            },
            None => false,
        }
    }

    /// Sets the delivery state of a message. Returns whether the chat holds
    /// such a message.
    pub fn set_delivery(
        &mut self,
        chat_id: &String,
        id: &String,
        delivery: MessageDeliveryState,
    ) -> (found: bool)
        requires
            old(self).wf(),
        ensures
            final(self).wf(),
            final(self)@ == store_set_delivery(old(self)@, chat_id@, id@, delivery@),
            found == has_message(messages_of(old(self)@, chat_id@), id@),
    {
        let ghost before = self.chats.deep_view();
        match self.find_chat(chat_id) {
            Some(i) => {
                proof {
                    assert(history_ok(before[i as int].messages));
                    crate::history::lemma_history_set_delivery_ok(
                        before[i as int].messages,
                        id@,
                        delivery@,
                    );
                    lemma_store_update_history(
                        before,
                        chat_id@,
                        history_set_delivery(before[i as int].messages, id@, delivery@),
                    );
                }
                let ghost d = delivery@;
                let found = set_message_delivery(&mut self.chats[i].messages, id, delivery);
                assert(self.chats.deep_view() =~= before.update(
                    i as int,
                    StoredChatView {
                        summary: before[i as int].summary,
                        messages: history_set_delivery(before[i as int].messages, id@, d),
                    },
                ));
                found
            },
            None => {
                assert(!has_message(Seq::<ChatMessageView>::empty(), id@));
                false
            },
        }
    }

    /// Whether the chat holds a message with this id.
    pub fn has_message(&self, chat_id: &String, id: &String) -> (r: bool)
        requires
            self.wf(),
        ensures
            r == has_message(messages_of(self@, chat_id@), id@),
    {
        match self.find_chat(chat_id) {
            Some(i) => find_message(&self.chats[i].messages, id).is_some(),
            None => {
                assert(!has_message(Seq::<ChatMessageView>::empty(), id@));
                false
            },
        }
    }

    /// The `n` newest messages of a chat, oldest first.
    pub fn newest(&self, chat_id: &String, n: usize) -> (r: Vec<ChatMessage>)
        requires
            self.wf(),
        ensures
            r.deep_view() == newest(messages_of(self@, chat_id@), n as nat),
    {
        match self.find_chat(chat_id) {
            Some(i) => newest_messages(&self.chats[i].messages, n),
            None => {
                let r: Vec<ChatMessage> = Vec::new();
                assert(r.deep_view() =~= Seq::empty());
                r
            },
        }
    }

    /// Up to `limit` messages of a chat just older than the message `before`,
    /// oldest first.
    pub fn older_than(&self, chat_id: &String, before: &String, limit: usize) -> (r: Vec<
        ChatMessage,
    >)
        requires
            self.wf(),
        ensures
            r.deep_view() == older_than(messages_of(self@, chat_id@), before@, limit as nat),
    {
        match self.find_chat(chat_id) {
            Some(i) => {
                assert(history_ok(self@[i as int].messages));
                messages_older_than(&self.chats[i].messages, before, limit)
            },
            None => {
                let r: Vec<ChatMessage> = Vec::new();
                assert(r.deep_view() =~= Seq::empty());
                assert(!has_message(Seq::<ChatMessageView>::empty(), before@));
                r
            },
        }
    }

    /// Whether the chat holds a message older than the message `id`.
    pub fn has_older(&self, chat_id: &String, id: &String) -> (r: bool)
        requires
            self.wf(),
        ensures
            r == has_older(messages_of(self@, chat_id@), id@),
    {
        match self.find_chat(chat_id) {
            Some(i) => {
                assert(history_ok(self@[i as int].messages));
                any_older_than(&self.chats[i].messages, id)
            },
            None => {
                assert(!has_message(Seq::<ChatMessageView>::empty(), id@));
                false
            },
        }
    }

    /// Builds the store from rows read back from storage: see [`store_of`].
    /// Rows need not be in order, and repeated ids are left out.
    pub fn from_rows(rows: Vec<StoredChat>) -> (s: Self)
        ensures
            s.wf(),
            s@ == store_of(rows.deep_view()),
    {
        let mut store = ChatStore::new();
        let mut i: usize = 0;
        proof {
            assert(rows.deep_view().subrange(0, 0) =~= Seq::empty());
        }
        while i < rows.len()
            invariant
                i <= rows.len(),
                store.wf(),
                store@ == store_of(rows.deep_view().subrange(0, i as int)),
            decreases rows.len() - i,
        {
            let row = &rows[i];
            proof {
                let upto = rows.deep_view().subrange(0, i + 1);
                assert(upto.drop_last() =~= rows.deep_view().subrange(0, i as int));
                assert(upto.last() == row@);
                lemma_store_ingest_ok(store@, row@);
            }
            if !store.contains(&row.summary.chat_id) {
                let messages = history_from(&row.messages);
                let ghost before = store.chats.deep_view();
                let chat = StoredChat { summary: row.summary.clone(), messages };
                store.chats.push(chat);
                assert(store.chats.deep_view() =~= before.push(
                    StoredChatView {
                        summary: row@.summary,
                        messages: history_of(row@.messages),
                    },
                ));
            }
            i += 1;
        }
        assert(rows.deep_view().subrange(0, rows.len() as int) =~= rows.deep_view());
        store
    }
}

} // verus!
