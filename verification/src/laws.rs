//! What holds of the reducer over every run.

use vstd::prelude::*;
use crate::actions::ActionView;
use crate::chat_store::{
    has_chat, lemma_store_insert_ok, lemma_store_of_ok, lemma_store_of_same,
    lemma_store_set_delivery_ok, lemma_store_upsert_ok, messages_of, store_insert, store_ok,
    summary_of, StoredChatView,
};
use crate::history::{
    has_message, history_ok, is_tail, lemma_newest_is_tail, lemma_page_before_tail,
    with_delivery,
};
use crate::identity::secret_identity;
use crate::model::{
    act, add_chat, core_ok, delivery_of, fresh_window, is_open, react, step, take_message,
    unchanged, window_with_page, CoreView, DrawView, StepView, DEFAULT_PAGE_SIZE,
};
use crate::state::{
    AuthView, ChatMessageView, ChatSummaryView, ChatWindowView, DeliveryView, ScreenView,
};
use crate::updates::{update_rev, EffectView, EventView, MsgView, UpdateView};

verus! {

proof fn lemma_add_chat_ok(c: CoreView, summary: ChatSummaryView)
    requires
        core_ok(c),
    ensures
        core_ok(add_chat(c, summary).core),
{
    if c.session is Some {
        lemma_store_upsert_ok(c.session->0.store, summary);
    }
}

proof fn lemma_take_message_ok(
    c: CoreView,
    chat_id: Seq<char>,
    m: ChatMessageView,
    summary: ChatSummaryView,
    more: Seq<EffectView>,
)
    requires
        core_ok(c),
        c.session is Some,
    ensures
        core_ok(take_message(c, c.session->0, chat_id, m, summary, more).core),
{
    let s = c.session->0;
    lemma_store_insert_ok(s.store, chat_id, m);
    lemma_store_upsert_ok(store_insert(s.store, chat_id, m), summary);
}

/// A command keeps what holds of the reducer between items.
pub proof fn lemma_act_keeps_core_ok(c: CoreView, action: ActionView, draw: DrawView)
    requires
        core_ok(c),
    ensures
        core_ok(act(c, action, draw).core),
{
    match action {
        ActionView::CreateChat { peer_npub } => {
            if c.session is Some {
                let s = c.session->0;
                lemma_add_chat_ok(
                    c,
                    crate::model::new_summary(
                        crate::model::self_chat_id(s.identity.pubkey),
                        s.identity.npub,
                        None,
                    ),
                );
            }
        },
        ActionView::SendMessage { chat_id, content } => {
            if c.session is Some {
                let s = c.session->0;
                let id = crate::ids::id_text(crate::model::message_id_prefix(), draw.id_bytes);
                let summary = crate::chat_store::summary_of(s.store, chat_id);
                if summary is Some {
                    lemma_take_message_ok(
                        c,
                        chat_id,
                        ChatMessageView {
                            id,
                            sender_pubkey: s.identity.pubkey,
                            content,
                            timestamp: draw.now,
                            is_mine: true,
                            delivery: crate::state::DeliveryView::Pending,
                        },
                        ChatSummaryView {
                            last_message: Some(content),
                            last_message_at: Some(draw.now),
                            ..summary->0
                        },
                        seq![EffectView::PublishMessage { chat_id, rumor_id: id, content }],
                    );
                }
            }
        },
        _ => {},
    }
}

/// A result of outside work keeps what holds of the reducer between items.
pub proof fn lemma_react_keeps_core_ok(c: CoreView, event: EventView)
    requires
        core_ok(c),
    ensures
        core_ok(react(c, event).core),
{
    match event {
        EventView::GiftWrapReceived { invite } => {
            if invite is Some {
                let g = invite->0;
                lemma_add_chat_ok(c, crate::model::new_summary(g.chat_id, g.peer_npub, g.peer_name));
            }
        },
        EventView::GroupMessageReceived { message } => {
            if c.session is Some && message is Some {
                let s = c.session->0;
                let inbound = message->0;
                let summary = crate::chat_store::summary_of(s.store, inbound.chat_id);
                if summary is Some {
                    lemma_take_message_ok(
                        c,
                        inbound.chat_id,
                        ChatMessageView {
                            id: inbound.id,
                            sender_pubkey: inbound.sender_pubkey,
                            content: inbound.content,
                            timestamp: inbound.timestamp,
                            is_mine: false,
                            delivery: crate::state::DeliveryView::Sent,
                        },
                        ChatSummaryView {
                            last_message: Some(inbound.content),
                            last_message_at: Some(inbound.timestamp),
                            unread_count: if crate::model::is_open(c.state, inbound.chat_id) {
                                summary->0.unread_count
                            } else {
                                crate::model::one_more(summary->0.unread_count)
                            },
                            ..summary->0
                        },
                        Seq::empty(),
                    );
                }
            }
        },
        EventView::PublishMessageResult { chat_id, rumor_id, ok, error } => {
            if c.session is Some {
                lemma_store_set_delivery_ok(
                    c.session->0.store,
                    chat_id,
                    rumor_id,
                    delivery_of(ok, error),
                );
            }
        },
        EventView::IdentityStoreOpened { pubkey, opened } => {
            if opened is Ok {
                lemma_store_of_ok(opened->Ok_0);
            }
        },
        EventView::GroupCreated { peer, created } => {
            if created is Ok {
                lemma_add_chat_ok(c, crate::model::new_summary(created->Ok_0, peer.npub, None));
            }
        },
        _ => {},
    }
}

/// A queue item keeps what holds of the reducer between items.
pub proof fn lemma_step_keeps_core_ok(c: CoreView, msg: MsgView, draw: DrawView)
    requires
        core_ok(c),
    ensures
        core_ok(step(c, msg, draw).core),
{
    match msg {
        MsgView::Action(action) => lemma_act_keeps_core_ok(c, action, draw),
        MsgView::Internal(event) => lemma_react_keeps_core_ok(c, event),
    }
}

/// The updates of an outcome carry the revisions that follow `rev` one by
/// one, and the state ends on the last of them.
pub open spec fn revs_follow(rev: u64, r: StepView) -> bool {
    &&& r.updates.len() <= 2
    &&& r.core.state.rev == rev + r.updates.len()
    &&& forall|i: int| 0 <= i < r.updates.len() ==> update_rev(#[trigger] r.updates[i]) == rev + 1 + i
}

proof fn lemma_act_revs(c: CoreView, action: ActionView, draw: DrawView)
    requires
        c.state.rev <= u64::MAX - 2,
    ensures
        revs_follow(c.state.rev, act(c, action, draw)),
        act(c, action, draw).updates.len() == 0 ==> act(c, action, draw).core.state == c.state,
{
}

proof fn lemma_react_revs(c: CoreView, event: EventView)
    requires
        c.state.rev <= u64::MAX - 2,
    ensures
        revs_follow(c.state.rev, react(c, event)),
        react(c, event).updates.len() == 0 ==> react(c, event).core.state == c.state,
{
}

/// Every queue item makes at most two updates. Each update carries the
/// revision of the one before it plus one, the first that of the state
/// before the item plus one, and the state ends on the revision of the last.
/// An item without updates leaves the state as it was.
pub proof fn lemma_step_revs(c: CoreView, msg: MsgView, draw: DrawView)
    requires
        c.state.rev <= u64::MAX - 2,
    ensures
        revs_follow(c.state.rev, step(c, msg, draw)),
        step(c, msg, draw).updates.len() == 0 ==> step(c, msg, draw).core.state == c.state,
{
    match msg {
        MsgView::Action(action) => lemma_act_revs(c, action, draw),
        MsgView::Internal(event) => lemma_react_revs(c, event),
    }
}

/// A queue item together with the values drawn for it.
pub struct Input {
    pub msg: MsgView,
    pub draw: DrawView,
}

/// The reducer after a run of queue items.
pub open spec fn run_core(c: CoreView, inputs: Seq<Input>) -> CoreView
    decreases inputs.len(),
{
    if inputs.len() == 0 {
        c
    } else {
        step(run_core(c, inputs.drop_last()), inputs.last().msg, inputs.last().draw).core
    }
}

/// The updates that a run of queue items makes, in order.
pub open spec fn run_updates(c: CoreView, inputs: Seq<Input>) -> Seq<UpdateView>
    decreases inputs.len(),
{
    if inputs.len() == 0 {
        Seq::empty()
    } else {
        run_updates(c, inputs.drop_last()) + step(
            run_core(c, inputs.drop_last()),
            inputs.last().msg,
            inputs.last().draw,
        ).updates
    }
}

/// Whether the reducer can take the whole run: before each item the revision
/// leaves room for its updates, which is what [`crate::reducer::AppCore::step`]
/// asks of its caller.
pub open spec fn run_allowed(c: CoreView, inputs: Seq<Input>) -> bool
    decreases inputs.len(),
{
    if inputs.len() == 0 {
        true
    } else {
        run_allowed(c, inputs.drop_last()) && run_core(c, inputs.drop_last()).state.rev
            <= u64::MAX - 2
    }
}

/// What a listener receives that is attached when the reducer stands at `c`
/// and then follows a run: the whole state first, then every update of the
/// run.
pub open spec fn listener_stream(c: CoreView, inputs: Seq<Input>) -> Seq<UpdateView> {
    seq![UpdateView::FullState(c.state)] + run_updates(c, inputs)
}

/// Over every run of queue items that the reducer can take, the revisions
/// that one listener receives go up by exactly one from each update to the
/// next, whatever the kinds of the updates, starting at the revision of the
/// state it was attached to; and the state ends on the last of them.
pub proof fn lemma_listener_revs(c: CoreView, inputs: Seq<Input>)
    requires
        run_allowed(c, inputs),
    ensures
        run_updates(c, inputs).len() <= 2 * inputs.len(),
        run_core(c, inputs).state.rev == c.state.rev + run_updates(c, inputs).len(),
        forall|i: int|
            0 <= i < listener_stream(c, inputs).len() ==> update_rev(
                #[trigger] listener_stream(c, inputs)[i],
            ) == c.state.rev + i,
        forall|i: int|
            0 <= i < listener_stream(c, inputs).len() - 1 ==> update_rev(
                listener_stream(c, inputs)[i + 1],
            ) == update_rev(#[trigger] listener_stream(c, inputs)[i]) + 1,
    decreases inputs.len(),
{
    if inputs.len() > 0 {
        let before = inputs.drop_last();
        lemma_listener_revs(c, before);
        let mid = run_core(c, before);
        lemma_step_revs(mid, inputs.last().msg, inputs.last().draw);
        let r = step(mid, inputs.last().msg, inputs.last().draw);
        let earlier = listener_stream(c, before);
        let all = listener_stream(c, inputs);
        assert(all =~= earlier + r.updates);
        assert forall|i: int| 0 <= i < all.len() implies update_rev(#[trigger] all[i])
            == c.state.rev + i by {
            if i < earlier.len() {
                assert(all[i] == earlier[i]);
            } else {
                assert(all[i] == r.updates[i - earlier.len()]);
            }
        }
    }
}

/// A run is one that the reducer can take whenever the revision leaves room
/// for two updates an item.
pub proof fn lemma_short_run_allowed(c: CoreView, inputs: Seq<Input>)
    requires
        c.state.rev + 2 * inputs.len() <= u64::MAX,
    ensures
        run_allowed(c, inputs),
    decreases inputs.len(),
{
    if inputs.len() > 0 {
        let before = inputs.drop_last();
        lemma_short_run_allowed(c, before);
        lemma_listener_revs(c, before);
    }
}

/// Signing out leaves nobody signed in, the login screen with nothing pushed
/// over it, no chats listed and no chat open, whatever the state was.
pub proof fn lemma_logout_resets(c: CoreView, draw: DrawView)
    ensures
        ({
            let after = act(c, ActionView::Logout, draw).core;
            &&& after.state.auth == AuthView::LoggedOut
            &&& after.state.router.default_screen == ScreenView::Login
            &&& after.state.router.screen_stack.len() == 0
            &&& after.state.chat_list.len() == 0
            &&& after.state.current_chat is None
            &&& after.session is None
            &&& after.pending is None
        }),
{
}

/// Replacing the stack wins over what was pushed before: after a push and a
/// replacement the stack is the replacement.
pub proof fn lemma_replacement_wins(
    c: CoreView,
    screen: ScreenView,
    stack: Seq<ScreenView>,
    draw: DrawView,
)
    ensures
        ({
            let pushed = act(c, ActionView::PushScreen { screen }, draw).core;
            let replaced = act(pushed, ActionView::UpdateScreenStack { stack }, draw).core;
            &&& pushed.state.router.screen_stack == c.state.router.screen_stack.push(screen)
            &&& replaced.state.router.screen_stack == stack
            &&& replaced.state.router.default_screen == c.state.router.default_screen
        }),
{
}

/// Making an account from a signed-out reducer: the command asks for the
/// store of the new identity and changes nothing yet. Once the store is
/// open, the identity is signed in, the chat list is the default screen, and
/// the listeners get the secret key in one update, followed by the whole
/// state. The secret key is the one of the identity that is signed in, so
/// that it restores this session later: see [`lemma_restore_recovers`].
pub proof fn lemma_account_created(c: CoreView, draw: DrawView, rows: Seq<StoredChatView>)
    requires
        c.session is None,
        c.pending is None,
        c.state.rev <= u64::MAX - 2,
        secret_identity(draw.secret) is Some,
    ensures
        ({
            let id = secret_identity(draw.secret)->0;
            let asked = act(c, ActionView::CreateAccount, draw);
            let opened = react(
                asked.core,
                EventView::IdentityStoreOpened { pubkey: id.pubkey, opened: Ok(rows) },
            );
            &&& asked.core.state == c.state
            &&& asked.updates.len() == 0
            &&& asked.effects == seq![EffectView::OpenIdentityStore { pubkey: id.pubkey }]
            &&& opened.core.state.auth == AuthView::LoggedIn { npub: id.npub, pubkey: id.pubkey }
            &&& opened.core.state.router.default_screen == ScreenView::ChatList
            &&& opened.core.state.router.screen_stack.len() == 0
            &&& opened.updates == seq![
                UpdateView::AccountCreated {
                    rev: (c.state.rev + 1) as u64,
                    nsec: draw.secret,
                    pubkey: id.pubkey,
                    npub: id.npub,
                },
                UpdateView::FullState(opened.core.state),
            ]
            &&& opened.core.session is Some
            &&& secret_identity(draw.secret) == Some(opened.core.session->0.identity)
        }),
{
}

/// The secret key of an identity signs that identity in again: restoring a
/// session with it on a signed-out reducer, on the chats that the identity
/// had stored, brings back the identity, its store and its chat list.
pub proof fn lemma_restore_recovers(c: CoreView, before: CoreView, secret: Seq<char>, draw: DrawView)
    requires
        core_ok(before),
        before.session is Some,
        secret_identity(secret) == Some(before.session->0.identity),
        c.session is None,
        c.pending is None,
    ensures
        ({
            let s = before.session->0;
            let asked = act(c, ActionView::RestoreSession { nsec: secret }, draw);
            let opened = react(
                asked.core,
                EventView::IdentityStoreOpened { pubkey: s.identity.pubkey, opened: Ok(s.store) },
            );
            &&& asked.effects == seq![EffectView::OpenIdentityStore { pubkey: s.identity.pubkey }]
            &&& opened.core.session == before.session
            &&& opened.core.state.auth == before.state.auth
            &&& opened.core.state.chat_list == before.state.chat_list
            &&& opened.updates.len() == 1
            &&& opened.updates[0] == UpdateView::FullState(opened.core.state)
        }),
{
    lemma_store_of_same(before.session->0.store);
}

/// The message that a send makes from the values drawn for it.
pub open spec fn sent_message(
    c: CoreView,
    content: Seq<char>,
    draw: DrawView,
) -> ChatMessageView {
    ChatMessageView {
        id: crate::ids::id_text(crate::model::message_id_prefix(), draw.id_bytes),
        sender_pubkey: c.session->0.identity.pubkey,
        content,
        timestamp: draw.now,
        is_mine: true,
        delivery: DeliveryView::Pending,
    }
}

proof fn lemma_taken_into_open_chat(
    c: CoreView,
    chat_id: Seq<char>,
    m: ChatMessageView,
    row: ChatSummaryView,
    more: Seq<EffectView>,
)
    requires
        core_ok(c),
        c.session is Some,
        has_chat(c.session->0.store, chat_id),
        row.chat_id == chat_id,
        is_open(c.state, chat_id),
        !has_message(messages_of(c.session->0.store, chat_id), m.id),
        more.len() > 0,
    ensures
        ({
            let taken = take_message(c, c.session->0, chat_id, m, row, more);
            &&& taken.core.session is Some
            &&& is_open(taken.core.state, chat_id)
            &&& taken.core.state.current_chat->0.messages == c.state.current_chat->0.messages.push(
                m,
            )
            &&& has_message(taken.core.state.current_chat->0.messages, m.id)
            &&& has_message(messages_of(taken.core.session->0.store, chat_id), m.id)
            &&& taken.effects.last() == more.last()
        }),
{
    let s = c.session->0;
    let inserted = store_insert(s.store, chat_id, m);
    assert(has_message(messages_of(inserted, chat_id), m.id)) by {
        lemma_store_insert_ok(s.store, chat_id, m);
        crate::history::lemma_history_insert_ok(messages_of(s.store, chat_id), m);
    }
    assert(store_ok(inserted)) by {
        lemma_store_insert_ok(s.store, chat_id, m);
    }
    assert(messages_of(crate::chat_store::store_upsert(inserted, row), chat_id) == messages_of(
        inserted,
        chat_id,
    )) by {
        lemma_store_upsert_ok(inserted, row);
    }
    let shown = c.state.current_chat->0.messages.push(m);
    assert(shown[shown.len() - 1].id == m.id);
}

/// A text sent into the open chat is shown at once: the window grows at its
/// end by the new message, which is pending, and the store holds it under
/// the same id.
pub proof fn lemma_sent_shows_pending(
    c: CoreView,
    chat_id: Seq<char>,
    content: Seq<char>,
    draw: DrawView,
)
    requires
        core_ok(c),
        c.session is Some,
        has_chat(c.session->0.store, chat_id),
        is_open(c.state, chat_id),
        !has_message(messages_of(c.session->0.store, chat_id), sent_message(c, content, draw).id),
    ensures
        ({
            let m = sent_message(c, content, draw);
            let sent = act(c, ActionView::SendMessage { chat_id, content }, draw);
            &&& sent.core.session is Some
            &&& is_open(sent.core.state, chat_id)
            &&& sent.core.state.current_chat->0.messages == c.state.current_chat->0.messages.push(m)
            &&& has_message(sent.core.state.current_chat->0.messages, m.id)
            &&& has_message(messages_of(sent.core.session->0.store, chat_id), m.id)
            &&& sent.effects.last() == EffectView::PublishMessage {
                chat_id,
                rumor_id: m.id,
                content,
            }
        }),
{
    let s = c.session->0;
    let m = sent_message(c, content, draw);
    let k = crate::chat_store::chat_index(s.store, chat_id);
    assert(s.store[k].summary.chat_id == chat_id);
    let summary = summary_of(s.store, chat_id)->0;
    let row = ChatSummaryView {
        last_message: Some(content),
        last_message_at: Some(draw.now),
        ..summary
    };
    let publish = seq![EffectView::PublishMessage { chat_id, rumor_id: m.id, content }];
    assert(act(c, ActionView::SendMessage { chat_id, content }, draw) == take_message(
        c,
        s,
        chat_id,
        m,
        row,
        publish,
    ));
    lemma_taken_into_open_chat(c, chat_id, m, row, publish);
}

/// When the result of publishing a message comes in while its chat is open
/// and the message is loaded, every message of the window with that id shows
/// the result, sent on success and failed with the reason otherwise, and
/// nothing else in the window changes.
pub proof fn lemma_result_settles(
    c: CoreView,
    chat_id: Seq<char>,
    rumor_id: Seq<char>,
    ok: bool,
    error: Option<Seq<char>>,
)
    requires
        c.session is Some,
        is_open(c.state, chat_id),
        has_message(messages_of(c.session->0.store, chat_id), rumor_id),
        has_message(c.state.current_chat->0.messages, rumor_id),
    ensures
        ({
            let shown = c.state.current_chat->0.messages;
            let done = react(
                c,
                EventView::PublishMessageResult { chat_id, rumor_id, ok, error },
            );
            let settled = done.core.state.current_chat->0.messages;
            &&& done.core.state.current_chat is Some
            &&& settled.len() == shown.len()
            &&& forall|i: int|
                0 <= i < shown.len() ==> #[trigger] settled[i] == if shown[i].id == rumor_id {
                    with_delivery(shown[i], delivery_of(ok, error))
                } else {
                    shown[i]
                }
            &&& ok ==> delivery_of(ok, error) == DeliveryView::Sent
        }),
{
}

/// A chat opens on the newest end of its history: on the default page of
/// messages, or on all of them where there are fewer; and older messages are
/// offered exactly when the history is longer than the page.
pub proof fn lemma_opens_on_newest(summary: ChatSummaryView, history: Seq<ChatMessageView>)
    requires
        history_ok(history),
    ensures
        ({
            let w = fresh_window(summary, history);
            &&& is_tail(history, w.messages)
            &&& w.messages.len() == if history.len() > DEFAULT_PAGE_SIZE {
                DEFAULT_PAGE_SIZE as int
            } else {
                history.len() as int
            }
            &&& w.can_load_older == (history.len() > DEFAULT_PAGE_SIZE)
        }),
{
    lemma_newest_is_tail(history, DEFAULT_PAGE_SIZE as nat);
    let w = fresh_window(summary, history);
    if w.messages.len() > 0 {
        lemma_page_before_tail(history, w.messages, 0);
    }
}

/// Loading older messages from the oldest loaded one, into a window that is
/// the newest end of the history: the window grows at its front by `limit`
/// messages, or by all that are left, and stays the newest end. Older
/// messages are still offered exactly when some were loaded and the history
/// is longer than the new window.
pub proof fn lemma_page_grows_window(
    w: ChatWindowView,
    history: Seq<ChatMessageView>,
    limit: u32,
)
    requires
        history_ok(history),
        is_tail(history, w.messages),
        w.messages.len() > 0,
    ensures
        ({
            let page = crate::history::older_than(history, w.messages[0].id, limit as nat);
            let grown = window_with_page(w, history, page);
            let left = history.len() - w.messages.len();
            &&& is_tail(history, grown.messages)
            &&& grown.messages.len() == if left > limit {
                w.messages.len() + limit
            } else {
                history.len() as int
            }
            &&& grown.can_load_older == (limit > 0 && left > limit)
        }),
{
    lemma_page_before_tail(history, w.messages, limit as nat);
    let page = crate::history::older_than(history, w.messages[0].id, limit as nat);
    if page.len() == 0 {
        assert(page + w.messages =~= w.messages);
    }
}

/// Once the open chat offers no older messages, loading older ones does
/// nothing, whatever the cursor and the limit: no change and no update.
pub proof fn lemma_exhausted_stays(
    c: CoreView,
    chat_id: Seq<char>,
    before: Seq<char>,
    limit: u32,
    draw: DrawView,
)
    requires
        c.session is Some,
        is_open(c.state, chat_id),
        !c.state.current_chat->0.can_load_older,
    ensures
        act(
            c,
            ActionView::LoadOlderMessages { chat_id, before_message_id: before, limit },
            draw,
        ) == unchanged(c),
{
}

/// With the network off, a text sent into the open chat ends as sent: the
/// answer that stands in for the relay names the message by its id, and with
/// it the message in the window shows as sent.
pub proof fn lemma_offline_send_is_sent(
    c: CoreView,
    chat_id: Seq<char>,
    content: Seq<char>,
    draw: DrawView,
)
    requires
        core_ok(c),
        c.session is Some,
        has_chat(c.session->0.store, chat_id),
        is_open(c.state, chat_id),
        !has_message(messages_of(c.session->0.store, chat_id), sent_message(c, content, draw).id),
    ensures
        ({
            let sent = act(c, ActionView::SendMessage { chat_id, content }, draw);
            let answer = crate::offline::offline_reply_of(sent.effects.last());
            let done = react(sent.core, answer->0);
            let settled = done.core.state.current_chat->0.messages;
            &&& answer is Some
            &&& done.core.state.current_chat is Some
            &&& settled.len() == c.state.current_chat->0.messages.len() + 1
            &&& settled.last() == with_delivery(
                sent_message(c, content, draw),
                DeliveryView::Sent,
            )
        }),
{
    lemma_sent_shows_pending(c, chat_id, content, draw);
    let m = sent_message(c, content, draw);
    let sent = act(c, ActionView::SendMessage { chat_id, content }, draw);
    lemma_result_settles(sent.core, chat_id, m.id, true, None);
    let shown = sent.core.state.current_chat->0.messages;
    assert(shown.last() == m);
}

} // verus!
