use pika_core::{
    stable_hash, AppAction, AppCore, AppUpdate, AuthState, ChatMessage, ChatSummary, CoreMsg,
    Draw, Effect, GroupInvite, Identity, InboundMessage, InternalEvent, MessageDeliveryState,
    Screen, StepOutput, StoredChat,
};

// A key pair from the examples of the protocol's key encoding.
const NSEC: &str = "nsec1vl029mgpspedva04g90vltkh6fvh240zqtv9k0t9af8935ke9laqsnlfe5";
const SECRET_HEX: &str = "67dea2ed018072d675f5415ecfaed7d2597555e202d85b3d65ea4e58d2d92ffa";
const NPUB: &str = "npub10elfcs4fr0l0r8af98jlmgdh9c8tcxjvz9qkw038js35mp4dma8qzvjptg";
const PUBKEY: &str = "7e7e9c42a91bfef19fa929e5fda1b72e0ebc1a4c1141673e2794234d86addf4e";

// The same for a peer: the generator point times three.
const PEER_PUBKEY: &str = "f9308a019258c31049344f85f89d5229b531c845836f99b08601f113bce036f9";

fn draw(now: i64, id_byte: u8) -> Draw {
    Draw { now, id_bytes: vec![id_byte; 16], secret: String::new() }
}

fn act(core: &mut AppCore, action: AppAction, d: &Draw) -> StepOutput {
    core.step(CoreMsg::Action(action), d)
}

fn react(core: &mut AppCore, event: InternalEvent) -> StepOutput {
    core.step(CoreMsg::Internal(Box::new(event)), &draw(0, 0))
}

fn toast_of(out: &StepOutput) -> Option<String> {
    match out.updates.as_slice() {
        [AppUpdate::ToastChanged { toast, .. }] => toast.clone(),
        _ => None,
    }
}

/// A reducer signed in with the example key, on the given stored chats.
fn signed_in(rows: Vec<StoredChat>) -> AppCore {
    let mut core = AppCore::new();
    let out = act(&mut core, AppAction::RestoreSession { nsec: NSEC.into() }, &draw(0, 0));
    assert_eq!(out.effects, vec![Effect::OpenIdentityStore { pubkey: PUBKEY.into() }]);
    react(
        &mut core,
        InternalEvent::IdentityStoreOpened { pubkey: PUBKEY.into(), opened: Ok(rows) },
    );
    core
}

fn summary(chat_id: &str) -> ChatSummary {
    ChatSummary {
        chat_id: chat_id.into(),
        peer_npub: "npub1peer".into(),
        peer_name: Some("Peer".into()),
        last_message: None,
        last_message_at: None,
        unread_count: 0,
    }
}

fn message(id: &str, timestamp: i64) -> ChatMessage {
    ChatMessage {
        id: id.into(),
        sender_pubkey: "sender".into(),
        content: format!("text of {id}"),
        timestamp,
        is_mine: false,
        delivery: MessageDeliveryState::Sent,
    }
}

fn peer() -> Identity {
    Identity { pubkey: PEER_PUBKEY.into(), npub: "npub1peer".into() }
}

#[test]
fn fresh_reducer_is_signed_out_at_revision_zero() {
    let core = AppCore::new();
    let s = core.state();
    assert_eq!(s.rev, 0);
    assert_eq!(core.rev(), 0);
    assert!(core.has_headroom());
    assert_eq!(s.auth, AuthState::LoggedOut);
    assert_eq!(s.router.default_screen, Screen::Login);
    assert!(s.router.screen_stack.is_empty());
    assert!(s.chat_list.is_empty());
    assert!(s.current_chat.is_none());
    assert!(s.toast.is_none());
    assert_eq!(core.attach(), AppUpdate::FullState(s));
    assert!(core.stored_chats().is_empty());
}

#[test]
fn restore_session_derives_the_identity_of_the_secret() {
    let core = signed_in(vec![]);
    assert_eq!(
        core.state().auth,
        AuthState::LoggedIn { npub: NPUB.into(), pubkey: PUBKEY.into() }
    );
    assert_eq!(core.state().router.default_screen, Screen::ChatList);
    assert_eq!(core.state().rev, 1);
}

#[test]
fn restore_session_reads_a_secret_in_hexadecimal_too() {
    let mut core = AppCore::new();
    let out = act(&mut core, AppAction::RestoreSession { nsec: SECRET_HEX.into() }, &draw(0, 0));
    assert_eq!(out.effects, vec![Effect::OpenIdentityStore { pubkey: PUBKEY.into() }]);
    assert!(out.updates.is_empty());
    assert_eq!(core.state().rev, 0);
}

#[test]
fn restore_session_with_a_bad_secret_gives_a_notice() {
    let mut core = AppCore::new();
    let out = act(&mut core, AppAction::RestoreSession { nsec: "nonsense".into() }, &draw(0, 0));
    assert_eq!(toast_of(&out).as_deref(), Some("Invalid secret key"));
    assert!(out.effects.is_empty());
    let s = core.state();
    assert_eq!(s.auth, AuthState::LoggedOut);
    assert_eq!(s.toast.as_deref(), Some("Invalid secret key"));
    assert_eq!(s.rev, 1);
}

#[test]
fn create_account_announces_the_secret_then_the_state() {
    let mut core = AppCore::new();
    let d = Draw { now: 0, id_bytes: vec![0; 16], secret: NSEC.into() };
    let asked = act(&mut core, AppAction::CreateAccount, &d);
    assert!(asked.updates.is_empty());
    assert_eq!(asked.effects, vec![Effect::OpenIdentityStore { pubkey: PUBKEY.into() }]);
    assert_eq!(core.state().auth, AuthState::LoggedOut);

    let opened = react(
        &mut core,
        InternalEvent::IdentityStoreOpened { pubkey: PUBKEY.into(), opened: Ok(vec![]) },
    );
    let s = core.state();
    assert_eq!(s.rev, 2);
    assert_eq!(s.auth, AuthState::LoggedIn { npub: NPUB.into(), pubkey: PUBKEY.into() });
    assert_eq!(s.router.default_screen, Screen::ChatList);
    assert_eq!(
        opened.updates,
        vec![
            AppUpdate::AccountCreated {
                rev: 1,
                nsec: NSEC.into(),
                pubkey: PUBKEY.into(),
                npub: NPUB.into(),
            },
            AppUpdate::FullState(s),
        ]
    );
    assert_eq!(opened.effects, vec![Effect::PublishKeyPackage]);
}

#[test]
fn handle_draws_a_secret_that_restores_the_same_identity() {
    let mut core = AppCore::new();
    let asked = core.handle(CoreMsg::Action(AppAction::CreateAccount));
    let pubkey = match asked.effects.as_slice() {
        [Effect::OpenIdentityStore { pubkey }] => pubkey.clone(),
        other => panic!("unexpected effects {other:?}"),
    };
    assert_eq!(pubkey.len(), 64);
    let opened = react(
        &mut core,
        InternalEvent::IdentityStoreOpened { pubkey: pubkey.clone(), opened: Ok(vec![]) },
    );
    let nsec = match &opened.updates[0] {
        AppUpdate::AccountCreated { nsec, .. } => nsec.clone(),
        other => panic!("unexpected update {other:?}"),
    };
    assert!(nsec.starts_with("nsec1"));

    let mut second = AppCore::new();
    let again = act(&mut second, AppAction::RestoreSession { nsec }, &draw(0, 0));
    assert_eq!(again.effects, vec![Effect::OpenIdentityStore { pubkey }]);
}

#[test]
fn store_open_failure_gives_up_the_sign_in_with_a_notice() {
    let mut core = AppCore::new();
    act(&mut core, AppAction::RestoreSession { nsec: NSEC.into() }, &draw(0, 0));
    let out = react(
        &mut core,
        InternalEvent::IdentityStoreOpened {
            pubkey: PUBKEY.into(),
            opened: Err("disk is full".into()),
        },
    );
    assert_eq!(toast_of(&out).as_deref(), Some("disk is full"));
    assert_eq!(core.state().auth, AuthState::LoggedOut);
    assert_eq!(core.state().router.default_screen, Screen::Login);

    // The sign-in no longer waits: a late answer is ignored, a new one can begin.
    let late = react(
        &mut core,
        InternalEvent::IdentityStoreOpened { pubkey: PUBKEY.into(), opened: Ok(vec![]) },
    );
    assert!(late.updates.is_empty());
    assert_eq!(core.state().auth, AuthState::LoggedOut);
    let again = act(&mut core, AppAction::RestoreSession { nsec: NSEC.into() }, &draw(0, 0));
    assert_eq!(again.effects.len(), 1);
}

#[test]
fn store_opened_for_another_identity_is_ignored() {
    let mut core = AppCore::new();
    act(&mut core, AppAction::RestoreSession { nsec: NSEC.into() }, &draw(0, 0));
    let out = react(
        &mut core,
        InternalEvent::IdentityStoreOpened { pubkey: PEER_PUBKEY.into(), opened: Ok(vec![]) },
    );
    assert!(out.updates.is_empty());
    assert!(out.effects.is_empty());
    assert_eq!(core.state().auth, AuthState::LoggedOut);
    assert_eq!(core.state().rev, 0);
}

#[test]
fn second_sign_in_is_refused_while_one_waits_or_is_in_place() {
    let mut core = AppCore::new();
    act(&mut core, AppAction::RestoreSession { nsec: NSEC.into() }, &draw(0, 0));
    let waiting = act(&mut core, AppAction::RestoreSession { nsec: NSEC.into() }, &draw(0, 0));
    assert_eq!(toast_of(&waiting).as_deref(), Some("Sign-in already in progress"));

    let mut core = signed_in(vec![]);
    let d = Draw { now: 0, id_bytes: vec![], secret: NSEC.into() };
    let there = act(&mut core, AppAction::CreateAccount, &d);
    assert_eq!(toast_of(&there).as_deref(), Some("Already signed in"));
    assert!(there.effects.is_empty());
}

#[test]
fn push_appends_and_replacement_wins() {
    let mut core = AppCore::new();
    let d = draw(0, 0);
    act(&mut core, AppAction::PushScreen { screen: Screen::NewChat }, &d);
    let out = act(
        &mut core,
        AppAction::PushScreen { screen: Screen::Chat { chat_id: "c1".into() } },
        &d,
    );
    let stack = vec![Screen::NewChat, Screen::Chat { chat_id: "c1".into() }];
    assert_eq!(core.state().router.screen_stack, stack);
    assert_eq!(
        out.updates,
        vec![AppUpdate::RouterChanged { rev: 2, router: core.state().router }]
    );

    let replaced = act(
        &mut core,
        AppAction::UpdateScreenStack { stack: vec![Screen::ChatList] },
        &d,
    );
    assert_eq!(core.state().router.screen_stack, vec![Screen::ChatList]);
    assert_eq!(core.state().router.default_screen, Screen::Login);
    assert_eq!(replaced.updates.len(), 1);
    assert_eq!(replaced.updates[0].rev(), 3);
}

#[test]
fn logout_keeps_the_revision_counting_and_closes_the_store() {
    let mut core = signed_in(vec![StoredChat { summary: summary("c1"), messages: vec![] }]);
    act(&mut core, AppAction::OpenChat { chat_id: "c1".into() }, &draw(0, 0));
    act(&mut core, AppAction::PushScreen { screen: Screen::NewChat }, &draw(0, 0));
    let rev = core.state().rev;
    let out = act(&mut core, AppAction::Logout, &draw(0, 0));
    let s = core.state();
    assert_eq!(s.rev, rev + 1);
    assert_eq!(s.auth, AuthState::LoggedOut);
    assert_eq!(s.router.default_screen, Screen::Login);
    assert!(s.router.screen_stack.is_empty());
    assert!(s.chat_list.is_empty());
    assert!(s.current_chat.is_none());
    assert_eq!(out.updates, vec![AppUpdate::FullState(s)]);
    assert_eq!(out.effects, vec![Effect::CloseIdentityStore]);
    assert!(core.stored_chats().is_empty());

    // Signing out while signed out still announces the state, and closes nothing.
    let again = act(&mut core, AppAction::Logout, &draw(0, 0));
    assert_eq!(again.updates.len(), 1);
    assert!(again.effects.is_empty());
}

#[test]
fn chat_with_oneself_is_made_at_once_under_a_stable_id() {
    let mut core = signed_in(vec![]);
    let out = act(&mut core, AppAction::CreateChat { peer_npub: NPUB.into() }, &draw(0, 0));
    let expected = ChatSummary {
        chat_id: stable_hash(PUBKEY),
        peer_npub: NPUB.into(),
        peer_name: None,
        last_message: None,
        last_message_at: None,
        unread_count: 0,
    };
    assert_eq!(core.state().chat_list, vec![expected.clone()]);
    assert_eq!(
        out.updates,
        vec![AppUpdate::ChatListChanged { rev: 2, chat_list: vec![expected.clone()] }]
    );
    assert_eq!(out.effects, vec![Effect::SaveChat { summary: expected }]);

    // The key in hexadecimal names the same peer; the chat is there already.
    let again = act(&mut core, AppAction::CreateChat { peer_npub: PUBKEY.into() }, &draw(0, 0));
    assert!(again.updates.is_empty());
    assert!(again.effects.is_empty());
    assert_eq!(core.state().chat_list.len(), 1);
    assert_eq!(core.state().rev, 2);
}

#[test]
fn chat_with_a_peer_asks_for_the_key_package_first() {
    let mut core = signed_in(vec![]);
    let out = act(&mut core, AppAction::CreateChat { peer_npub: PEER_PUBKEY.into() }, &draw(0, 0));
    assert!(out.updates.is_empty());
    let asked = match out.effects.as_slice() {
        [Effect::FetchKeyPackage { peer }] => peer.clone(),
        other => panic!("unexpected effects {other:?}"),
    };
    assert_eq!(asked.pubkey, PEER_PUBKEY);
    assert!(asked.npub.starts_with("npub1"));
    assert!(core.state().chat_list.is_empty());
    assert_eq!(core.state().rev, 1);

    // The npub that was written out names the same peer.
    let by_npub = act(&mut core, AppAction::CreateChat { peer_npub: asked.npub.clone() }, &draw(0, 0));
    assert_eq!(by_npub.effects, vec![Effect::FetchKeyPackage { peer: asked.clone() }]);

    let found = react(
        &mut core,
        InternalEvent::PeerKeyPackageFetched {
            peer: asked.clone(),
            key_package_event: Some("{\"kind\":443}".into()),
            error: None,
        },
    );
    assert!(found.updates.is_empty());
    assert_eq!(
        found.effects,
        vec![Effect::CreateGroup { peer: asked.clone(), key_package_event: "{\"kind\":443}".into() }]
    );

    let made = react(
        &mut core,
        InternalEvent::GroupCreated { peer: asked.clone(), created: Ok("group-1".into()) },
    );
    let row = ChatSummary {
        chat_id: "group-1".into(),
        peer_npub: asked.npub.clone(),
        peer_name: None,
        last_message: None,
        last_message_at: None,
        unread_count: 0,
    };
    assert_eq!(core.state().chat_list, vec![row.clone()]);
    assert_eq!(
        made.updates,
        vec![AppUpdate::ChatListChanged { rev: 2, chat_list: vec![row.clone()] }]
    );
    assert_eq!(made.effects, vec![Effect::SaveChat { summary: row }]);
}

#[test]
fn create_chat_refusals() {
    let mut core = AppCore::new();
    let out = act(&mut core, AppAction::CreateChat { peer_npub: NPUB.into() }, &draw(0, 0));
    assert_eq!(toast_of(&out).as_deref(), Some("Not signed in"));

    let mut core = signed_in(vec![]);
    let out = act(&mut core, AppAction::CreateChat { peer_npub: "npub1nonsense".into() }, &draw(0, 0));
    assert_eq!(toast_of(&out).as_deref(), Some("Invalid peer public key"));
    assert!(core.state().chat_list.is_empty());
}

#[test]
fn failed_key_package_search_gives_a_notice_and_no_chat() {
    let mut core = signed_in(vec![]);
    let failed = react(
        &mut core,
        InternalEvent::PeerKeyPackageFetched {
            peer: peer(),
            key_package_event: Some("{}".into()),
            error: Some("relay timed out".into()),
        },
    );
    assert_eq!(toast_of(&failed).as_deref(), Some("relay timed out"));
    assert!(failed.effects.is_empty());

    let absent = react(
        &mut core,
        InternalEvent::PeerKeyPackageFetched { peer: peer(), key_package_event: None, error: None },
    );
    assert_eq!(toast_of(&absent).as_deref(), Some("No key package found for this peer"));
    assert!(absent.effects.is_empty());

    let no_group = react(
        &mut core,
        InternalEvent::GroupCreated { peer: peer(), created: Err("welcome refused".into()) },
    );
    assert_eq!(toast_of(&no_group).as_deref(), Some("welcome refused"));
    assert!(core.state().chat_list.is_empty());
}

#[test]
fn open_chat_of_an_unknown_chat_gives_a_notice() {
    let mut core = signed_in(vec![]);
    let out = act(&mut core, AppAction::OpenChat { chat_id: "nope".into() }, &draw(0, 0));
    assert_eq!(toast_of(&out).as_deref(), Some("Chat not found"));
    assert!(core.state().current_chat.is_none());

    let mut core = AppCore::new();
    let out = act(&mut core, AppAction::OpenChat { chat_id: "nope".into() }, &draw(0, 0));
    assert_eq!(toast_of(&out).as_deref(), Some("Not signed in"));
}

#[test]
fn open_chat_shows_the_newest_messages_with_the_summary() {
    let rows = vec![StoredChat {
        summary: summary("c1"),
        messages: vec![message("b", 20), message("a", 10), message("c", 20)],
    }];
    let mut core = signed_in(rows);
    let out = act(&mut core, AppAction::OpenChat { chat_id: "c1".into() }, &draw(0, 0));
    let chat = core.state().current_chat.unwrap();
    assert_eq!(chat.chat_id, "c1");
    assert_eq!(chat.peer_npub, "npub1peer");
    assert_eq!(chat.peer_name.as_deref(), Some("Peer"));
    assert_eq!(chat.messages, vec![message("a", 10), message("b", 20), message("c", 20)]);
    assert!(!chat.can_load_older);
    assert_eq!(
        out.updates,
        vec![AppUpdate::CurrentChatChanged { rev: 2, current_chat: Some(chat) }]
    );
    assert!(out.effects.is_empty());
}

#[test]
fn send_message_makes_the_id_from_the_drawn_bytes() {
    let mut core = signed_in(vec![StoredChat { summary: summary("c1"), messages: vec![] }]);
    act(&mut core, AppAction::OpenChat { chat_id: "c1".into() }, &draw(0, 0));
    let d = Draw {
        now: 1_700_000_000,
        id_bytes: vec![0x00, 0x01, 0x0f, 0x10, 0xab, 0xff],
        secret: String::new(),
    };
    let out = act(
        &mut core,
        AppAction::SendMessage { chat_id: "c1".into(), content: "hello".into() },
        &d,
    );
    let sent = ChatMessage {
        id: "msg_00010f10abff".into(),
        sender_pubkey: PUBKEY.into(),
        content: "hello".into(),
        timestamp: 1_700_000_000,
        is_mine: true,
        delivery: MessageDeliveryState::Pending,
    };
    let row = ChatSummary {
        last_message: Some("hello".into()),
        last_message_at: Some(1_700_000_000),
        ..summary("c1")
    };
    let s = core.state();
    assert_eq!(s.rev, 4);
    assert_eq!(s.current_chat.as_ref().unwrap().messages, vec![sent.clone()]);
    assert_eq!(s.chat_list, vec![row.clone()]);
    assert_eq!(
        out.updates,
        vec![
            AppUpdate::CurrentChatChanged { rev: 3, current_chat: s.current_chat.clone() },
            AppUpdate::ChatListChanged { rev: 4, chat_list: vec![row.clone()] },
        ]
    );
    assert_eq!(
        out.effects,
        vec![
            Effect::SaveMessage { chat_id: "c1".into(), message: sent.clone() },
            Effect::SaveChat { summary: row },
            Effect::PublishMessage {
                chat_id: "c1".into(),
                rumor_id: "msg_00010f10abff".into(),
                content: "hello".into(),
            },
        ]
    );
    assert_eq!(
        core.stored_chats(),
        vec![StoredChat { summary: s.chat_list[0].clone(), messages: vec![sent] }]
    );
}

#[test]
fn send_message_into_a_closed_chat_touches_the_list_only() {
    let mut core = signed_in(vec![
        StoredChat { summary: summary("c1"), messages: vec![] },
        StoredChat { summary: summary("c2"), messages: vec![] },
    ]);
    act(&mut core, AppAction::OpenChat { chat_id: "c2".into() }, &draw(0, 0));
    let before = core.state().current_chat;
    let out = act(
        &mut core,
        AppAction::SendMessage { chat_id: "c1".into(), content: "hi".into() },
        &draw(5, 1),
    );
    let s = core.state();
    assert_eq!(s.current_chat, before);
    assert_eq!(s.chat_list[0].last_message.as_deref(), Some("hi"));
    assert_eq!(s.chat_list[0].last_message_at, Some(5));
    assert_eq!(s.chat_list[1], summary("c2"));
    assert_eq!(
        out.updates,
        vec![AppUpdate::ChatListChanged { rev: 3, chat_list: s.chat_list.clone() }]
    );
    assert_eq!(core.stored_chats()[0].messages.len(), 1);
    assert_eq!(core.stored_chats()[0].messages[0].delivery, MessageDeliveryState::Pending);
}

#[test]
fn send_message_refusals() {
    let mut core = AppCore::new();
    let send = AppAction::SendMessage { chat_id: "c1".into(), content: "x".into() };
    assert_eq!(toast_of(&act(&mut core, send, &draw(0, 0))).as_deref(), Some("Not signed in"));

    let mut core = signed_in(vec![StoredChat { summary: summary("c1"), messages: vec![] }]);
    let send = AppAction::SendMessage { chat_id: "c9".into(), content: "x".into() };
    assert_eq!(toast_of(&act(&mut core, send, &draw(0, 0))).as_deref(), Some("Chat not found"));

    // The same id bytes twice: the second message cannot be stored.
    let send = AppAction::SendMessage { chat_id: "c1".into(), content: "x".into() };
    assert_eq!(act(&mut core, send, &draw(0, 7)).updates.len(), 1);
    let send = AppAction::SendMessage { chat_id: "c1".into(), content: "y".into() };
    let out = act(&mut core, send, &draw(1, 7));
    assert_eq!(toast_of(&out).as_deref(), Some("Message could not be stored"));
    assert!(out.effects.is_empty());
    assert_eq!(core.stored_chats()[0].messages.len(), 1);
    assert_eq!(core.state().chat_list[0].last_message.as_deref(), Some("x"));
}

#[test]
fn publish_result_is_matched_by_id() {
    let mut core = signed_in(vec![StoredChat { summary: summary("c1"), messages: vec![] }]);
    act(&mut core, AppAction::OpenChat { chat_id: "c1".into() }, &draw(0, 0));
    for (i, text) in ["one", "two"].iter().enumerate() {
        let send = AppAction::SendMessage { chat_id: "c1".into(), content: text.to_string() };
        act(&mut core, send, &draw(10 + i as i64, i as u8 + 1));
    }
    let first = format!("msg_{}", "01".repeat(16));
    let second = format!("msg_{}", "02".repeat(16));
    let rev = core.state().rev;

    let out = react(
        &mut core,
        InternalEvent::PublishMessageResult {
            chat_id: "c1".into(),
            rumor_id: second.clone(),
            ok: false,
            error: Some("relay refused".into()),
        },
    );
    let failed = MessageDeliveryState::Failed { reason: "relay refused".into() };
    let chat = core.state().current_chat.unwrap();
    assert_eq!(chat.messages[0].id, first);
    assert_eq!(chat.messages[0].delivery, MessageDeliveryState::Pending);
    assert_eq!(chat.messages[1].id, second);
    assert_eq!(chat.messages[1].content, "two");
    assert_eq!(chat.messages[1].delivery, failed);
    assert_eq!(
        out.updates,
        vec![AppUpdate::CurrentChatChanged { rev: rev + 1, current_chat: Some(chat) }]
    );
    assert_eq!(
        out.effects,
        vec![Effect::SaveDelivery {
            chat_id: "c1".into(),
            message_id: second.clone(),
            delivery: failed.clone(),
        }]
    );
    assert_eq!(core.stored_chats()[0].messages[1].delivery, failed);

    let out = react(
        &mut core,
        InternalEvent::PublishMessageResult {
            chat_id: "c1".into(),
            rumor_id: first.clone(),
            ok: true,
            error: None,
        },
    );
    assert_eq!(out.updates.len(), 1);
    let chat = core.state().current_chat.unwrap();
    assert_eq!(chat.messages[0].delivery, MessageDeliveryState::Sent);
    assert_eq!(chat.messages[1].delivery, failed);
}

#[test]
fn publish_failure_without_a_reason_names_one() {
    let mut core = signed_in(vec![StoredChat { summary: summary("c1"), messages: vec![] }]);
    let send = AppAction::SendMessage { chat_id: "c1".into(), content: "x".into() };
    act(&mut core, send, &draw(0, 3));
    react(
        &mut core,
        InternalEvent::PublishMessageResult {
            chat_id: "c1".into(),
            rumor_id: format!("msg_{}", "03".repeat(16)),
            ok: false,
            error: None,
        },
    );
    assert_eq!(
        core.stored_chats()[0].messages[0].delivery,
        MessageDeliveryState::Failed { reason: "Message could not be published".into() }
    );
}

#[test]
fn publish_result_for_a_chat_that_is_no_longer_open_reaches_the_store() {
    let mut core = signed_in(vec![
        StoredChat { summary: summary("c1"), messages: vec![] },
        StoredChat { summary: summary("c2"), messages: vec![] },
    ]);
    act(&mut core, AppAction::OpenChat { chat_id: "c1".into() }, &draw(0, 0));
    let send = AppAction::SendMessage { chat_id: "c1".into(), content: "x".into() };
    act(&mut core, send, &draw(0, 4));
    act(&mut core, AppAction::OpenChat { chat_id: "c2".into() }, &draw(0, 0));
    let before = core.state();

    let id = format!("msg_{}", "04".repeat(16));
    let out = react(
        &mut core,
        InternalEvent::PublishMessageResult {
            chat_id: "c1".into(),
            rumor_id: id.clone(),
            ok: true,
            error: None,
        },
    );
    assert!(out.updates.is_empty());
    assert_eq!(core.state(), before);
    assert_eq!(
        out.effects,
        vec![Effect::SaveDelivery {
            chat_id: "c1".into(),
            message_id: id,
            delivery: MessageDeliveryState::Sent,
        }]
    );
    assert_eq!(core.stored_chats()[0].messages[0].delivery, MessageDeliveryState::Sent);

    // A result for a message that nobody sent changes nothing at all.
    let out = react(
        &mut core,
        InternalEvent::PublishMessageResult {
            chat_id: "c1".into(),
            rumor_id: "msg_unknown".into(),
            ok: true,
            error: None,
        },
    );
    assert!(out.updates.is_empty());
    assert!(out.effects.is_empty());
}

fn inbound(chat_id: &str, id: &str, content: &str, timestamp: i64) -> InternalEvent {
    InternalEvent::GroupMessageReceived {
        message: Some(InboundMessage {
            chat_id: chat_id.into(),
            id: id.into(),
            sender_pubkey: PEER_PUBKEY.into(),
            content: content.into(),
            timestamp,
        }),
    }
}

#[test]
fn inbound_message_counts_as_unread_unless_its_chat_is_open() {
    let mut core = signed_in(vec![
        StoredChat { summary: summary("c1"), messages: vec![] },
        StoredChat { summary: summary("c2"), messages: vec![] },
    ]);
    act(&mut core, AppAction::OpenChat { chat_id: "c1".into() }, &draw(0, 0));
    let rev = core.state().rev;

    let closed = react(&mut core, inbound("c2", "e1", "psst", 100));
    let s = core.state();
    assert_eq!(s.chat_list[1].unread_count, 1);
    assert_eq!(s.chat_list[1].last_message.as_deref(), Some("psst"));
    assert_eq!(s.chat_list[1].last_message_at, Some(100));
    assert!(s.current_chat.as_ref().unwrap().messages.is_empty());
    assert_eq!(
        closed.updates,
        vec![AppUpdate::ChatListChanged { rev: rev + 1, chat_list: s.chat_list.clone() }]
    );
    let stored = ChatMessage {
        id: "e1".into(),
        sender_pubkey: PEER_PUBKEY.into(),
        content: "psst".into(),
        timestamp: 100,
        is_mine: false,
        delivery: MessageDeliveryState::Sent,
    };
    assert_eq!(
        closed.effects,
        vec![
            Effect::SaveMessage { chat_id: "c2".into(), message: stored },
            Effect::SaveChat { summary: s.chat_list[1].clone() },
        ]
    );

    let open = react(&mut core, inbound("c1", "e2", "hey", 101));
    let s = core.state();
    assert_eq!(s.chat_list[0].unread_count, 0);
    assert_eq!(s.chat_list[0].last_message.as_deref(), Some("hey"));
    let window = &s.current_chat.as_ref().unwrap().messages;
    assert_eq!(window.len(), 1);
    assert_eq!(window[0].content, "hey");
    assert!(!window[0].is_mine);
    assert_eq!(window[0].delivery, MessageDeliveryState::Sent);
    assert_eq!(open.updates.len(), 2);
    assert_eq!(open.updates[0].rev(), rev + 2);
    assert_eq!(open.updates[1].rev(), rev + 3);
    assert!(matches!(open.updates[0], AppUpdate::CurrentChatChanged { .. }));
    assert!(matches!(open.updates[1], AppUpdate::ChatListChanged { .. }));
}

#[test]
fn unread_count_stops_at_its_largest_value() {
    let full = ChatSummary { unread_count: u32::MAX, ..summary("c1") };
    let mut core = signed_in(vec![StoredChat { summary: full, messages: vec![] }]);
    react(&mut core, inbound("c1", "e1", "one more", 1));
    assert_eq!(core.state().chat_list[0].unread_count, u32::MAX);
    assert_eq!(core.state().chat_list[0].last_message.as_deref(), Some("one more"));
}

#[test]
fn inbound_messages_that_cannot_be_used_are_dropped() {
    let mut core = signed_in(vec![StoredChat {
        summary: summary("c1"),
        messages: vec![message("e1", 5)],
    }]);
    let before = core.state();
    for event in [
        InternalEvent::GroupMessageReceived { message: None },
        inbound("unknown-chat", "e2", "x", 1),
        inbound("c1", "e1", "again", 9),
        InternalEvent::GiftWrapReceived { invite: None },
    ] {
        let out = react(&mut core, event);
        assert!(out.updates.is_empty());
        assert!(out.effects.is_empty());
    }
    assert_eq!(core.state(), before);
    assert_eq!(core.stored_chats()[0].messages, vec![message("e1", 5)]);

    let mut signed_out = AppCore::new();
    let out = react(&mut signed_out, inbound("c1", "e1", "x", 1));
    assert!(out.updates.is_empty());
    assert_eq!(signed_out.state().rev, 0);
}

#[test]
fn invite_makes_a_new_chat_once() {
    let mut core = signed_in(vec![]);
    let invite = || InternalEvent::GiftWrapReceived {
        invite: Some(GroupInvite {
            chat_id: "g7".into(),
            peer_npub: "npub1friend".into(),
            peer_name: Some("Friend".into()),
        }),
    };
    let out = react(&mut core, invite());
    let row = ChatSummary {
        chat_id: "g7".into(),
        peer_npub: "npub1friend".into(),
        peer_name: Some("Friend".into()),
        last_message: None,
        last_message_at: None,
        unread_count: 0,
    };
    assert_eq!(core.state().chat_list, vec![row.clone()]);
    assert_eq!(out.updates, vec![AppUpdate::ChatListChanged { rev: 2, chat_list: vec![row.clone()] }]);
    assert_eq!(out.effects, vec![Effect::SaveChat { summary: row }]);

    let again = react(&mut core, invite());
    assert!(again.updates.is_empty());
    assert_eq!(core.state().chat_list.len(), 1);
}

#[test]
fn load_older_is_refused_for_a_chat_that_is_not_open() {
    let mut core = signed_in(vec![
        StoredChat { summary: summary("c1"), messages: vec![message("a", 1)] },
        StoredChat { summary: summary("c2"), messages: vec![] },
    ]);
    let load = |chat_id: &str| AppAction::LoadOlderMessages {
        chat_id: chat_id.into(),
        before_message_id: "a".into(),
        limit: 10,
    };
    let out = act(&mut core, load("c1"), &draw(0, 0));
    assert_eq!(toast_of(&out).as_deref(), Some("Chat is not open"));
    act(&mut core, AppAction::OpenChat { chat_id: "c2".into() }, &draw(0, 0));
    let out = act(&mut core, load("c1"), &draw(0, 0));
    assert_eq!(toast_of(&out).as_deref(), Some("Chat is not open"));
    assert_eq!(core.state().current_chat.unwrap().chat_id, "c2");
}

#[test]
fn load_older_pages_back_and_ends_for_good() {
    let messages: Vec<ChatMessage> = (0..60).map(|i| message(&format!("m{i:02}"), i)).collect();
    let mut core = signed_in(vec![StoredChat { summary: summary("c1"), messages }]);
    act(&mut core, AppAction::OpenChat { chat_id: "c1".into() }, &draw(0, 0));
    let chat = core.state().current_chat.unwrap();
    assert_eq!(chat.messages.len(), 50);
    assert_eq!(chat.messages[0].id, "m10");
    assert_eq!(chat.messages[49].id, "m59");
    assert!(chat.can_load_older);

    let load = |before: &str, limit: u32| AppAction::LoadOlderMessages {
        chat_id: "c1".into(),
        before_message_id: before.into(),
        limit,
    };
    act(&mut core, load("m10", 4), &draw(0, 0));
    let chat = core.state().current_chat.unwrap();
    assert_eq!(chat.messages.len(), 54);
    assert_eq!(chat.messages[0].id, "m06");
    assert_eq!(chat.messages[4].id, "m10");
    assert!(chat.can_load_older);

    act(&mut core, load("m06", 6), &draw(0, 0));
    let chat = core.state().current_chat.unwrap();
    assert_eq!(chat.messages.len(), 60);
    assert_eq!(chat.messages[0].id, "m00");
    assert!(!chat.can_load_older);

    // Nothing is left: a later load changes nothing and announces nothing,
    // whatever cursor it names.
    let before = core.state();
    for cursor in ["m00", "m30", "unknown"] {
        let out = act(&mut core, load(cursor, 30), &draw(0, 0));
        assert!(out.updates.is_empty());
        assert!(out.effects.is_empty());
    }
    assert_eq!(core.state(), before);
}

#[test]
fn load_older_with_nothing_to_give_closes_the_history() {
    let messages: Vec<ChatMessage> = (0..60).map(|i| message(&format!("m{i:02}"), i)).collect();
    let mut core = signed_in(vec![StoredChat { summary: summary("c1"), messages }]);
    act(&mut core, AppAction::OpenChat { chat_id: "c1".into() }, &draw(0, 0));
    let rev = core.state().rev;
    let out = act(
        &mut core,
        AppAction::LoadOlderMessages {
            chat_id: "c1".into(),
            before_message_id: "no such message".into(),
            limit: 30,
        },
        &draw(0, 0),
    );
    let chat = core.state().current_chat.unwrap();
    assert_eq!(chat.messages.len(), 50);
    assert!(!chat.can_load_older);
    assert_eq!(
        out.updates,
        vec![AppUpdate::CurrentChatChanged { rev: rev + 1, current_chat: Some(chat) }]
    );
}

#[test]
fn notices_are_shown_and_dismissed() {
    let mut core = AppCore::new();
    let nothing = act(&mut core, AppAction::ClearToast, &draw(0, 0));
    assert!(nothing.updates.is_empty());
    assert_eq!(core.state().rev, 0);

    let shown = react(&mut core, InternalEvent::Toast("look".into()));
    assert_eq!(shown.updates, vec![AppUpdate::ToastChanged { rev: 1, toast: Some("look".into()) }]);
    assert_eq!(core.state().toast.as_deref(), Some("look"));

    let gone = act(&mut core, AppAction::ClearToast, &draw(0, 0));
    assert_eq!(gone.updates, vec![AppUpdate::ToastChanged { rev: 2, toast: None }]);
    assert!(core.state().toast.is_none());
}

#[test]
fn key_package_publication_is_silent_unless_it_fails() {
    let mut core = signed_in(vec![]);
    let ok = react(&mut core, InternalEvent::KeyPackagePublished { ok: true, error: None });
    assert!(ok.updates.is_empty());
    let failed = react(
        &mut core,
        InternalEvent::KeyPackagePublished { ok: false, error: Some("no relay".into()) },
    );
    assert_eq!(toast_of(&failed).as_deref(), Some("no relay"));
    let unnamed = react(&mut core, InternalEvent::KeyPackagePublished { ok: false, error: None });
    assert_eq!(toast_of(&unnamed).as_deref(), Some("Key package could not be published"));
}

#[test]
fn revisions_of_a_run_go_up_by_one() {
    let mut core = AppCore::new();
    let mut stream = vec![core.attach()];
    let d = Draw { now: 3, id_bytes: vec![9; 16], secret: NSEC.into() };
    let items = vec![
        CoreMsg::Action(AppAction::OpenChat { chat_id: "c".into() }),
        CoreMsg::Action(AppAction::CreateAccount),
        CoreMsg::Internal(Box::new(InternalEvent::IdentityStoreOpened {
            pubkey: PUBKEY.into(),
            opened: Ok(vec![]),
        })),
        CoreMsg::Action(AppAction::CreateChat { peer_npub: NPUB.into() }),
        CoreMsg::Action(AppAction::PushScreen { screen: Screen::NewChat }),
        CoreMsg::Internal(Box::new(InternalEvent::KeyPackagePublished { ok: true, error: None })),
        CoreMsg::Action(AppAction::ClearToast),
        CoreMsg::Action(AppAction::Logout),
        CoreMsg::Action(AppAction::Logout),
    ];
    for item in items {
        let before = core.state();
        let out = core.step(item, &d);
        if out.updates.is_empty() {
            assert_eq!(core.state(), before);
        }
        stream.extend(out.updates);
    }
    assert_eq!(stream.len(), 9);
    for (i, update) in stream.iter().enumerate() {
        assert_eq!(update.rev(), i as u64);
    }
    assert_eq!(core.state().rev, 8);
}

#[test]
fn what_was_stored_comes_back_on_restore() {
    let mut core = signed_in(vec![]);
    act(&mut core, AppAction::CreateChat { peer_npub: NPUB.into() }, &draw(0, 0));
    let chat_id = core.state().chat_list[0].chat_id.clone();
    for (i, text) in ["a", "b", "c"].iter().enumerate() {
        let send = AppAction::SendMessage { chat_id: chat_id.clone(), content: text.to_string() };
        act(&mut core, send, &draw(50, i as u8));
    }
    let rows = core.stored_chats();
    let list = core.state().chat_list;

    let restored = signed_in(rows.clone());
    assert_eq!(restored.stored_chats(), rows);
    assert_eq!(restored.state().chat_list, list);
    assert_eq!(restored.state().auth, core.state().auth);
}

#[test]
fn following_is_handed_to_the_outside_and_changes_nothing() {
    let mut core = signed_in(vec![]);
    let before = core.state();
    let out = act(&mut core, AppAction::FollowPeer { npub: PEER_PUBKEY.into() }, &draw(0, 0));
    assert!(out.updates.is_empty());
    let followed = match out.effects.as_slice() {
        [Effect::SetFollow { peer, follow: true }] => peer.clone(),
        other => panic!("unexpected effects {other:?}"),
    };
    assert_eq!(followed.pubkey, PEER_PUBKEY);
    let out = act(&mut core, AppAction::UnfollowPeer { npub: followed.npub.clone() }, &draw(0, 0));
    assert_eq!(out.effects, vec![Effect::SetFollow { peer: followed, follow: false }]);
    assert_eq!(core.state(), before);

    let out = act(&mut core, AppAction::FollowPeer { npub: "someone".into() }, &draw(0, 0));
    assert_eq!(toast_of(&out).as_deref(), Some("Invalid peer public key"));
    let mut signed_out = AppCore::new();
    let out = act(&mut signed_out, AppAction::FollowPeer { npub: NPUB.into() }, &draw(0, 0));
    assert_eq!(toast_of(&out).as_deref(), Some("Not signed in"));
}
