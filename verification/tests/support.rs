use std::cell::Cell;
use std::path::PathBuf;

use pika_core::text::{hex_u64, text_less};
use pika_core::{
    db_key_id, generate_id, id_from_bytes, init_keyring_once, mdk_db_path, now_seconds,
    offline_reply, seconds_from, stable_hash, AppState, AppUpdate, AuthState, Effect, Identity,
    InternalEvent, KeyringInit, KeyringOutcome, Router, Screen, DEFAULT_PAGE_SIZE, SERVICE_ID,
};

#[test]
fn empty_state_is_the_signed_out_start() {
    let s = AppState::empty();
    assert_eq!(s.rev, 0);
    assert_eq!(s.router.default_screen, Screen::Login);
    assert!(s.router.screen_stack.is_empty());
    assert_eq!(s.auth, AuthState::LoggedOut);
    assert!(s.chat_list.is_empty());
    assert!(s.current_chat.is_none());
    assert!(s.toast.is_none());
    assert_eq!(s.clone(), s);
}

#[test]
fn update_rev_reads_every_variant() {
    let state = AppState { rev: 11, ..AppState::empty() };
    let router = Router { default_screen: Screen::ChatList, screen_stack: vec![Screen::NewChat] };
    let updates = vec![
        (AppUpdate::FullState(state), 11),
        (
            AppUpdate::AccountCreated {
                rev: 12,
                nsec: "s".into(),
                pubkey: "p".into(),
                npub: "n".into(),
            },
            12,
        ),
        (AppUpdate::RouterChanged { rev: 13, router }, 13),
        (AppUpdate::AuthChanged { rev: 14, auth: AuthState::LoggedOut }, 14),
        (AppUpdate::ChatListChanged { rev: 15, chat_list: vec![] }, 15),
        (AppUpdate::CurrentChatChanged { rev: 16, current_chat: None }, 16),
        (AppUpdate::ToastChanged { rev: u64::MAX, toast: None }, u64::MAX),
    ];
    for (update, rev) in updates {
        assert_eq!(update.rev(), rev);
    }
}

#[test]
fn text_order_is_that_of_the_bytes() {
    assert!(text_less("a", "b"));
    assert!(!text_less("b", "a"));
    assert!(!text_less("same", "same"));
    assert!(text_less("", "a"));
    assert!(!text_less("", ""));
    assert!(text_less("msg_0f", "msg_10"));
    assert!(text_less("Z", "a"));
    assert!(text_less("a", "ab"));
    assert!(!text_less("ab", "a"));
    for (a, b) in [("x", "y"), ("é", "z"), ("10", "9"), ("", "")] {
        assert_eq!(text_less(a, b), a < b);
        assert_eq!(text_less(b, a), b < a);
    }
}

#[test]
fn hex_u64_writes_sixteen_digits() {
    assert_eq!(hex_u64(0), "0000000000000000");
    assert_eq!(hex_u64(255), "00000000000000ff");
    assert_eq!(hex_u64(0x0123_4567_89ab_cdef), "0123456789abcdef");
    assert_eq!(hex_u64(u64::MAX), "ffffffffffffffff");
    assert_eq!(hex_u64(1 << 63), "8000000000000000");
}

#[test]
fn stable_hash_is_sixteen_digits_and_repeats() {
    let h = stable_hash("hello");
    assert_eq!(h.len(), 16);
    assert!(h.chars().all(|c| c.is_ascii_digit() || ('a'..='f').contains(&c)));
    assert_eq!(stable_hash("hello"), h);
    assert_ne!(stable_hash("hello!"), h);
    assert_ne!(stable_hash(""), stable_hash("0"));
    assert_ne!(h, "hello");
}

#[test]
fn ids_are_prefix_underscore_and_hex() {
    assert_eq!(id_from_bytes("msg", &vec![0x00, 0x9a, 0xf0, 0x0f]), "msg_009af00f");
    assert_eq!(id_from_bytes("", &vec![]), "_");
    let id = generate_id("chat");
    assert_eq!(id.len(), 5 + 32);
    assert!(id.starts_with("chat_"));
    assert!(id[5..].chars().all(|c| c.is_ascii_digit() || ('a'..='f').contains(&c)));
    assert_ne!(generate_id("chat"), id);
}

#[test]
fn timestamps_come_from_the_clock() {
    assert_eq!(seconds_from(None), 0);
    assert_eq!(seconds_from(Some(0)), 0);
    assert_eq!(seconds_from(Some(1_700_000_000)), 1_700_000_000);
    assert_eq!(seconds_from(Some(i64::MAX as u64)), i64::MAX);
    assert_eq!(seconds_from(Some(i64::MAX as u64 + 1)), i64::MIN);
    assert_eq!(seconds_from(Some(u64::MAX)), -1);
    // Some time after this was written.
    assert!(now_seconds() > 1_700_000_000);
}

#[test]
fn database_path_and_key_name() {
    assert_eq!(SERVICE_ID, "com.pika.app");
    assert_eq!(DEFAULT_PAGE_SIZE, 50);
    let expected: PathBuf = ["data", "mls", "ab12", "mdk.sqlite3"].iter().collect();
    assert_eq!(mdk_db_path("data", "ab12"), expected);
    assert_ne!(mdk_db_path("data", "ab12"), PathBuf::from("data"));
    assert_ne!(mdk_db_path("data", "ab12"), mdk_db_path("data", "ab13"));
    assert_eq!(db_key_id("ab12"), "mdk.db.key.ab12");
    assert_eq!(db_key_id(""), "mdk.db.key.");
}

#[test]
fn keyring_is_chosen_once_and_the_first_outcome_stays() {
    let calls = Cell::new(0);
    let mut cell = KeyringInit::new();
    assert_eq!(cell.outcome(), None);
    let first = init_keyring_once(&mut cell, || {
        calls.set(calls.get() + 1);
        Ok(())
    });
    assert_eq!(first, Ok(()));
    assert_eq!(cell.outcome(), Some(KeyringOutcome::Ready));
    let second = init_keyring_once(&mut cell, || {
        calls.set(calls.get() + 1);
        Err("another store".to_string())
    });
    assert_eq!(second, Ok(()));
    assert_eq!(calls.get(), 1);
    assert_eq!(cell.outcome(), Some(KeyringOutcome::Ready));
}

#[test]
fn keyring_failure_is_remembered_too() {
    let calls = Cell::new(0);
    let mut cell = KeyringInit::new();
    let first = init_keyring_once(&mut cell, || {
        calls.set(calls.get() + 1);
        Err("no store".to_string())
    });
    assert_eq!(first, Err("no store".to_string()));
    for _ in 0..3 {
        let later = init_keyring_once(&mut cell, || {
            calls.set(calls.get() + 1);
            Ok(())
        });
        assert_eq!(later, Err("no store".to_string()));
    }
    assert_eq!(calls.get(), 1);
    assert_eq!(cell.outcome(), Some(KeyringOutcome::Failed { reason: "no store".into() }));
}

#[test]
fn offline_replies_answer_what_would_go_to_a_relay() {
    let peer = Identity { pubkey: "ab".into(), npub: "npub1ab".into() };
    assert_eq!(
        offline_reply(&Effect::PublishMessage {
            chat_id: "c1".into(),
            rumor_id: "m1".into(),
            content: "hi".into(),
        }),
        Some(InternalEvent::PublishMessageResult {
            chat_id: "c1".into(),
            rumor_id: "m1".into(),
            ok: true,
            error: None,
        })
    );
    assert_eq!(
        offline_reply(&Effect::PublishKeyPackage),
        Some(InternalEvent::KeyPackagePublished { ok: true, error: None })
    );
    assert_eq!(
        offline_reply(&Effect::FetchKeyPackage { peer: peer.clone() }),
        Some(InternalEvent::PeerKeyPackageFetched {
            peer: peer.clone(),
            key_package_event: None,
            error: None,
        })
    );
    assert_eq!(offline_reply(&Effect::SetFollow { peer: peer.clone(), follow: true }), None);
    assert_eq!(offline_reply(&Effect::CloseIdentityStore), None);
    assert_eq!(offline_reply(&Effect::OpenIdentityStore { pubkey: "ab".into() }), None);
    assert_eq!(
        offline_reply(&Effect::CreateGroup { peer, key_package_event: "{}".into() }),
        None
    );
}

fn shades(r: u8, g: u8, b: u8) -> (u8, u8, u8) {
    (r, g.wrapping_add(100), b.wrapping_add(200))
}

#[test]
fn yuv_planes_hold_every_brightness_and_one_colour_for_each_block() {
    // Four by two pixels; pixel n has the bytes (n, n, n).
    let rgb: Vec<u8> = (0u8..8).flat_map(|n| [n, n, n]).collect();
    let yuv = pika_core::video::rgb_to_yuv420(&rgb, 4, 2, shades);
    assert_eq!(
        yuv,
        vec![
            0, 1, 2, 3, 4, 5, 6, 7, // brightness of every pixel
            100, 102, // first colour of the pixels 0 and 2
            200, 202, // second colour of the pixels 0 and 2
        ]
    );
}

#[test]
fn yuv_planes_of_a_short_picture_stay_zero_where_pixels_are_missing() {
    // Room for the first two pixels and two bytes of the third.
    let rgb = vec![9u8; 8];
    let yuv = pika_core::video::rgb_to_yuv420(&rgb, 2, 2, shades);
    assert_eq!(yuv, vec![9, 9, 0, 0, 109, 209]);
    assert_eq!(pika_core::video::rgb_to_yuv420(&[], 2, 2, shades), vec![0; 6]);
    assert!(pika_core::video::rgb_to_yuv420(&rgb, 0, 0, shades).is_empty());
}

#[test]
fn yuv_planes_take_what_the_conversion_gives() {
    let weigh = |r: u8, g: u8, b: u8| {
        let (r, g, b) = (r as f32, g as f32, b as f32);
        (
            (0.299 * r + 0.587 * g + 0.114 * b).clamp(0.0, 255.0) as u8,
            (-0.169 * r - 0.331 * g + 0.500 * b + 128.0).clamp(0.0, 255.0) as u8,
            (0.500 * r - 0.419 * g - 0.081 * b + 128.0).clamp(0.0, 255.0) as u8,
        )
    };
    // One block of pure red.
    let rgb: Vec<u8> = [255u8, 0, 0].repeat(4);
    let yuv = pika_core::video::rgb_to_yuv420(&rgb, 2, 2, weigh);
    assert_eq!(yuv, vec![76, 76, 76, 76, 84, 255]);
}

#[test]
fn decoded_frame_is_copied_whole() {
    let frame = pika_core::DecodedFrame { width: 2, height: 1, rgba: vec![1, 2, 3, 4, 5, 6, 7, 8] };
    let copy = frame.clone();
    assert_eq!(copy, frame);
    assert_eq!(copy.width, 2);
    assert_eq!(copy.height, 1);
    assert_eq!(copy.rgba, vec![1, 2, 3, 4, 5, 6, 7, 8]);
}
