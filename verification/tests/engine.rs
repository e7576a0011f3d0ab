//! The correlation store, key encoding, and dispatch race.

use baubot::dispatch::{message_send_outcome, RecipientOutcome, Server};
use baubot::keys::make_key;
use baubot::store::CorrelationStore;
use baubot::types::BauBotError;

#[test]
fn key_packs_address_high_and_id_low() {
    assert_eq!(make_key(1, 2), (1u128 << 64) | 2u128);
    assert_eq!(make_key(7, 0), 7u128 << 64);
    assert_eq!(make_key(0, 9), 9u128);
}

#[test]
fn key_is_collision_free_for_negative_fields() {
    assert_eq!(
        make_key(-1, -1),
        ((u64::MAX as u128) << 64) | (u32::MAX as u128)
    );
    // Two prompts on the same chat with distinct message ids, one of them
    // negative, never collide.
    assert_ne!(make_key(-1, -1), make_key(-1, 1));
    assert_ne!(make_key(-1, 5), make_key(1, 5));
    assert_ne!(make_key(5, -7), make_key(5, 7));
}

#[test]
fn insert_then_remove_claims_exactly_once() {
    let mut store: CorrelationStore<&'static str> = CorrelationStore::new();
    let key = make_key(10, 20);
    store.insert(key, "slot");
    assert_eq!(store.len(), 1);
    assert_eq!(store.remove(key), Some("slot"));
    assert_eq!(store.remove(key), None);
    assert!(store.is_empty());
}

#[test]
fn remove_of_absent_key_is_a_no_op() {
    let mut store: CorrelationStore<u32> = CorrelationStore::new();
    store.insert(make_key(1, 1), 11);
    assert_eq!(store.remove(make_key(1, 2)), None);
    assert_eq!(store.len(), 1);
}

#[test]
fn no_prompt_never_touches_the_store() {
    // A recipient that wants no reply: delivery happens, no entry, no
    // response owed.
    let mut server: Server<u32> = Server::new();
    let out = server.dispatch_recipient(Some(5), Some(6), false, false, 1);
    assert!(matches!(out, RecipientOutcome::NoReply(1)));
    assert!(server.is_idle());
    // An empty prompt grid means no reply is solicited either.
    let out = server.dispatch_recipient(Some(5), Some(6), true, true, 2);
    assert!(matches!(out, RecipientOutcome::NoReply(2)));
    assert!(server.is_idle());
    assert_eq!(server.outstanding(), 0);
}

#[test]
fn unresolved_recipient_is_uncontactable() {
    let mut server: Server<u32> = Server::new();
    let out = server.dispatch_recipient(None, None, true, false, 3);
    assert!(matches!(out, RecipientOutcome::Uncontactable(3)));
    assert!(server.is_idle());
}

#[test]
fn failed_delivery_is_uncontactable() {
    let mut server: Server<u32> = Server::new();
    let out = server.dispatch_recipient(Some(5), None, true, false, 4);
    assert!(matches!(out, RecipientOutcome::Uncontactable(4)));
    assert!(server.is_idle());
}

#[test]
fn timeout_claims_when_no_reply_arrived() {
    // A prompt is dispatched and nobody answers: the deadline fires, claims
    // the key, and the store no longer contains it.
    let mut server: Server<&'static str> = Server::new();
    let out = server.dispatch_recipient(Some(5), Some(6), true, false, "slot");
    let key = match out {
        RecipientOutcome::Awaiting(key) => key,
        _ => panic!("expected an awaiting entry"),
    };
    assert_eq!(key, make_key(5, 6));
    assert_eq!(server.outstanding(), 1);
    assert_eq!(server.handle_timeout(5, 6), Some("slot"));
    assert!(server.is_idle());
    // The reply arriving afterwards is a harmless no-op.
    assert_eq!(server.handle_callback(5, 6), None);
}

#[test]
fn reply_claims_and_later_timeout_is_a_no_op() {
    let mut server: Server<&'static str> = Server::new();
    server.dispatch_recipient(Some(5), Some(6), true, false, "slot");
    assert_eq!(server.handle_callback(5, 6), Some("slot"));
    assert_eq!(server.handle_timeout(5, 6), None);
    assert!(server.is_idle());
}

#[test]
fn duplicate_reply_event_changes_nothing() {
    let mut server: Server<&'static str> = Server::new();
    server.dispatch_recipient(Some(5), Some(6), true, false, "a");
    server.dispatch_recipient(Some(7), Some(8), true, false, "b");
    assert_eq!(server.handle_callback(5, 6), Some("a"));
    assert_eq!(server.outstanding(), 1);
    // The duplicate finds nothing and mutates nothing.
    assert_eq!(server.handle_callback(5, 6), None);
    assert_eq!(server.outstanding(), 1);
    assert_eq!(server.handle_callback(7, 8), Some("b"));
}

#[test]
fn concurrent_prompts_to_one_address_resolve_independently() {
    // Two outstanding prompts at the same chat, distinguished by their
    // delivered-message ids.
    let mut server: Server<&'static str> = Server::new();
    server.dispatch_recipient(Some(5), Some(1), true, false, "first");
    server.dispatch_recipient(Some(5), Some(2), true, false, "second");
    assert_eq!(server.outstanding(), 2);
    // Resolving one never affects the other's slot.
    assert_eq!(server.handle_callback(5, 1), Some("first"));
    assert_eq!(server.outstanding(), 1);
    assert_eq!(server.handle_timeout(5, 2), Some("second"));
    assert!(server.is_idle());
}

#[test]
fn send_outcome_requires_address_and_delivery() {
    assert_eq!(message_send_outcome(Some(1), Some(42)), Ok(42));
    assert_eq!(
        message_send_outcome(None, None),
        Err(BauBotError::Uncontactable)
    );
    assert_eq!(
        message_send_outcome(Some(1), None),
        Err(BauBotError::Uncontactable)
    );
    assert_eq!(
        message_send_outcome(None, Some(42)),
        Err(BauBotError::Uncontactable)
    );
}

#[test]
fn notices_match_the_chat_format() {
    assert_eq!(baubot::dispatch::reply_notice("approve"), "🥳 <code>approve</code>");
    assert_eq!(
        baubot::dispatch::timeout_notice(5000),
        "⌚ Timeout (5000ms) exceeded"
    );
    assert_eq!(
        baubot::dispatch::late_reply_notice(),
        "⌚ The recipient probably timed out"
    );
}

#[test]
fn concurrent_reply_and_timeout_claim_exactly_once() {
    // The race property under real concurrency: a reply event and a timeout
    // fire together for the same key, each claiming through the shared
    // store; exactly one obtains the slot and resolves it.
    let rt = tokio::runtime::Builder::new_multi_thread()
        .worker_threads(2)
        .build()
        .unwrap();
    rt.block_on(async {
        for round in 0..50 {
            let mut server: Server<tokio::sync::oneshot::Sender<Result<String, BauBotError>>> =
                Server::new();
            let (slot, waiting) = tokio::sync::oneshot::channel();
            let out = server.dispatch_recipient(Some(9), Some(round), true, false, slot);
            assert!(matches!(out, RecipientOutcome::Awaiting(_)));
            let shared = std::sync::Arc::new(tokio::sync::Mutex::new(server));

            let for_reply = shared.clone();
            let reply = tokio::spawn(async move {
                match for_reply.lock().await.handle_callback(9, round) {
                    Some(slot) => {
                        slot.send(Ok("approve".to_string())).unwrap();
                        true
                    }
                    None => false,
                }
            });
            let for_timeout = shared.clone();
            let timeout = tokio::spawn(async move {
                match for_timeout.lock().await.handle_timeout(9, round) {
                    Some(slot) => {
                        slot.send(Err(BauBotError::Timeout)).unwrap();
                        true
                    }
                    None => false,
                }
            });

            let reply_won = reply.await.unwrap();
            let timeout_won = timeout.await.unwrap();
            // Exactly one of the two claimed the key.
            assert!(reply_won ^ timeout_won);
            // The waiting caller observes exactly one outcome.
            let outcome = waiting.await.unwrap();
            match outcome {
                Ok(data) => {
                    assert!(reply_won);
                    assert_eq!(data, "approve");
                }
                Err(e) => {
                    assert!(timeout_won);
                    assert_eq!(e, BauBotError::Timeout);
                }
            }
            assert!(shared.lock().await.is_idle());
        }
    });
}
