//! The broadcast dispatcher and reply router: the decisions of the engine,
//! over the correlation store it owns.
//!
//! The dispatcher is generic in the slot type it stores: the caller passes
//! the sending half of whatever single-use channel its runtime offers, and
//! drives delivery, the timeout clock and the inbound event stream from
//! outside.  Every decision - whether a recipient gets a correlation entry,
//! who wins the claim race, what each party does with the claimed slot - is
//! made here.

use vstd::prelude::*;
use vstd::string::StrSliceExecFns;
use vstd::string::StringExecFns;
use crate::keys::{key_u128, make_key};
use crate::store::{CorrelationStore, spec_claim};
use crate::types::BauBotError;
use crate::text::{spec_dec, u64_string};

verus! {

/// What the dispatcher decides for one recipient of a broadcast.
pub enum RecipientOutcome<V> {
    /// No reply was solicited from this recipient: the flow ends after
    /// delivery, and no response is owed to the caller.  The unused slot is
    /// handed back.
    NoReply(V),
    /// The recipient could not be resolved or the delivery failed: the
    /// caller is owed an immediate failure, through the handed-back slot.
    Uncontactable(V),
    /// The message was delivered and a reply is awaited under this key: the
    /// slot is now owned by the correlation store, and the caller must start
    /// the timeout clock for the key.
    Awaiting(u128),
}

/// What one recipient's dispatch step does to the store: an entry appears
/// under the delivered message's key exactly when a reply is solicited (a
/// reply wanted and a non-empty prompt grid) and the delivery succeeded;
/// in every other case the store is left untouched.
pub open spec fn spec_dispatch_store<V>(
    m: Map<u128, V>,
    chat_id: Option<i64>,
    delivered: Option<i32>,
    wants_reply: bool,
    keyboard_empty: bool,
    slot: V,
) -> Map<u128, V> {
    if wants_reply && !keyboard_empty && chat_id is Some && delivered is Some {
        m.insert(key_u128(chat_id->0, delivered->0), slot)
    } else {
        m
    }
}

/// For a recipient without a prompt - no reply wanted, or an empty grid -
/// the dispatcher never creates a correlation entry: the step is the
/// identity on the store.  A whole request without a prompt is a sequence
/// of such steps, so it leaves the table exactly as it found it - empty,
/// when it was empty before the call.
pub proof fn lemma_no_prompt_no_entry<V>(
    m: Map<u128, V>,
    chat_id: Option<i64>,
    delivered: Option<i32>,
    wants_reply: bool,
    keyboard_empty: bool,
    slot: V,
)
    requires
        !wants_reply || keyboard_empty,
    ensures
        spec_dispatch_store(m, chat_id, delivered, wants_reply, keyboard_empty, slot) == m,
{
}

/// What a whole request does to the store: the per-recipient steps folded
/// in order, each described by the resolved address, the delivery result,
/// the reply flag, and the slot that was offered.
pub open spec fn spec_dispatch_request<V>(
    m: Map<u128, V>,
    steps: Seq<(Option<i64>, Option<i32>, bool, V)>,
    keyboard_empty: bool,
) -> Map<u128, V>
    decreases steps,
{
    if steps.len() == 0 {
        m
    } else {
        let last = steps.last();
        spec_dispatch_store(
            spec_dispatch_request(m, steps.drop_last(), keyboard_empty),
            last.0,
            last.1,
            last.2,
            keyboard_empty,
            last.3,
        )
    }
}

/// For a request without a prompt, the dispatcher never creates a
/// correlation entry: however many recipients the request names, and
/// whatever each resolution and delivery came to, the table after the call
/// is exactly the table before it - empty, when it started empty.
pub proof fn lemma_no_prompt_request_leaves_store<V>(
    m: Map<u128, V>,
    steps: Seq<(Option<i64>, Option<i32>, bool, V)>,
)
    ensures
        spec_dispatch_request(m, steps, true) == m,
    decreases steps,
{
    if steps.len() > 0 {
        lemma_no_prompt_request_leaves_store(m, steps.drop_last());
    }
}

/// The dispatch engine: the correlation store under its single owner.
pub struct Server<V> {
    store: CorrelationStore<V>,
}

impl<V> Server<V> {
    /// The outstanding replies, as a map from correlation keys to slots.
    pub closed spec fn view(&self) -> Map<u128, V> {
        self.store@
    }

    /// A fresh engine with no reply outstanding.
    pub fn new() -> (s: Self)
        ensures
            s@ == Map::<u128, V>::empty(),
    {
        Server { store: CorrelationStore::new() }
    }

    /// How many replies are outstanding.
    pub fn outstanding(&self) -> (n: usize)
        ensures
            n == self@.len(),
    {
        self.store.len()
    }

    /// Whether no reply is outstanding.
    pub fn is_idle(&self) -> (r: bool)
        ensures
            r == self@.dom().is_empty(),
    {
        self.store.is_empty()
    }

    /// Decides one recipient's flow after the delivery attempt.  `chat_id`
    /// is the resolved transport address, if the directory knew the
    /// recipient; `delivered` the delivered-message id, if the gateway
    /// accepted the message; `wants_reply` and `keyboard_empty` describe the
    /// request.  A correlation entry is created exactly when a reply is
    /// solicited (a reply wanted and a non-empty prompt grid) and the
    /// delivery succeeded; with no prompt, the store is never touched and no
    /// response is owed.
    pub fn dispatch_recipient(
        &mut self,
        chat_id: Option<i64>,
        delivered: Option<i32>,
        wants_reply: bool,
        keyboard_empty: bool,
        slot: V,
    ) -> (r: RecipientOutcome<V>)
        ensures
            final(self)@ == spec_dispatch_store(
                old(self)@,
                chat_id,
                delivered,
                wants_reply,
                keyboard_empty,
                slot,
            ),
            !(wants_reply && !keyboard_empty) ==> final(self)@ == old(self)@ && (r matches
            RecipientOutcome::NoReply(v) && v == slot),
            wants_reply && !keyboard_empty && (chat_id is None || delivered is None) ==> final(self)@
                == old(self)@ && (r matches RecipientOutcome::Uncontactable(v) && v == slot),
            wants_reply && !keyboard_empty && chat_id is Some && delivered is Some ==> {
                let key = key_u128(chat_id->0, delivered->0);
                final(self)@ == old(self)@.insert(key, slot) && r == RecipientOutcome::Awaiting::<
                    V,
                >(key)
            },
    {
        if !wants_reply || keyboard_empty {
            return RecipientOutcome::NoReply(slot);
        }
        let chat_id = match chat_id {
            Some(c) => c,
            None => {
                return RecipientOutcome::Uncontactable(slot);
            },
        };
        let message_id = match delivered {
            Some(m) => m,
            None => {
                return RecipientOutcome::Uncontactable(slot);
            },
        };
        let key = make_key(chat_id, message_id);
        self.store.insert(key, slot);
        RecipientOutcome::Awaiting(key)
    }

    /// The reply router's half of the race: an inbound reply event claims
    /// the key computed from its address and message id.  The slot comes
    /// back exactly when the reply arrived first; an absent key - already
    /// claimed by the timeout, or a reply nothing solicited - changes
    /// nothing, so a duplicate or late event is a harmless no-op.
    pub fn handle_callback(&mut self, chat_id: i64, message_id: i32) -> (r: Option<V>)
        ensures
            (r, final(self)@) == spec_claim(old(self)@, key_u128(chat_id, message_id)),
    {
        let key = make_key(chat_id, message_id);
        self.store.remove(key)
    }

    /// The timeout task's half of the race: when the deadline fires it
    /// attempts to claim the same key.  The slot comes back exactly when no
    /// reply arrived first, and the caller then resolves it with
    /// [`BauBotError::Timeout`]; a key already claimed by the router changes
    /// nothing.
    pub fn handle_timeout(&mut self, chat_id: i64, message_id: i32) -> (r: Option<V>)
        ensures
            (r, final(self)@) == spec_claim(old(self)@, key_u128(chat_id, message_id)),
    {
        let key = make_key(chat_id, message_id);
        self.store.remove(key)
    }
}

/// The delivery outcome for one recipient: the delivered-message id when the
/// recipient was resolved and the gateway accepted the message, and
/// [`BauBotError::Uncontactable`] otherwise.
pub fn message_send_outcome(chat_id: Option<i64>, sent: Option<i32>) -> (r: Result<
    i32,
    BauBotError,
>)
    ensures
        chat_id is Some && sent is Some ==> r == Ok::<i32, BauBotError>(sent->0),
        chat_id is None || sent is None ==> r == Err::<i32, BauBotError>(
            BauBotError::Uncontactable,
        ),
{
    match (chat_id, sent) {
        (Some(_), Some(id)) => Ok(id),
        _ => Err(BauBotError::Uncontactable),
    }
}

/// The notice sent back to the chat when a reply is accepted: the chosen
/// option, marked as passed.
pub fn reply_notice(data: &str) -> (r: String)
    ensures
        r@ == "\u{1F973} <code>"@ + data@ + "</code>"@,
{
    let mut out = String::from_str("\u{1F973} <code>");
    out.append(data);
    out.append("</code>");
    out
}

/// The notice sent back to the chat when a reply event finds no outstanding
/// key: the request has most likely timed out already.
pub fn late_reply_notice() -> (r: String)
    ensures
        r@ == "\u{231A} The recipient probably timed out"@,
{
    String::from_str("\u{231A} The recipient probably timed out")
}

/// The notice sent back to the chat when the deadline fires first.
pub fn timeout_notice(timeout_ms: u64) -> (r: String)
    ensures
        r@ == "\u{231A} Timeout ("@ + spec_dec(timeout_ms) + "ms) exceeded"@,
{
    let mut out = String::from_str("\u{231A} Timeout (");
    let t = u64_string(timeout_ms);
    out.append(t.as_str());
    out.append("ms) exceeded");
    out
}

} // verus!
