//! Correlation keys.
//!
//! A key links a delivered message to the reply it awaits.  It packs the
//! transport address (a signed 64-bit chat id) into the high 64 bits of a
//! 128-bit integer and the delivered-message id (a signed 32-bit id) into the
//! low 32 bits, each in two's-complement form.  The encoding is collision-free
//! over the full range of both fields, so two concurrently outstanding
//! prompts with distinct chat ids or distinct message ids always use distinct
//! keys.

use vstd::prelude::*;
use vstd::arithmetic::div_mod::lemma_fundamental_div_mod_converse;

verus! {

/// The high word of a key: the chat id, reinterpreted as an unsigned value.
pub open spec fn key_hi(chat_id: i64) -> int {
    if chat_id >= 0 {
        chat_id as int
    } else {
        chat_id + 0x1_0000_0000_0000_0000
    }
}

/// The low word of a key: the message id, reinterpreted as an unsigned value.
pub open spec fn key_lo(message_id: i32) -> int {
    if message_id >= 0 {
        message_id as int
    } else {
        message_id + 0x1_0000_0000
    }
}

/// The key for a delivered message: the chat id in the high 64 bits, the
/// message id in the low 32 bits.
pub open spec fn key_of(chat_id: i64, message_id: i32) -> int {
    key_hi(chat_id) * 0x1_0000_0000_0000_0000 + key_lo(message_id)
}

/// The key as the unsigned 128-bit value the store is keyed by.
pub open spec fn key_u128(chat_id: i64, message_id: i32) -> u128 {
    key_of(chat_id, message_id) as u128
}

/// Computes the correlation key for a delivered message.
pub fn make_key(chat_id: i64, message_id: i32) -> (key: u128)
    ensures
        key as int == key_of(chat_id, message_id),
        key == key_u128(chat_id, message_id),
{
    let hi: u64 = if chat_id >= 0 {
        chat_id as u64
    } else {
        ((chat_id as i128) + 0x1_0000_0000_0000_0000i128) as u64
    };
    let lo: u32 = if message_id >= 0 {
        message_id as u32
    } else {
        ((message_id as i64) + 0x1_0000_0000i64) as u32
    };
    (hi as u128) * 0x1_0000_0000_0000_0000u128 + (lo as u128)
}

/// Distinct (chat id, message id) pairs always yield distinct keys: the key
/// encoding is collision-free over the full range of both fields.
pub proof fn lemma_key_injective(c1: i64, m1: i32, c2: i64, m2: i32)
    requires
        key_of(c1, m1) == key_of(c2, m2),
    ensures
        c1 == c2,
        m1 == m2,
{
    let d = 0x1_0000_0000_0000_0000int;
    let x = key_of(c1, m1);
    lemma_fundamental_div_mod_converse(x, d, key_hi(c1), key_lo(m1));
    lemma_fundamental_div_mod_converse(x, d, key_hi(c2), key_lo(m2));
}

/// The same, at the type the store is keyed by: two concurrently
/// outstanding prompts with distinct chat ids or distinct delivered-message
/// ids always occupy distinct store entries.
pub proof fn lemma_key_u128_injective(c1: i64, m1: i32, c2: i64, m2: i32)
    requires
        key_u128(c1, m1) == key_u128(c2, m2),
    ensures
        c1 == c2,
        m1 == m2,
{
    let d = 0x1_0000_0000_0000_0000int;
    assert(key_hi(c1) * d <= (d - 1) * d) by (nonlinear_arith)
        requires
            0 <= key_hi(c1) <= d - 1,
    ;
    assert(key_hi(c2) * d <= (d - 1) * d) by (nonlinear_arith)
        requires
            0 <= key_hi(c2) <= d - 1,
    ;
    assert(key_of(c1, m1) == key_of(c2, m2));
    lemma_key_injective(c1, m1, c2, m2);
}

} // verus!
