//! Identifiers and timestamps: random UUIDs, their text, and the clock.
use vstd::prelude::*;
use crate::text::push_char;

verus! {

/// A fresh random (version 4) UUID, as its 128-bit value
/// (`uuid::Uuid::new_v4`). Nothing is claimed of the value: it is random.
#[verifier::external_body]
pub fn new_uuid_v4_value() -> (r: u128)
{
    uuid::Uuid::new_v4().as_u128()
}

/// The milliseconds since the Unix epoch now, by the system clock
/// (`chrono::Utc::now().timestamp_millis()`, cast to `u64` as the callers
/// do). Nothing is claimed of the value: it is the time.
#[verifier::external_body]
pub fn now_millis() -> (r: u64)
{
    chrono::Utc::now().timestamp_millis() as u64
}

/// The lowercase hexadecimal digit for `n < 16`.
pub open spec fn hex_char(n: nat) -> char {
    if n < 10 {
        ((n + ('0' as nat)) as u32) as char
    } else {
        ((n - 10 + ('a' as nat)) as u32) as char
    }
}

/// The `i`-th hexadecimal digit of `v`, counting from the most significant.
pub open spec fn uuid_nibble(v: u128, i: int) -> nat {
    ((v >> ((124 - 4 * i) as u128)) & 0xf) as nat
}

/// The hyphenated text of a UUID (`8-4-4-4-12` lowercase hexadecimal digits),
/// as `uuid::Uuid`'s `Display` writes it.
pub open spec fn uuid_text(v: u128) -> Seq<char> {
    Seq::new(36, |k: int| uuid_text_char(v, k))
}

/// The character at position `k` of the hyphenated text.
pub open spec fn uuid_text_char(v: u128, k: int) -> char {
    if k == 8 || k == 13 || k == 18 || k == 23 {
        '-'
    } else {
        hex_char(uuid_nibble(v, uuid_digit_index(k)))
    }
}

/// Which digit stands at position `k` of the hyphenated text.
pub open spec fn uuid_digit_index(k: int) -> int {
    if k < 8 {
        k
    } else if k < 13 {
        k - 1
    } else if k < 18 {
        k - 2
    } else if k < 23 {
        k - 3
    } else {
        k - 4
    }
}

/// How many digits stand before position `k` of the hyphenated text.
spec fn digits_before(k: int) -> int {
    if k <= 8 {
        k
    } else if k <= 13 {
        k - 1
    } else if k <= 18 {
        k - 2
    } else if k <= 23 {
        k - 3
    } else {
        k - 4
    }
}

fn hex_digit(n: u8) -> (c: char)
    requires
        n < 16,
    ensures
        c == hex_char(n as nat),
{
    if n < 10 {
        ((n + 48u8) as char)
    } else {
        ((n - 10 + 97u8) as char)
    }
}

/// The hyphenated text of a UUID given by its 128-bit value.
pub fn uuid_to_string(v: u128) -> (r: String)
    ensures
        r@ == uuid_text(v),
{
    let mut s = String::new();
    let mut k: usize = 0;
    let mut i: usize = 0;
    while k < 36
        invariant
            k <= 36,
            i == digits_before(k as int),
            s@.len() == k,
            forall|j: int| 0 <= j < k ==> s@[j] == uuid_text_char(v, j),
        decreases 36 - k,
    {
        if k == 8 || k == 13 || k == 18 || k == 23 {
            push_char(&mut s, '-');
        } else {
            let shift: u128 = (124 - 4 * i) as u128;
            let nib = ((v >> shift) & 0xf) as u8;
            assert(((v >> shift) & 0xf) < 16) by (bit_vector);
            assert(nib as nat == uuid_nibble(v, i as int));
            push_char(&mut s, hex_digit(nib));
            i = i + 1;
        }
        k = k + 1;
    }
    assert(s@ =~= uuid_text(v));
    s
}

/// The uppercase hexadecimal digit for `n < 16`.
pub open spec fn hex_char_upper(n: nat) -> char {
    if n < 10 {
        ((n + ('0' as nat)) as u32) as char
    } else {
        ((n - 10 + ('A' as nat)) as u32) as char
    }
}

/// The 32 hexadecimal digits of a UUID without hyphens, in uppercase.
pub open spec fn uuid_simple_upper(v: u128) -> Seq<char> {
    Seq::new(32, |i: int| hex_char_upper(uuid_nibble(v, i)))
}

fn hex_digit_upper(n: u8) -> (c: char)
    requires
        n < 16,
    ensures
        c == hex_char_upper(n as nat),
{
    if n < 10 {
        ((n + 48u8) as char)
    } else {
        ((n - 10 + 65u8) as char)
    }
}

/// The uppercase simple text of a UUID given by its 128-bit value.
pub fn uuid_simple_upper_string(v: u128) -> (r: String)
    ensures
        r@ == uuid_simple_upper(v),
{
    let mut s = String::new();
    let mut i: usize = 0;
    while i < 32
        invariant
            i <= 32,
            s@.len() == i,
            forall|j: int| 0 <= j < i ==> s@[j] == hex_char_upper(uuid_nibble(v, j)),
        decreases 32 - i,
    {
        let shift: u128 = (124 - 4 * i) as u128;
        let nib = ((v >> shift) & 0xf) as u8;
        assert(((v >> shift) & 0xf) < 16) by (bit_vector);
        assert(nib as nat == uuid_nibble(v, i as int));
        push_char(&mut s, hex_digit_upper(nib));
        i = i + 1;
    }
    assert(s@ =~= uuid_simple_upper(v));
    s
}

/// The upper half of a UUID's value (the first of `Uuid::as_u64_pair`).
pub open spec fn uuid_high(v: u128) -> u64 {
    (v >> 64u128) as u64
}

/// The lower half of a UUID's value (the second of `Uuid::as_u64_pair`).
pub open spec fn uuid_low(v: u128) -> u64 {
    (v & 0xffff_ffff_ffff_ffffu128) as u64
}

/// The protocol id of a transfer: the two halves of its UUID added with
/// wrap-around.
pub open spec fn protocol_id_of(v: u128) -> u64 {
    ((uuid_high(v) as int + uuid_low(v) as int) % 0x1_0000_0000_0000_0000) as u64
}

pub fn protocol_id_from_uuid(v: u128) -> (r: u64)
    ensures
        r == protocol_id_of(v),
{
    let high = (v >> 64u128) as u64;
    let low = (v & 0xffff_ffff_ffff_ffffu128) as u64;
    high.wrapping_add(low)
}

} // verus!
