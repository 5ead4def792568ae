//! Internet addresses as plain values.
use vstd::prelude::*;
use crate::text::push_char;

verus! {

/// An IPv4 address, by its four octets in network order (`a.b.c.d`).
#[derive(Clone, Copy, Debug, PartialEq, Eq, Structural)]
pub struct Ipv4Addr {
    pub a: u8,
    pub b: u8,
    pub c: u8,
    pub d: u8,
}

/// An IPv6 address, as the 128-bit number whose big-endian bytes are its
/// octets.
#[derive(Clone, Copy, Debug, PartialEq, Eq, Structural)]
pub struct Ipv6Addr {
    pub bits: u128,
}

/// An IPv4 or IPv6 address.
#[derive(Clone, Copy, Debug, PartialEq, Eq, Structural)]
pub enum IpAddr {
    V4(Ipv4Addr),
    V6(Ipv6Addr),
}

impl Ipv4Addr {
    pub fn new(a: u8, b: u8, c: u8, d: u8) -> (r: Ipv4Addr)
        ensures
            r == (Ipv4Addr { a, b, c, d }),
    {
        Ipv4Addr { a, b, c, d }
    }

    /// `0.0.0.0`.
    pub fn unspecified() -> (r: Ipv4Addr)
        ensures
            r == (Ipv4Addr { a: 0, b: 0, c: 0, d: 0 }),
    {
        Ipv4Addr::new(0, 0, 0, 0)
    }
}

impl Ipv6Addr {
    /// `::`, the address of sixteen zero octets.
    pub open spec fn spec_unspecified() -> Ipv6Addr {
        Ipv6Addr { bits: 0 }
    }

    /// `::`.
    pub fn unspecified() -> (r: Ipv6Addr)
        ensures
            r == Ipv6Addr::spec_unspecified(),
    {
        Ipv6Addr { bits: 0 }
    }
}

/// The decimal digits of `n`, without leading zeros (`"0"` for zero).
pub open spec fn decimal_chars(n: nat) -> Seq<char>
    decreases n,
{
    if n < 10 {
        seq![digit_char(n)]
    } else {
        decimal_chars(n / 10).push(digit_char(n % 10))
    }
}

pub open spec fn digit_char(d: nat) -> char {
    ((d + ('0' as nat)) as u32) as char
}

/// The dotted-decimal text of an IPv4 address, as `Ipv4Addr`'s `Display`
/// writes it.
pub open spec fn ipv4_text(ip: Ipv4Addr) -> Seq<char> {
    decimal_chars(ip.a as nat) + seq!['.'] + decimal_chars(ip.b as nat) + seq!['.']
        + decimal_chars(ip.c as nat) + seq!['.'] + decimal_chars(ip.d as nat)
}

fn digit_to_char(d: u8) -> (c: char)
    requires
        d < 10,
    ensures
        c == digit_char(d as nat),
{
    if d == 0 { '0' } else if d == 1 { '1' } else if d == 2 { '2' } else if d == 3 { '3' }
    else if d == 4 { '4' } else if d == 5 { '5' } else if d == 6 { '6' } else if d == 7 { '7' }
    else if d == 8 { '8' } else { '9' }
}

/// Appends the decimal digits of `n`.
pub fn push_u64_decimal(s: &mut String, n: u64)
    ensures
        final(s)@ == old(s)@ + decimal_chars(n as nat),
    decreases n,
{
    if n >= 10 {
        push_u64_decimal(s, n / 10);
    }
    push_char(s, digit_to_char((n % 10) as u8));
    assert(n >= 10 ==> decimal_chars(n as nat) == decimal_chars((n / 10) as nat).push(digit_char((n % 10) as nat)));
}

/// Appends the decimal digits of a byte.
pub fn push_u8_decimal(s: &mut String, n: u8)
    ensures
        final(s)@ == old(s)@ + decimal_chars(n as nat),
{
    if n >= 100 {
        assert(decimal_chars(n as nat) == decimal_chars((n / 10) as nat).push(digit_char((n % 10) as nat)));
        assert(decimal_chars((n / 10) as nat) == decimal_chars((n / 100) as nat).push(digit_char(((n / 10) % 10) as nat)));
        assert(decimal_chars((n / 100) as nat) == seq![digit_char((n / 100) as nat)]);
        push_char(s, digit_to_char(n / 100));
        push_char(s, digit_to_char((n / 10) % 10));
        push_char(s, digit_to_char(n % 10));
    } else if n >= 10 {
        assert(decimal_chars(n as nat) == decimal_chars((n / 10) as nat).push(digit_char((n % 10) as nat)));
        assert(decimal_chars((n / 10) as nat) == seq![digit_char((n / 10) as nat)]);
        push_char(s, digit_to_char(n / 10));
        push_char(s, digit_to_char(n % 10));
    } else {
        push_char(s, digit_to_char(n));
    }
}

impl Ipv4Addr {
    /// The dotted-decimal text of the address (`to_string`).
    pub fn to_text(&self) -> (r: String)
        ensures
            r@ == ipv4_text(*self),
    {
        let mut s = String::new();
        push_u8_decimal(&mut s, self.a);
        push_char(&mut s, '.');
        push_u8_decimal(&mut s, self.b);
        push_char(&mut s, '.');
        push_u8_decimal(&mut s, self.c);
        push_char(&mut s, '.');
        push_u8_decimal(&mut s, self.d);
        s
    }
}

} // verus!

verus! {

// ---------------------------------------------------------------------------
// The text of IPv6 addresses.

/// The `i`-th 16-bit segment of an IPv6 address, from the most significant.
pub open spec fn segment(v6: Ipv6Addr, i: int) -> u16 {
    ((v6.bits >> ((112 - 16 * i) as u128)) & 0xffff) as u16
}

/// The eight segments of an IPv6 address.
pub open spec fn segments(v6: Ipv6Addr) -> Seq<u16> {
    Seq::new(8, |i: int| segment(v6, i))
}

/// The lowercase hexadecimal digit for `d < 16`.
pub open spec fn hex_digit_char(d: nat) -> char {
    if d < 10 {
        ((d + ('0' as nat)) as u32) as char
    } else {
        ((d - 10 + ('a' as nat)) as u32) as char
    }
}

/// The lowercase hexadecimal digits of `n`, without leading zeros (`"0"`
/// for zero).
pub open spec fn hex_chars(n: nat) -> Seq<char>
    decreases n,
{
    if n < 16 {
        seq![hex_digit_char(n)]
    } else {
        hex_chars(n / 16).push(hex_digit_char(n % 16))
    }
}

/// The segments of `s` in hexadecimal, joined by `:`.
pub open spec fn joined_segments(s: Seq<u16>) -> Seq<char>
    decreases s.len(),
{
    if s.len() == 0 {
        Seq::empty()
    } else if s.len() == 1 {
        hex_chars(s[0] as nat)
    } else {
        joined_segments(s.drop_last()) + seq![':'] + hex_chars(s.last() as nat)
    }
}

/// The first longest run of zero segments from position `i` on, given the
/// run in progress (`cur_start`, `cur_len`) and the longest so far
/// (`best_start`, `best_len`); a later run must be strictly longer to win.
pub open spec fn zero_run_from(s: Seq<u16>, i: int, cur_start: int, cur_len: int, best_start: int, best_len: int) -> (int, int)
    decreases s.len() - i,
{
    if i >= s.len() {
        (best_start, best_len)
    } else if s[i] == 0 {
        let cs = if cur_len == 0 { i } else { cur_start };
        let cl = cur_len + 1;
        if cl > best_len {
            zero_run_from(s, i + 1, cs, cl, cs, cl)
        } else {
            zero_run_from(s, i + 1, cs, cl, best_start, best_len)
        }
    } else {
        zero_run_from(s, i + 1, 0, 0, best_start, best_len)
    }
}

/// The start and length of the first longest run of zero segments.
pub open spec fn longest_zero_run(s: Seq<u16>) -> (int, int) {
    zero_run_from(s, 0, 0, 0, 0, 0)
}

/// Whether the address is an IPv4 address mapped into IPv6
/// (`::ffff:a.b.c.d`).
pub open spec fn is_ipv4_mapped(v6: Ipv6Addr) -> bool {
    &&& forall|i: int| 0 <= i < 5 ==> segment(v6, i) == 0
    &&& segment(v6, 5) == 0xffff
}

/// The IPv4 address in the last 32 bits of an IPv6 address.
pub open spec fn low_ipv4(v6: Ipv6Addr) -> Ipv4Addr {
    Ipv4Addr {
        a: ((v6.bits >> 24u128) & 0xff) as u8,
        b: ((v6.bits >> 16u128) & 0xff) as u8,
        c: ((v6.bits >> 8u128) & 0xff) as u8,
        d: (v6.bits & 0xff) as u8,
    }
}

/// The text of an IPv6 address as `Ipv6Addr`'s `Display` writes it: a
/// mapped IPv4 address as `::ffff:` and its dotted form; otherwise the
/// segments in lowercase hexadecimal joined by `:`, the first longest run of
/// two or more zero segments written `::`.
pub open spec fn ipv6_text(v6: Ipv6Addr) -> Seq<char> {
    if is_ipv4_mapped(v6) {
        seq![':', ':', 'f', 'f', 'f', 'f', ':'] + ipv4_text(low_ipv4(v6))
    } else {
        let s = segments(v6);
        let (start, len) = longest_zero_run(s);
        if len > 1 {
            joined_segments(s.subrange(0, start)) + seq![':', ':'] + joined_segments(
                s.subrange(start + len, 8),
            )
        } else {
            joined_segments(s)
        }
    }
}

/// The text of an address.
pub open spec fn ip_text(ip: IpAddr) -> Seq<char> {
    match ip {
        IpAddr::V4(v4) => ipv4_text(v4),
        IpAddr::V6(v6) => ipv6_text(v6),
    }
}

fn hex_to_char(d: u16) -> (c: char)
    requires
        d < 16,
    ensures
        c == hex_digit_char(d as nat),
{
    if d < 10 {
        ((d as u8) + 48u8) as char
    } else {
        ((d as u8) - 10 + 97u8) as char
    }
}

/// Appends the lowercase hexadecimal digits of `n`.
pub fn push_hex_u16(s: &mut String, n: u16)
    ensures
        final(s)@ == old(s)@ + hex_chars(n as nat),
    decreases n,
{
    if n >= 16 {
        push_hex_u16(s, n / 16);
    }
    push_char(s, hex_to_char(n % 16));
    assert(n >= 16 ==> hex_chars(n as nat) == hex_chars((n / 16) as nat).push(hex_digit_char((n % 16) as nat)));
}

/// Appends the segments `v[from..to]` joined by `:`.
fn push_joined(s: &mut String, v: &Vec<u16>, from: usize, to: usize)
    requires
        from <= to <= v@.len(),
    ensures
        final(s)@ == old(s)@ + joined_segments(v@.subrange(from as int, to as int)),
{
    let mut i: usize = from;
    while i < to
        invariant
            from <= i <= to <= v@.len(),
            s@ == old(s)@ + joined_segments(v@.subrange(from as int, i as int)),
        decreases to - i,
    {
        let ghost before = s@;
        assert(v@.subrange(from as int, i + 1).drop_last() == v@.subrange(from as int, i as int));
        if i > from {
            push_char(s, ':');
        }
        push_hex_u16(s, v[i]);
        proof {
            let part = v@.subrange(from as int, i + 1);
            assert(part.last() == v@[i as int]);
            if i == from {
                assert(part.len() == 1);
                assert(v@.subrange(from as int, i as int).len() == 0);
            }
        }
        i = i + 1;
    }
}

fn segment_values(v6: Ipv6Addr) -> (r: Vec<u16>)
    ensures
        r@ == segments(v6),
{
    let mut r: Vec<u16> = Vec::new();
    let mut i: usize = 0;
    while i < 8
        invariant
            i <= 8,
            r@.len() == i,
            forall|j: int| 0 <= j < i ==> r@[j] == segment(v6, j),
        decreases 8 - i,
    {
        let shift: u128 = (112 - 16 * i) as u128;
        r.push(((v6.bits >> shift) & 0xffff) as u16);
        i = i + 1;
    }
    assert(r@ =~= segments(v6));
    r
}

impl Ipv6Addr {
    /// The text of the address (`to_string`), see [`ipv6_text`].
    pub fn to_text(&self) -> (r: String)
        ensures
            r@ == ipv6_text(*self),
    {
        let segs = segment_values(*self);
        let mut mapped = segs[5] == 0xffff;
        let mut k: usize = 0;
        while k < 5
            invariant
                k <= 5,
                segs@ == segments(*self),
                mapped == (segs@[5] == 0xffff && forall|j: int| 0 <= j < k ==> segs@[j] == 0),
            decreases 5 - k,
        {
            if segs[k] != 0 {
                mapped = false;
            }
            k = k + 1;
        }
        proof {
            assert(segs@[5] == segment(*self, 5));
            if mapped {
                assert forall|j: int| 0 <= j < 5 implies segment(*self, j) == 0 by {
                    assert(segs@[j] == segment(*self, j));
                }
            } else if segs@[5] == 0xffff {
                let j = choose|j: int| 0 <= j < 5 && segs@[j] != 0;
                assert(segs@[j] == segment(*self, j));
            }
        }
        if mapped {
            let mut s = String::new();
            push_char(&mut s, ':');
            push_char(&mut s, ':');
            push_char(&mut s, 'f');
            push_char(&mut s, 'f');
            push_char(&mut s, 'f');
            push_char(&mut s, 'f');
            push_char(&mut s, ':');
            let v4 = Ipv4Addr {
                a: ((self.bits >> 24u128) & 0xff) as u8,
                b: ((self.bits >> 16u128) & 0xff) as u8,
                c: ((self.bits >> 8u128) & 0xff) as u8,
                d: (self.bits & 0xff) as u8,
            };
            s.append(v4.to_text().as_str());
            return s;
        }
        let mut cur_start: usize = 0;
        let mut cur_len: usize = 0;
        let mut best_start: usize = 0;
        let mut best_len: usize = 0;
        let mut i: usize = 0;
        while i < 8
            invariant
                i <= 8,
                segs@.len() == 8,
                cur_start + cur_len <= i,
                best_start + best_len <= 8,
                longest_zero_run(segs@) == zero_run_from(
                    segs@,
                    i as int,
                    cur_start as int,
                    cur_len as int,
                    best_start as int,
                    best_len as int,
                ),
            decreases 8 - i,
        {
            if segs[i] == 0 {
                if cur_len == 0 {
                    cur_start = i;
                }
                cur_len = cur_len + 1;
                if cur_len > best_len {
                    best_start = cur_start;
                    best_len = cur_len;
                }
            } else {
                cur_start = 0;
                cur_len = 0;
            }
            i = i + 1;
        }
        let mut s = String::new();
        if best_len > 1 {
            push_joined(&mut s, &segs, 0, best_start);
            push_char(&mut s, ':');
            push_char(&mut s, ':');
            push_joined(&mut s, &segs, best_start + best_len, 8);
        } else {
            push_joined(&mut s, &segs, 0, 8);
            assert(segs@.subrange(0, 8) == segs@);
        }
        s
    }
}

impl IpAddr {
    /// The text of the address (`to_string`).
    pub fn to_text(&self) -> (r: String)
        ensures
            r@ == ip_text(*self),
    {
        match self {
            IpAddr::V4(v4) => v4.to_text(),
            IpAddr::V6(v6) => v6.to_text(),
        }
    }
}

} // verus!
