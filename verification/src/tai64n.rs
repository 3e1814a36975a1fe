//! TAI64N timestamp decoding.
//!
//! An external-format TAI64N stamp is 24 hex digits: a big-endian 64-bit
//! second count followed by a big-endian 32-bit nanosecond count. The
//! second count carries the TAI64 epoch offset `0x4000000000000000`; a
//! stamp below the offset, of the wrong length, or with a non-hex digit
//! decodes to "no value" rather than an error.
use vstd::prelude::*;

verus! {

/// The TAI64 external-format epoch offset.
pub const TAI64_UNIX_OFFSET: u64 = 0x4000_0000_0000_0000;

pub open spec fn is_hex_digit(c: char) -> bool {
    ('0' <= c && c <= '9') || ('a' <= c && c <= 'f') || ('A' <= c && c <= 'F')
}

pub open spec fn hex_digit_val(c: char) -> nat {
    if '0' <= c && c <= '9' {
        ((c as u32) - ('0' as u32)) as nat
    } else if 'a' <= c && c <= 'f' {
        ((c as u32) - ('a' as u32) + 10) as nat
    } else {
        ((c as u32) - ('A' as u32) + 10) as nat
    }
}

/// Numeric value of a hex digit run, most significant digit first.
pub open spec fn hex_val(s: Seq<char>) -> nat
    decreases s.len(),
{
    if s.len() == 0 {
        0
    } else {
        hex_val(s.drop_last()) * 16 + hex_digit_val(s.last())
    }
}

pub open spec fn all_hex(s: Seq<char>) -> bool {
    forall|i: int| 0 <= i < s.len() ==> is_hex_digit(#[trigger] s[i])
}

pub open spec fn pow16(n: nat) -> nat
    decreases n,
{
    if n == 0 {
        1
    } else {
        16 * pow16((n - 1) as nat)
    }
}

pub proof fn lemma_hex_val_bound(s: Seq<char>)
    requires
        all_hex(s),
    ensures
        hex_val(s) < pow16(s.len()),
    decreases s.len(),
{
    if s.len() > 0 {
        assert(all_hex(s.drop_last()));
        lemma_hex_val_bound(s.drop_last());
        assert(is_hex_digit(s.last()));
        assert(hex_digit_val(s.last()) < 16);
        let h = hex_val(s.drop_last());
        let p = pow16((s.len() - 1) as nat);
        assert(h * 16 <= (p - 1) * 16) by (nonlinear_arith)
            requires
                h <= p - 1,
        ;
    }
}

/// The value a `u64` bit pattern denotes when read as an `i64`.
pub open spec fn wrap_u64_to_i64(v: nat) -> int {
    if v <= i64::MAX {
        v as int
    } else {
        v - 0x1_0000_0000_0000_0000
    }
}

/// Value of the hex digit run `[from, to)`, at most 16 digits.
fn hex_value(s: &str, from: usize, to: usize) -> (r: u64)
    requires
        from <= to <= s@.len(),
        to - from <= 16,
        forall|k: int| from <= k < to ==> is_hex_digit(#[trigger] s@[k]),
    ensures
        r == hex_val(s@.subrange(from as int, to as int)),
{
    proof {
        lemma_pow16_values();
    }
    let mut acc: u64 = 0;
    let mut i = from;
    while i < to
        invariant
            from <= i <= to <= s@.len(),
            to - from <= 16,
            forall|k: int| from <= k < to ==> is_hex_digit(#[trigger] s@[k]),
            acc == hex_val(s@.subrange(from as int, i as int)),
            pow16(16) == 0x1_0000_0000_0000_0000,
        decreases to - i,
    {
        let c = s.get_char(i);
        assert(is_hex_digit(c));
        let cu = c as u32;
        let d: u64 = if cu >= 'a' as u32 {
            (cu - 'a' as u32 + 10) as u64
        } else if cu >= 'A' as u32 {
            (cu - 'A' as u32 + 10) as u64
        } else {
            (cu - '0' as u32) as u64
        };
        proof {
            let cur = s@.subrange(from as int, i as int);
            let next = s@.subrange(from as int, i + 1 as int);
            assert(next.drop_last() =~= cur);
            assert(next.last() == s@[i as int]);
            assert(d == hex_digit_val(c));
            assert(all_hex(next));
            lemma_hex_val_bound(next);
            lemma_pow16_le(next.len(), 16);
            assert(hex_val(next) < 0x1_0000_0000_0000_0000);
        }
        acc = acc * 16 + d;
        i += 1;
    }
    acc
}

pub proof fn lemma_pow16_values()
    ensures
        pow16(8) == 0x1_0000_0000,
        pow16(16) == 0x1_0000_0000_0000_0000,
{
    assert(pow16(0) == 1);
    assert(pow16(1) == 0x10);
    assert(pow16(2) == 0x100);
    assert(pow16(3) == 0x1000);
    assert(pow16(4) == 0x1_0000);
    assert(pow16(5) == 0x10_0000);
    assert(pow16(6) == 0x100_0000);
    assert(pow16(7) == 0x1000_0000);
    assert(pow16(8) == 0x1_0000_0000);
    assert(pow16(9) == 0x10_0000_0000);
    assert(pow16(10) == 0x100_0000_0000);
    assert(pow16(11) == 0x1000_0000_0000);
    assert(pow16(12) == 0x1_0000_0000_0000);
    assert(pow16(13) == 0x10_0000_0000_0000);
    assert(pow16(14) == 0x100_0000_0000_0000);
    assert(pow16(15) == 0x1000_0000_0000_0000);
    assert(pow16(16) == 0x1_0000_0000_0000_0000);
}

pub proof fn lemma_pow16_le(a: nat, b: nat)
    requires
        a <= b,
    ensures
        pow16(a) <= pow16(b),
    decreases b,
{
    if a < b && b > 0 {
        lemma_pow16_le(a, (b - 1) as nat);
        assert(pow16(b) == 16 * pow16((b - 1) as nat));
    }
}

/// What decoding yields: the unix seconds (the second count less the epoch
/// offset, read back as a signed 64-bit value) and the nanosecond count, or
/// nothing for a stamp of the wrong length, with a non-hex digit, or below
/// the epoch offset.
pub open spec fn spec_decode_tai64n(s: Seq<char>) -> Option<(int, nat)> {
    if s.len() == 24 && all_hex(s) && hex_val(s.subrange(0, 16)) >= TAI64_UNIX_OFFSET {
        Some(
            (
                wrap_u64_to_i64((hex_val(s.subrange(0, 16)) - TAI64_UNIX_OFFSET) as nat),
                hex_val(s.subrange(16, 24)),
            ),
        )
    } else {
        None
    }
}

/// Decode a TAI64N stamp into unix seconds and nanoseconds. Exactly 24 hex
/// digits are accepted; a second count below the epoch offset is rejected.
pub fn decode_tai64n(stamp: &str) -> (r: Option<(i64, u32)>)
    ensures
        match spec_decode_tai64n(stamp@) {
            Some(p) => r matches Some(t) && t.0 as int == p.0 && t.1 as nat == p.1,
            None => r is None,
        },
{
    let len = stamp.unicode_len();
    if len != 24 {
        return None;
    }
    let mut i: usize = 0;
    while i < 24
        invariant
            0 <= i <= 24,
            stamp@.len() == 24,
            forall|k: int| 0 <= k < i ==> is_hex_digit(#[trigger] stamp@[k]),
        decreases 24 - i,
    {
        let c = stamp.get_char(i);
        let ok = ('0' <= c && c <= '9') || ('a' <= c && c <= 'f') || ('A' <= c && c <= 'F');
        if !ok {
            return None;
        }
        i += 1;
    }
    let secs = hex_value(stamp, 0, 16);
    let nanos = hex_value(stamp, 16, 24);
    if secs < TAI64_UNIX_OFFSET {
        return None;
    }
    let unix: u64 = secs - TAI64_UNIX_OFFSET;
    let unix_signed: i64 = if unix <= i64::MAX as u64 {
        unix as i64
    } else {
        ((unix as i128) - 0x1_0000_0000_0000_0000i128) as i64
    };
    proof {
        let ns = stamp@.subrange(16, 24);
        assert(all_hex(ns));
        lemma_hex_val_bound(ns);
        lemma_pow16_values();
    }
    Some((unix_signed, nanos as u32))
}

} // verus!
