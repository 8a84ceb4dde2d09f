use vstd::prelude::*;

verus! {

/// The byte of the lowercase hex digit for a nibble value in `[0, 16)`.
pub open spec fn hex_digit(n: int) -> u8 {
    if n < 10 {
        (0x30 + n) as u8
    } else {
        (0x57 + n) as u8
    }
}

/// Whether a byte is a lowercase hex digit, `b'0'..=b'9'` or `b'a'..=b'f'`.
pub open spec fn is_hex_digit(b: u8) -> bool {
    (0x30 <= b && b <= 0x39) || (0x61 <= b && b <= 0x66)
}

/// The nibble value of a lowercase hex digit byte.
pub open spec fn nibble_value(b: u8) -> int {
    if b <= 0x39 {
        b - 0x30
    } else {
        b - 0x57
    }
}

/// The zero-padded lowercase hex encoding of `i` at fixed width `w`:
/// the `w` lowest hex digits of `i`, most significant first.
pub open spec fn hex_encode(i: int, w: nat) -> Seq<u8>
    decreases w,
{
    if w == 0 {
        Seq::empty()
    } else {
        hex_encode(i / 16, (w - 1) as nat).push(hex_digit(i % 16))
    }
}

/// The integer that a sequence of lowercase hex digit bytes denotes.
pub open spec fn hex_decode(s: Seq<u8>) -> int
    decreases s.len(),
{
    if s.len() == 0 {
        0
    } else {
        hex_decode(s.drop_last()) * 16 + nibble_value(s.last())
    }
}

/// Encode `i` as exactly `width` lowercase hex digits, zero-padded,
/// most significant digit first; digits of `i` above the width are dropped.
pub fn encode_index(i: u128, width: usize) -> (r: Vec<u8>)
    ensures
        r@ == hex_encode(i as int, width as nat),
        r@.len() == width,
    decreases width,
{
    if width == 0 {
        Vec::new()
    } else {
        let mut r = encode_index(i / 16, width - 1);
        let n: u8 = (i % 16) as u8;
        if n < 10 {
            r.push(0x30 + n);
        } else {
            r.push(0x61 + (n - 10));
        }
        assert(r@ =~= hex_encode(i as int, width as nat));
        r
    }
}

/// The value denoted by `w` hex digits is below `16^w`.
pub proof fn lemma_hex_decode_bound(s: Seq<u8>)
    requires
        forall|k: int| 0 <= k < s.len() ==> is_hex_digit(#[trigger] s[k]),
    ensures
        0 <= hex_decode(s) < crate::pow16(s.len()),
    decreases s.len(),
{
    if s.len() > 0 {
        lemma_hex_decode_bound(s.drop_last());
    }
}

/// `pow16` grows with its exponent.
pub proof fn lemma_pow16_monotonic(a: nat, b: nat)
    requires
        a <= b,
    ensures
        crate::pow16(a) <= crate::pow16(b),
    decreases b,
{
    if a < b {
        lemma_pow16_monotonic(a, (b - 1) as nat);
    }
}

/// The full 32-digit space is exactly `2^128`, one more than `u128::MAX`.
pub proof fn lemma_pow16_32()
    ensures
        crate::pow16(32) == 0x1_0000_0000_0000_0000_0000_0000_0000_0000,
{
    reveal_with_fuel(crate::pow16, 33);
}

/// Decode a string of at most 32 lowercase hex digit bytes back to its index.
pub fn decode_index(s: &Vec<u8>) -> (r: u128)
    requires
        s@.len() <= 32,
        forall|k: int| 0 <= k < s@.len() ==> is_hex_digit(#[trigger] s@[k]),
    ensures
        r as int == hex_decode(s@),
{
    let mut acc: u128 = 0;
    let mut k: usize = 0;
    while k < s.len()
        invariant
            0 <= k <= s@.len(),
            s@.len() <= 32,
            forall|j: int| 0 <= j < s@.len() ==> is_hex_digit(#[trigger] s@[j]),
            acc as int == hex_decode(s@.take(k as int)),
        decreases s@.len() - k,
    {
        let b: u8 = s[k];
        let v: u8 = if b <= 0x39 {
            b - 0x30
        } else {
            b - 0x57
        };
        proof {
            assert(s@.take(k as int + 1).drop_last() =~= s@.take(k as int));
            assert(s@.take(k as int + 1).last() == s@[k as int]);
            lemma_hex_decode_bound(s@.take(k as int + 1));
            lemma_pow16_monotonic((k + 1) as nat, 32);
            lemma_pow16_32();
        }
        acc = acc * 16 + (v as u128);
        k = k + 1;
    }
    proof {
        assert(s@.take(s@.len() as int) =~= s@);
    }
    acc
}

/// The enumerator is a bijection, one direction: decoding the fixed-width
/// encoding of any in-range index gives that index back; and the encoding
/// is always `w` digits long, all of them lowercase hex.
pub proof fn lemma_decode_encode(i: int, w: nat)
    requires
        0 <= i < crate::pow16(w),
    ensures
        hex_decode(hex_encode(i, w)) == i,
        hex_encode(i, w).len() == w,
        forall|k: int| 0 <= k < w ==> is_hex_digit(#[trigger] hex_encode(i, w)[k]),
    decreases w,
{
    if w > 0 {
        assert(crate::pow16(w) == 16 * crate::pow16((w - 1) as nat));
        assert(i / 16 < crate::pow16((w - 1) as nat)) by {
            vstd::arithmetic::div_mod::lemma_fundamental_div_mod(i, 16);
        }
        lemma_decode_encode(i / 16, (w - 1) as nat);
        assert(hex_encode(i, w).drop_last() =~= hex_encode(i / 16, (w - 1) as nat));
        assert(hex_decode(hex_encode(i, w)) == (i / 16) * 16 + (i % 16));
        vstd::arithmetic::div_mod::lemma_fundamental_div_mod(i, 16);
        assert forall|k: int| 0 <= k < w implies is_hex_digit(#[trigger] hex_encode(i, w)[k]) by {
            if k < w - 1 {
                assert(hex_encode(i, w)[k] == hex_encode(i / 16, (w - 1) as nat)[k]);
            }
        }
    }
}

/// The enumerator is a bijection, other direction: encoding the value that a
/// fixed-width string of lowercase hex digits denotes gives that string back.
pub proof fn lemma_encode_decode(s: Seq<u8>)
    requires
        forall|k: int| 0 <= k < s.len() ==> is_hex_digit(#[trigger] s[k]),
    ensures
        hex_encode(hex_decode(s), s.len()) == s,
    decreases s.len(),
{
    if s.len() > 0 {
        let init = s.drop_last();
        let lastb: u8 = s.last();
        assert(is_hex_digit(lastb));
        lemma_encode_decode(init);
        lemma_hex_decode_bound(init);
        let d: int = hex_decode(s);
        assert(d == hex_decode(init) * 16 + nibble_value(lastb));
        vstd::arithmetic::div_mod::lemma_fundamental_div_mod_converse(
            d, 16, hex_decode(init), nibble_value(lastb));
        assert(hex_digit(nibble_value(lastb)) == lastb);
        assert(hex_encode(d, s.len()) =~= s);
    }
}

} // verus!
