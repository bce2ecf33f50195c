//! LEB128 variable-length integers: what the encodings are, how they decode,
//! and the calls into the `leb128` crate that produce them.
use vstd::prelude::*;

verus! {

/// Unsigned LEB128: seven bits per byte, least significant group first, the
/// high bit set on every byte but the last.
pub open spec fn uleb(n: nat) -> Seq<u8>
    decreases n,
{
    if n < 128 {
        seq![n as u8]
    } else {
        seq![(n % 128 + 128) as u8] + uleb(n / 128)
    }
}

/// Signed LEB128: two's-complement groups of seven bits, ending at the first
/// group whose remaining value is all zeros or all ones and whose bit six
/// matches the sign.
pub open spec fn sleb(x: int) -> Seq<u8>
    decreases (if x < 0 { -x } else { x }),
{
    if -64 <= x < 64 {
        seq![(x % 128) as u8]
    } else {
        seq![(x % 128 + 128) as u8] + sleb(x / 128)
    }
}

/// A byte string framed as one LEB128 number: non-empty, every byte but the
/// last carries the continuation bit, the last does not.
pub open spec fn leb_framed(s: Seq<u8>) -> bool {
    &&& s.len() > 0
    &&& s.last() < 128
    &&& forall|i: int| 0 <= i < s.len() - 1 ==> s[i] >= 128
}

/// The value of an unsigned LEB128 byte string.
pub open spec fn uleb_value(s: Seq<u8>) -> nat
    decreases s.len(),
{
    if s.len() == 0 {
        0
    } else {
        (s[0] % 128) as nat + 128 * uleb_value(s.drop_first())
    }
}

/// The value of a signed LEB128 byte string: the last group is sign-extended
/// from its bit six.
pub open spec fn sleb_value(s: Seq<u8>) -> int
    decreases s.len(),
{
    if s.len() == 0 {
        0
    } else if s.len() == 1 {
        if s[0] % 128 >= 64 {
            (s[0] % 128) as int - 128
        } else {
            (s[0] % 128) as int
        }
    } else {
        (s[0] % 128) as int + 128 * sleb_value(s.drop_first())
    }
}


/// `128` raised to the power `k`.
pub open spec fn pow128(k: nat) -> nat
    decreases k,
{
    if k == 0 {
        1
    } else {
        128 * pow128((k - 1) as nat)
    }
}

/// Decoding the unsigned encoding of `n` gives `n` back, and the encoding is
/// framed: the last byte alone has its high bit clear.
pub proof fn lemma_uleb_round_trip(n: nat)
    ensures
        leb_framed(uleb(n)),
        uleb_value(uleb(n)) == n,
    decreases n,
{
    if n >= 128 {
        lemma_uleb_round_trip(n / 128);
        let s = uleb(n);
        let t = uleb(n / 128);
        assert(s.drop_first() =~= t);
        assert(s[0] % 128 == n % 128);
        assert(uleb_value(s) == n % 128 + 128 * (n / 128));
        assert forall|i: int| 0 <= i < s.len() - 1 implies s[i] >= 128 by {
            if i > 0 {
                assert(s[i] == t[i - 1]);
            }
        }
    } else {
        assert(uleb_value(uleb(n).drop_first()) == 0);
    }
}

/// A number below `128^k` takes at most `k` bytes in unsigned LEB128.
pub proof fn lemma_uleb_len(n: nat, k: nat)
    requires
        k >= 1,
        n < pow128(k),
    ensures
        uleb(n).len() <= k,
    decreases k,
{
    if n >= 128 {
        assert(k >= 2) by {
            if k == 1 {
                assert(pow128(0) == 1);
            }
        }
        lemma_uleb_len(n / 128, (k - 1) as nat);
    }
}

/// Decoding the signed encoding of `x` gives `x` back, and the encoding is
/// framed.
pub proof fn lemma_sleb_round_trip(x: int)
    ensures
        leb_framed(sleb(x)),
        sleb_value(sleb(x)) == x,
    decreases (if x < 0 { -x } else { x }),
{
    if !(-64 <= x < 64) {
        lemma_sleb_round_trip(x / 128);
        let s = sleb(x);
        let t = sleb(x / 128);
        assert(s.drop_first() =~= t);
        assert forall|i: int| 0 <= i < s.len() - 1 implies s[i] >= 128 by {
            if i > 0 {
                assert(s[i] == t[i - 1]);
            }
        }
    }
}

/// A number in `[-64 * 128^(k-1), 64 * 128^(k-1))` takes at most `k` bytes in
/// signed LEB128.
pub proof fn lemma_sleb_len(x: int, k: nat)
    requires
        k >= 1,
        -64 * pow128((k - 1) as nat) <= x < 64 * pow128((k - 1) as nat),
    ensures
        sleb(x).len() <= k,
    decreases k,
{
    if !(-64 <= x < 64) {
        assert(k >= 2) by {
            if k == 1 {
                assert(pow128(0) == 1);
            }
        }
        assert(pow128((k - 1) as nat) == 128 * pow128((k - 2) as nat));
        lemma_sleb_len(x / 128, (k - 1) as nat);
    }
}

/// Unsigned LEB128 is the shortest framed encoding: no framed byte string
/// whose value is `n` is shorter than `uleb(n)`.
pub proof fn lemma_uleb_shortest(n: nat, s: Seq<u8>)
    requires
        leb_framed(s),
        uleb_value(s) == n,
    ensures
        uleb(n).len() <= s.len(),
    decreases s.len(),
{
    let t = s.drop_first();
    if s.len() > 1 {
        assert(leb_framed(t)) by {
            assert forall|i: int| 0 <= i < t.len() - 1 implies t[i] >= 128 by {
                assert(t[i] == s[i + 1]);
            }
        }
        lemma_uleb_shortest(uleb_value(t), t);
        if n >= 128 {
            assert(n / 128 == uleb_value(t));
        }
    } else {
        assert(uleb_value(t) == 0);
    }
}

/// Signed LEB128 is the shortest framed encoding: no framed byte string whose
/// signed value is `x` is shorter than `sleb(x)`.
pub proof fn lemma_sleb_shortest(x: int, s: Seq<u8>)
    requires
        leb_framed(s),
        sleb_value(s) == x,
    ensures
        sleb(x).len() <= s.len(),
    decreases s.len(),
{
    if s.len() > 1 {
        let t = s.drop_first();
        assert(leb_framed(t)) by {
            assert forall|i: int| 0 <= i < t.len() - 1 implies t[i] >= 128 by {
                assert(t[i] == s[i + 1]);
            }
        }
        lemma_sleb_shortest(sleb_value(t), t);
        assert(x / 128 == sleb_value(t));
    }
}

/// Every `u32` comes back from its unsigned LEB128 encoding, which is framed
/// and at most five bytes long.
pub proof fn lemma_u32_round_trip(x: u32)
    ensures
        uleb_value(uleb(x as nat)) == x,
        leb_framed(uleb(x as nat)),
        uleb(x as nat).len() <= 5,
{
    lemma_uleb_round_trip(x as nat);
    reveal_with_fuel(pow128, 6);
    assert(pow128(5) == 0x8_0000_0000);
    lemma_uleb_len(x as nat, 5);
}

/// Every `u64` comes back from its unsigned LEB128 encoding, which is framed
/// and at most ten bytes long.
pub proof fn lemma_u64_round_trip(x: u64)
    ensures
        uleb_value(uleb(x as nat)) == x,
        leb_framed(uleb(x as nat)),
        uleb(x as nat).len() <= 10,
{
    lemma_uleb_round_trip(x as nat);
    reveal_with_fuel(pow128, 11);
    assert(pow128(10) == 0x40_0000_0000_0000_0000);
    lemma_uleb_len(x as nat, 10);
}

/// Every `i32` comes back from its signed LEB128 encoding, which is framed
/// and at most five bytes long.
pub proof fn lemma_i32_round_trip(x: i32)
    ensures
        sleb_value(sleb(x as int)) == x,
        leb_framed(sleb(x as int)),
        sleb(x as int).len() <= 5,
{
    lemma_sleb_round_trip(x as int);
    reveal_with_fuel(pow128, 5);
    assert(pow128(4) == 0x1000_0000);
    lemma_sleb_len(x as int, 5);
}

/// Every `i64` comes back from its signed LEB128 encoding, which is framed
/// and at most ten bytes long.
pub proof fn lemma_i64_round_trip(x: i64)
    ensures
        sleb_value(sleb(x as int)) == x,
        leb_framed(sleb(x as int)),
        sleb(x as int).len() <= 10,
{
    lemma_sleb_round_trip(x as int);
    reveal_with_fuel(pow128, 10);
    assert(pow128(9) == 0x8000_0000_0000_0000);
    lemma_sleb_len(x as int, 10);
}

/// Relies on leb128::write::unsigned: it appends the unsigned LEB128 encoding
/// of `val`; writing into a `Vec<u8>` never fails.
#[verifier::external_body]
pub(crate) fn write_unsigned(out: &mut Vec<u8>, val: u64)
    ensures
        final(out)@ == old(out)@ + uleb(val as nat),
{
    let _ = leb128::write::unsigned(out, val);
}

/// Relies on leb128::write::signed: it appends the signed LEB128 encoding of
/// `val`; writing into a `Vec<u8>` never fails.
#[verifier::external_body]
pub(crate) fn write_signed(out: &mut Vec<u8>, val: i64)
    ensures
        final(out)@ == old(out)@ + sleb(val as int),
{
    let _ = leb128::write::signed(out, val);
}

} // verus!
