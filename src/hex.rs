//! Lower-case hexadecimal text: fixed-width numbers and byte strings.
use vstd::prelude::*;

verus! {

/// The ASCII character of a hexadecimal digit value (`0-9`, `a-f`).
pub open spec fn hex_digit(v: nat) -> u8 {
    if v < 10 {
        (48 + v) as u8
    } else {
        (87 + v) as u8
    }
}

/// The value of an ASCII hexadecimal digit, if it is one (lower case only).
pub open spec fn digit_value(c: u8) -> Option<nat> {
    if 48 <= c <= 57 {
        Some((c - 48) as nat)
    } else if 97 <= c <= 102 {
        Some((c - 87) as nat)
    } else {
        None
    }
}

pub open spec fn pow16(w: nat) -> nat
    decreases w,
{
    if w == 0 {
        1
    } else {
        16 * pow16((w - 1) as nat)
    }
}

/// `n` written with exactly `w` hexadecimal digits, most significant first.
pub open spec fn hex_width(n: nat, w: nat) -> Seq<u8>
    decreases w,
{
    if w == 0 {
        Seq::empty()
    } else {
        hex_width(n / 16, (w - 1) as nat).push(hex_digit(n % 16))
    }
}

/// The number that a string of hexadecimal digits denotes, if every byte is a digit.
pub open spec fn hex_value(s: Seq<u8>) -> Option<nat>
    decreases s.len(),
{
    if s.len() == 0 {
        Some(0)
    } else {
        match (hex_value(s.drop_last()), digit_value(s.last())) {
            (Some(a), Some(d)) => Some(a * 16 + d),
            _ => None,
        }
    }
}

/// Each byte as two hexadecimal digits.
pub open spec fn hex_bytes(b: Seq<u8>) -> Seq<u8> {
    Seq::new(
        2 * b.len(),
        |j: int|
            if j % 2 == 0 {
                hex_digit((b[j / 2] / 16) as nat)
            } else {
                hex_digit((b[j / 2] % 16) as nat)
            },
    )
}

pub proof fn lemma_digit_round_trip(v: nat)
    requires
        v < 16,
    ensures
        digit_value(hex_digit(v)) == Some(v),
{
}

pub proof fn lemma_pow16_positive(w: nat)
    ensures
        pow16(w) >= 1,
    decreases w,
{
    if w > 0 {
        lemma_pow16_positive((w - 1) as nat);
    }
}

/// Reading back a number written at a width large enough for it gives the number.
pub proof fn lemma_hex_round_trip(n: nat, w: nat)
    requires
        n < pow16(w),
    ensures
        hex_width(n, w).len() == w,
        hex_value(hex_width(n, w)) == Some(n),
    decreases w,
{
    if w == 0 {
    } else {
        let w1 = (w - 1) as nat;
        assert(n / 16 < pow16(w1)) by (nonlinear_arith)
            requires
                n < pow16(w),
                pow16(w) == 16 * pow16(w1),
        ;
        lemma_hex_round_trip(n / 16, w1);
        let s = hex_width(n, w);
        assert(s.drop_last() =~= hex_width(n / 16, w1));
        lemma_digit_round_trip(n % 16);
        assert((n / 16) * 16 + n % 16 == n) by (nonlinear_arith);
    }
}

/// Distinct byte strings have distinct hexadecimal forms.
pub proof fn lemma_hex_bytes_injective(a: Seq<u8>, b: Seq<u8>)
    requires
        hex_bytes(a) == hex_bytes(b),
    ensures
        a == b,
{
    assert(hex_bytes(a).len() == 2 * a.len() && hex_bytes(b).len() == 2 * b.len());
    assert(a.len() == b.len());
    assert forall|i: int| 0 <= i < a.len() implies a[i] == b[i] by {
        let ha = hex_bytes(a);
        let hb = hex_bytes(b);
        assert(ha[2 * i] == hb[2 * i]);
        assert(ha[2 * i + 1] == hb[2 * i + 1]);
        assert((2 * i) / 2 == i && (2 * i) % 2 == 0 && (2 * i + 1) / 2 == i && (2 * i + 1) % 2
            == 1);
        lemma_digit_round_trip((a[i] / 16) as nat);
        lemma_digit_round_trip((b[i] / 16) as nat);
        lemma_digit_round_trip((a[i] % 16) as nat);
        lemma_digit_round_trip((b[i] % 16) as nat);
    }
    assert(a =~= b);
}

pub fn digit_char(v: u8) -> (r: u8)
    requires
        v < 16,
    ensures
        r == hex_digit(v as nat),
{
    if v < 10 {
        48 + v
    } else {
        87 + v
    }
}

/// Appends `n` as exactly `w` hexadecimal digits.
pub fn push_hex(out: &mut Vec<u8>, n: u128, w: usize)
    ensures
        final(out)@ == old(out)@ + hex_width(n as nat, w as nat),
    decreases w,
{
    if w > 0 {
        push_hex(out, n / 16, w - 1);
        out.push(digit_char((n % 16) as u8));
        proof {
            assert(hex_width(n as nat, w as nat) =~= hex_width((n / 16) as nat, (w - 1) as nat).push(
                hex_digit((n % 16) as nat),
            ));
        }
    } else {
        assert(old(out)@ + hex_width(n as nat, w as nat) =~= old(out)@);
    }
}

/// Appends each byte of `b` as two hexadecimal digits.
pub fn push_hex_bytes(out: &mut Vec<u8>, b: &[u8])
    requires
        b@.len() < usize::MAX / 2,
    ensures
        final(out)@ == old(out)@ + hex_bytes(b@),
{
    let ghost start = out@;
    let mut i: usize = 0;
    while i < b.len()
        invariant
            i <= b@.len(),
            b@.len() < usize::MAX / 2,
            out@ =~= start + hex_bytes(b@.subrange(0, i as int)),
        decreases b@.len() - i,
    {
        let x = b[i];
        out.push(digit_char(x / 16));
        out.push(digit_char(x % 16));
        i = i + 1;
        proof {
            let h = hex_bytes(b@.subrange(0, i as int));
            let h0 = hex_bytes(b@.subrange(0, (i - 1) as int));
            assert forall|j: int| 0 <= j < h.len() implies #[trigger] h[j] == (h0 + seq![
                hex_digit((x / 16) as nat),
                hex_digit((x % 16) as nat),
            ])[j] by {
                if j < h0.len() {
                    assert(j / 2 < i - 1);
                } else {
                    assert(j / 2 == i - 1);
                }
            }
            assert(h =~= h0 + seq![hex_digit((x / 16) as nat), hex_digit((x % 16) as nat)]);
        }
    }
    assert(b@.subrange(0, b@.len() as int) =~= b@);
}

/// Reads `s[start..end]` as a hexadecimal number of at most 32 digits.
pub fn parse_hex(s: &[u8], start: usize, end: usize) -> (r: Option<u128>)
    requires
        start <= end <= s@.len(),
        end - start <= 32,
    ensures
        match hex_value(s@.subrange(start as int, end as int)) {
            Some(v) => r == Some(v as u128) && v < pow16((end - start) as nat),
            None => r is None,
        },
{
    let mut acc: u128 = 0;
    let mut i: usize = start;
    assert(s@.subrange(start as int, start as int) =~= Seq::<u8>::empty());
    while i < end
        invariant
            start <= i <= end,
            end <= s@.len(),
            end - start <= 32,
            hex_value(s@.subrange(start as int, i as int)) == Some(acc as nat),
            (acc as nat) < pow16((i - start) as nat),
        decreases end - i,
    {
        let c = s[i];
        let d: u128;
        if 48 <= c && c <= 57 {
            d = (c - 48) as u128;
        } else if 97 <= c && c <= 102 {
            d = (c - 87) as u128;
        } else {
            proof {
                let t = s@.subrange(start as int, (i + 1) as int);
                assert(t.drop_last() =~= s@.subrange(start as int, i as int));
                lemma_hex_none_extends(s@, start as int, (i + 1) as int, end as int);
            }
            return None;
        }
        proof {
            let k = (i - start) as nat;
            lemma_pow16_bound(k);
            assert((acc as nat) * 16 + d < pow16(k + 1)) by (nonlinear_arith)
                requires
                    (acc as nat) < pow16(k),
                    d < 16,
                    pow16(k + 1) == 16 * pow16(k),
            ;
            let t = s@.subrange(start as int, (i + 1) as int);
            assert(t.drop_last() =~= s@.subrange(start as int, i as int));
        }
        acc = acc * 16 + d;
        i = i + 1;
    }
    Some(acc)
}

proof fn lemma_pow16_bound(k: nat)
    requires
        k < 32,
    ensures
        pow16(k + 1) <= 0x1_0000_0000_0000_0000_0000_0000_0000_0000,
        pow16(k + 1) == 16 * pow16(k),
{
    lemma_pow16_monotone(k + 1, 32);
    lemma_pow16_values();
}

pub proof fn lemma_pow16_monotone(a: nat, b: nat)
    requires
        a <= b,
    ensures
        pow16(a) <= pow16(b),
    decreases b,
{
    if a < b {
        lemma_pow16_monotone(a, (b - 1) as nat);
        lemma_pow16_positive((b - 1) as nat);
    }
}

pub proof fn lemma_pow16_values()
    ensures
        pow16(16) == 0x1_0000_0000_0000_0000,
        pow16(32) == 0x1_0000_0000_0000_0000_0000_0000_0000_0000,
{
    reveal_with_fuel(pow16, 33);
}

/// A string with a non-digit stays without a value when more is appended.
proof fn lemma_hex_none_extends(s: Seq<u8>, a: int, m: int, e: int)
    requires
        0 <= a <= m <= e <= s.len(),
        hex_value(s.subrange(a, m)) is None,
    ensures
        hex_value(s.subrange(a, e)) is None,
    decreases e - m,
{
    if e > m {
        lemma_hex_none_extends(s, a, m, e - 1);
        assert(s.subrange(a, e).drop_last() =~= s.subrange(a, e - 1));
    }
}

} // verus!
