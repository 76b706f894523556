use vstd::prelude::*;

verus! {

/// `String::push` appends one character.
pub assume_specification[ String::push ](s: &mut String, ch: char)
    ensures
        final(s)@ == old(s)@.push(ch),
;

/// `String::push_str` appends the characters of a string slice.
pub assume_specification[ String::push_str ](s: &mut String, string: &str)
    ensures
        final(s)@ == old(s)@ + string@,
;

/// The character of digit `d` (0-15): '0'-'9', then 'A'-'F'.
pub open spec fn digit_char(d: nat) -> char {
    if d < 10 {
        (48 + d) as char
    } else {
        (55 + d) as char
    }
}

/// `v` in upper-case hexadecimal, most significant digit first.
pub open spec fn hex_digits(v: nat) -> Seq<char>
    decreases v,
{
    if v < 16 {
        seq![digit_char(v)]
    } else {
        hex_digits(v / 16).push(digit_char(v % 16))
    }
}

/// `v` in decimal, most significant digit first.
pub open spec fn dec_digits(v: nat) -> Seq<char>
    decreases v,
{
    if v < 10 {
        seq![digit_char(v)]
    } else {
        dec_digits(v / 10).push(digit_char(v % 10))
    }
}

/// `v` in upper-case hexadecimal, zero-padded to at least `width` digits.
pub open spec fn hex_padded(v: nat, width: nat) -> Seq<char> {
    let d = hex_digits(v);
    if d.len() >= width {
        d
    } else {
        Seq::new((width - d.len()) as nat, |i: int| '0') + d
    }
}

/// The character of a digit below 16.
fn digit(d: u64) -> (c: char)
    requires
        d < 16,
    ensures
        c == digit_char(d as nat),
{
    let b: u8 = if d < 10 {
        48 + d as u8
    } else {
        55 + d as u8
    };
    b as char
}

/// Appends `v` in upper-case hexadecimal.
pub fn push_hex(s: &mut String, v: u64)
    ensures
        final(s)@ == old(s)@ + hex_digits(v as nat),
    decreases v,
{
    if v >= 16 {
        push_hex(s, v / 16);
    }
    s.push(digit(v % 16));
}

/// The number of hexadecimal digits of `v`.
fn hex_len(v: u64) -> (n: usize)
    ensures
        n == hex_digits(v as nat).len(),
        n <= 16,
    decreases v,
{
    if v >= 16 {
        proof {
            lemma_hex_len_bound(v as nat);
        }
        hex_len(v / 16) + 1
    } else {
        1
    }
}

/// 16 to the `k`.
spec fn pow16(k: nat) -> nat
    decreases k,
{
    if k == 0 {
        1
    } else {
        16 * pow16((k - 1) as nat)
    }
}

/// A value below 16 to the `k` has at most `k` hexadecimal digits (for
/// `k` of at least 1).
proof fn lemma_hex_len_below(v: nat, k: nat)
    requires
        1 <= k,
        v < pow16(k),
    ensures
        hex_digits(v).len() <= k,
    decreases k,
{
    reveal_with_fuel(pow16, 2);
    if v >= 16 && k > 1 {
        assert(pow16(k) == 16 * pow16((k - 1) as nat));
        lemma_hex_len_below(v / 16, (k - 1) as nat);
    }
}

/// A 64-bit value has at most 16 hexadecimal digits.
proof fn lemma_hex_len_bound(v: nat)
    requires
        v <= u64::MAX,
    ensures
        hex_digits(v).len() <= 16,
{
    assert(pow16(16) == 0x1_0000_0000_0000_0000) by {
        reveal_with_fuel(pow16, 17);
    }
    lemma_hex_len_below(v, 16);
}

/// Appends `v` in upper-case hexadecimal, zero-padded to `width` digits.
pub fn push_hex_padded(s: &mut String, v: u64, width: usize)
    ensures
        final(s)@ == old(s)@ + hex_padded(v as nat, width as nat),
{
    let n = hex_len(v);
    let ghost s0 = s@;
    if n < width {
        let mut i: usize = n;
        while i < width
            invariant
                n <= i <= width,
                s@ == s0 + Seq::new((i - n) as nat, |k: int| '0'),
            decreases width - i,
        {
            s.push('0');
            i = i + 1;
            assert(s@ =~= s0 + Seq::new((i - n) as nat, |k: int| '0'));
        }
    }
    push_hex(s, v);
    assert(s@ =~= s0 + hex_padded(v as nat, width as nat));
}

/// Appends `v` in decimal.
pub fn push_dec(s: &mut String, v: u64)
    ensures
        final(s)@ == old(s)@ + dec_digits(v as nat),
    decreases v,
{
    if v >= 10 {
        push_dec(s, v / 10);
    }
    s.push(digit(v % 10));
}

} // verus!
