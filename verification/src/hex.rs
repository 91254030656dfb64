use vstd::prelude::*;

verus! {

/// `c` is an ASCII hexadecimal digit, in either case.
pub open spec fn is_hex_digit(c: char) -> bool {
    ('0' <= c && c <= '9') || ('a' <= c && c <= 'f') || ('A' <= c && c <= 'F')
}

/// Every character of `s` is a hexadecimal digit.
pub open spec fn all_hex_digits(s: Seq<char>) -> bool {
    forall|i: int| 0 <= i < s.len() ==> is_hex_digit(#[trigger] s[i])
}

/// The value of one hexadecimal digit.
pub open spec fn hex_digit_value(c: char) -> nat {
    if '0' <= c && c <= '9' {
        (c as nat - '0' as nat) as nat
    } else if 'a' <= c && c <= 'f' {
        (c as nat - 'a' as nat + 10) as nat
    } else {
        (c as nat - 'A' as nat + 10) as nat
    }
}

/// The number that the hexadecimal digits `s` denote, most significant first.
pub open spec fn hex_value(s: Seq<char>) -> nat
    decreases s.len(),
{
    if s.len() == 0 {
        0
    } else {
        hex_value(s.drop_last()) * 16 + hex_digit_value(s.last())
    }
}

/// The digits of a hex string: a leading lowercase `0x` is dropped when
/// something follows it; otherwise the string is taken whole.
pub open spec fn hex_digits_of(s: Seq<char>) -> Seq<char> {
    if s.len() > 2 && s[0] == '0' && s[1] == 'x' {
        s.skip(2)
    } else {
        s
    }
}

/// Whether `c` is a hexadecimal digit.
pub fn is_hex_char(c: char) -> (b: bool)
    ensures
        b == is_hex_digit(c),
{
    ('0' <= c && c <= '9') || ('a' <= c && c <= 'f') || ('A' <= c && c <= 'F')
}

/// Where the digits of `s` start: 2 when `s` carries a `0x` prefix followed
/// by something, 0 otherwise.
pub fn hex_digits_start(s: &str) -> (start: usize)
    ensures
        start <= s@.len(),
        hex_digits_of(s@) == s@.skip(start as int),
{
    let n = s.unicode_len();
    if n > 2 && s.get_char(0) == '0' && s.get_char(1) == 'x' {
        2
    } else {
        assert(s@.skip(0) =~= s@);
        0
    }
}

/// The hexadecimal digits are exactly `0`-`9`, `a`-`f` and `A`-`F`, with
/// values 0-9, 10-15 and 10-15.
pub proof fn law_hex_digits(c: char)
    ensures
        is_hex_digit(c) <==> (('0' <= c && c <= '9') || ('a' <= c && c <= 'f') || ('A' <= c && c <= 'F')),
        '0' <= c && c <= '9' ==> hex_digit_value(c) == c as int - 48,
        'a' <= c && c <= 'f' ==> hex_digit_value(c) == c as int - 87,
        'A' <= c && c <= 'F' ==> hex_digit_value(c) == c as int - 55,
        is_hex_digit(c) ==> hex_digit_value(c) < 16,
{
}

/// A digit string denotes its number in base 16, most significant digit
/// first: the empty string is 0, and a digit appended at the end multiplies
/// by 16 and adds the digit.
pub proof fn law_hex_value_base16(s: Seq<char>, c: char)
    ensures
        hex_value(Seq::<char>::empty()) == 0,
        hex_value(s.push(c)) == 16 * hex_value(s) + hex_digit_value(c),
{
    assert(s.push(c).drop_last() =~= s);
}

/// Leading zeros do not change the number a digit string denotes.
pub proof fn law_hex_value_leading_zeros(zeros: nat, s: Seq<char>)
    ensures
        hex_value(Seq::new(zeros, |i: int| '0') + s) == hex_value(s),
    decreases s.len(),
{
    let z = Seq::new(zeros, |i: int| '0');
    if s.len() == 0 {
        assert(z + s =~= z);
        lemma_zeros_value(zeros);
    } else {
        law_hex_value_leading_zeros(zeros, s.drop_last());
        assert((z + s).drop_last() =~= z + s.drop_last());
        assert((z + s).last() == s.last());
    }
}

proof fn lemma_zeros_value(zeros: nat)
    ensures
        hex_value(Seq::new(zeros, |i: int| '0')) == 0,
    decreases zeros,
{
    if zeros > 0 {
        lemma_zeros_value((zeros - 1) as nat);
        assert(Seq::new(zeros, |i: int| '0').drop_last() =~= Seq::new((zeros - 1) as nat, |i: int| '0'));
    }
}

/// A lowercase `0x` prefix is dropped whenever something follows it, however
/// long that is; a string that does not start with `0x`, and `0x` alone, are
/// taken whole.
pub proof fn law_hex_prefix(s: Seq<char>)
    ensures
        s.len() > 0 ==> hex_digits_of(seq!['0', 'x'] + s) == s,
        !(s.len() >= 2 && s[0] == '0' && s[1] == 'x') ==> hex_digits_of(s) == s,
        hex_digits_of(seq!['0', 'x']) == seq!['0', 'x'],
{
    if s.len() > 0 {
        assert((seq!['0', 'x'] + s).skip(2) =~= s);
    }
}

} // verus!
