use vstd::prelude::*;

use crate::error::DojoError;
use crate::hex::{
    all_hex_digits, hex_digits_of, hex_digits_start, hex_value, is_hex_char, is_hex_digit,
    law_hex_digits, law_hex_prefix, law_hex_value_leading_zeros,
};

verus! {

/// A 256-bit token id as the bindings receive it: a hex string.
pub type U256 = String;

#[verifier::external_type_specification]
#[verifier::external_body]
pub struct ExUint<const LIMBS: usize>(crypto_bigint::Uint<LIMBS>);

/// The token ids the bindings accept: after an optional `0x` prefix, one to
/// 64 hexadecimal digits (either case).
pub open spec fn token_id_accepted(s: Seq<char>) -> bool {
    let digits = hex_digits_of(s);
    0 < digits.len() <= 64 && all_hex_digits(digits)
}

/// The 64-digit big-endian form of an accepted token id: its digits,
/// left-padded with zeros.
pub open spec fn padded_token_id(s: Seq<char>) -> Seq<char> {
    let digits = hex_digits_of(s);
    Seq::new((64 - digits.len()) as nat, |i: int| '0') + digits
}

/// The 256-bit integer that `crypto_bigint::U256::from_be_hex` decodes from
/// 64 hexadecimal digits.
pub uninterp spec fn decoded_u256(hex: Seq<char>) -> crypto_bigint::U256;

/// `crypto_bigint::U256::from_be_hex`: decodes exactly 64 hexadecimal digits,
/// most significant first. Its source panics unless the string is 64 bytes
/// long and every byte is a hex digit, which `requires` rules out. Its result
/// is named, not described.
#[verifier::external_body]
fn u256_from_be_hex(hex: &str) -> (r: crypto_bigint::U256)
    requires
        hex@.len() == 64,
        all_hex_digits(hex@),
    ensures
        r == decoded_u256(hex@),
{
    crypto_bigint::U256::from_be_hex(hex)
}

/// Checks a token id and brings it to its 64-digit big-endian form.
pub fn normalize_token_id(id: &str) -> (r: Option<String>)
    ensures
        r is Some <==> token_id_accepted(id@),
        r is Some ==> r->0@ == padded_token_id(id@),
{
    let n = id.unicode_len();
    let start = hex_digits_start(id);
    let len = n - start;
    if len == 0 || len > 64 {
        return None;
    }
    let ghost digits = hex_digits_of(id@);
    let mut i = start;
    while i < n
        invariant
            start <= i <= n,
            n == id@.len(),
            digits == id@.skip(start as int),
            digits == hex_digits_of(id@),
            forall|j: int| 0 <= j < i - start ==> is_hex_digit(#[trigger] digits[j]),
        decreases n - i,
    {
        if !is_hex_char(id.get_char(i)) {
            assert(digits[i - start] == id@[i as int]);
            assert(!is_hex_digit(digits[i - start]));
            return None;
        }
        i += 1;
    }
    let mut out = String::new();
    let pad = 64 - len;
    let mut k: usize = 0;
    while k < pad
        invariant
            k <= pad,
            pad == 64 - len,
            out@ == Seq::new(k as nat, |j: int| '0'),
        decreases pad - k,
    {
        proof {
            reveal_strlit("0");
        }
        out.append("0");
        assert(out@ =~= Seq::new((k + 1) as nat, |j: int| '0'));
        k += 1;
    }
    let body = id.substring_char(start, n);
    assert(body@ =~= digits);
    out.append(body);
    Some(out)
}

/// Parses a token id given as a hex string into a 256-bit integer.
pub fn uniffi_to_u256(id: &U256) -> (r: Result<crypto_bigint::U256, DojoError>)
    ensures
        r is Ok <==> token_id_accepted(id@),
        r is Ok ==> r->Ok_0 == decoded_u256(padded_token_id(id@)),
        r is Err ==> r->Err_0 == DojoError::InvalidInput,
{
    match normalize_token_id(id.as_str()) {
        Some(padded) => {
            assert(all_hex_digits(padded@)) by {
                let digits = hex_digits_of(id@);
                let zeros = Seq::new((64 - digits.len()) as nat, |i: int| '0');
                assert forall|i: int| 0 <= i < padded@.len() implies is_hex_digit(#[trigger] padded@[i]) by {
                    if i < zeros.len() {
                        assert(padded@[i] == zeros[i]);
                    } else {
                        assert(padded@[i] == digits[i - zeros.len()]);
                    }
                }
            }
            Ok(u256_from_be_hex(padded.as_str()))
        },
        None => Err(DojoError::InvalidInput),
    }
}

/// `values` is what the token id decoder makes of the strings `ids`, one for one.
pub open spec fn decodes_to(ids: Seq<U256>, values: Seq<crypto_bigint::U256>) -> bool {
    &&& values.len() == ids.len()
    &&& forall|i: int| 0 <= i < ids.len() ==> #[trigger] values[i] == decoded_u256(padded_token_id(ids[i]@))
}

/// Parses every token id of a list, in order; the whole list fails as soon
/// as one id is not well formed.
pub fn token_ids_to_u256s(ids: &Vec<U256>) -> (r: Result<Vec<crypto_bigint::U256>, DojoError>)
    ensures
        r is Ok <==> (forall|i: int| 0 <= i < ids.len() ==> token_id_accepted(#[trigger] ids@[i]@)),
        r is Ok ==> decodes_to(ids@, r->Ok_0@),
        r is Err ==> r->Err_0 == DojoError::InvalidInput,
{
    let mut out: Vec<crypto_bigint::U256> = Vec::new();
    let mut i: usize = 0;
    while i < ids.len()
        invariant
            i <= ids.len(),
            out.len() == i,
            forall|j: int| 0 <= j < i ==> token_id_accepted(#[trigger] ids@[j]@),
            forall|j: int| 0 <= j < i ==> #[trigger] out@[j] == decoded_u256(padded_token_id(ids@[j]@)),
        decreases ids.len() - i,
    {
        match uniffi_to_u256(&ids[i]) {
            Ok(v) => out.push(v),
            Err(e) => return Err(e),
        }
        i += 1;
    }
    Ok(out)
}

/// A decoded list has one integer per string, each the decoding of the
/// padded string at the same position.
pub proof fn law_decodes_to(ids: Seq<U256>, values: Seq<crypto_bigint::U256>)
    ensures
        decodes_to(ids, values) <==> (values.len() == ids.len() && forall|i: int| 0 <= i < ids.len()
            ==> #[trigger] values[i] == decoded_u256(padded_token_id(ids[i]@))),
{
}

/// A token id is one to 64 digits from `0`-`9`, `a`-`f`, `A`-`F`, with or
/// without a `0x` prefix; its padded form denotes the same number as its
/// digits. Longer digit strings, and strings with any other character, are
/// refused.
pub proof fn law_token_ids(d: Seq<char>)
    ensures
        (0 < d.len() <= 64 && forall|i: int| 0 <= i < d.len() ==> (('0' <= #[trigger] d[i] && d[i] <= '9')
            || ('a' <= d[i] && d[i] <= 'f') || ('A' <= d[i] && d[i] <= 'F'))) ==> {
            &&& token_id_accepted(seq!['0', 'x'] + d)
            &&& padded_token_id(seq!['0', 'x'] + d).len() == 64
            &&& hex_value(padded_token_id(seq!['0', 'x'] + d)) == hex_value(d)
        },
        d.len() > 64 ==> !token_id_accepted(seq!['0', 'x'] + d),
        (exists|i: int| 0 <= i < d.len() && !(('0' <= #[trigger] d[i] && d[i] <= '9')
            || ('a' <= d[i] && d[i] <= 'f') || ('A' <= d[i] && d[i] <= 'F')))
            ==> !token_id_accepted(seq!['0', 'x'] + d),
{
    if d.len() > 0 {
        law_hex_prefix(d);
        law_hex_value_leading_zeros((64 - d.len()) as nat, d);
        assert forall|i: int| 0 <= i < d.len() implies (is_hex_digit(d[i]) <==> (('0' <= d[i] && d[i] <= '9')
            || ('a' <= d[i] && d[i] <= 'f') || ('A' <= d[i] && d[i] <= 'F'))) by {
            law_hex_digits(d[i]);
        }
    }
}

/// Without the prefix a token id is read the same way.
pub proof fn law_token_ids_unprefixed(d: Seq<char>)
    requires
        d.len() > 0,
        !(d.len() >= 2 && d[0] == '0' && d[1] == 'x'),
    ensures
        token_id_accepted(d) == token_id_accepted(seq!['0', 'x'] + d),
        padded_token_id(d) == padded_token_id(seq!['0', 'x'] + d),
{
    law_hex_prefix(d);
}

} // verus!
