use vstd::prelude::*;

use crate::error::DojoError;
use crate::hex::{all_hex_digits, hex_digits_of, hex_value, is_hex_digit, law_hex_digits, law_hex_prefix};

verus! {

/// A Starknet field element as the bindings receive it: a hex string.
pub type FieldElement = String;

#[verifier::external_type_specification]
#[verifier::external_body]
pub struct ExFelt(starknet::core::types::Felt);

/// The modulus of the Stark field, 2^251 + 17 * 2^192 + 1.
pub open spec fn stark_prime() -> nat {
    0x800000000000011000000000000000000000000000000000000000000000001nat
}

/// The hex strings that the Starknet field parser accepts: after an optional
/// `0x` prefix, one to 64 hexadecimal digits (either case) whose value is at
/// most the field modulus.
pub open spec fn felt_hex_accepted(s: Seq<char>) -> bool {
    let digits = hex_digits_of(s);
    &&& 0 < digits.len() <= 64
    &&& all_hex_digits(digits)
    &&& hex_value(digits) <= stark_prime()
}

/// The field element that `Felt::from_hex` makes of a hex string, `None`
/// where it refuses the string.
pub uninterp spec fn parsed_felt(hex: Seq<char>) -> Option<starknet::core::types::Felt>;

/// `Felt::from_hex` of starknet-types-core (through lambdaworks'
/// `FieldElement::from_hex`). Its source strips a lowercase `0x` when the
/// string is longer than two bytes, refuses an empty digit string, any
/// character that is not a hex digit, more than 64 digits, and a value above
/// the modulus (`integer > MODULUS`); it accepts everything else and never
/// panics. The contract names its result and claims exactly when the parse
/// succeeds; which field element a string denotes is left to the name.
#[verifier::external_body]
fn felt_from_hex(hex: &str) -> (r: Option<starknet::core::types::Felt>)
    ensures
        r == parsed_felt(hex@),
        r is Some <==> felt_hex_accepted(hex@),
{
    starknet::core::types::Felt::from_hex(hex).ok()
}

/// Parses a field element given as a hex string.
pub fn field_element_to_felt(fe: &FieldElement) -> (r: Result<starknet::core::types::Felt, DojoError>)
    ensures
        r is Ok <==> felt_hex_accepted(fe@),
        r is Ok ==> parsed_felt(fe@) == Some(r->Ok_0),
        r is Err ==> r->Err_0 == DojoError::InvalidInput,
{
    match felt_from_hex(fe.as_str()) {
        Some(felt) => Ok(felt),
        None => Err(DojoError::InvalidInput),
    }
}

/// `felts` is what the field parser makes of the strings `fes`, one for one.
pub open spec fn parses_to(fes: Seq<FieldElement>, felts: Seq<starknet::core::types::Felt>) -> bool {
    &&& felts.len() == fes.len()
    &&& forall|i: int| 0 <= i < fes.len() ==> parsed_felt(#[trigger] fes[i]@) == Some(felts[i])
}

/// Parses every field element of a list, in order; the whole list fails as
/// soon as one element is not well formed.
pub fn field_elements_to_felts(fes: &Vec<FieldElement>) -> (r: Result<Vec<starknet::core::types::Felt>, DojoError>)
    ensures
        r is Ok <==> (forall|i: int| 0 <= i < fes.len() ==> felt_hex_accepted(#[trigger] fes@[i]@)),
        r is Ok ==> parses_to(fes@, r->Ok_0@),
        r is Err ==> r->Err_0 == DojoError::InvalidInput,
{
    let mut felts: Vec<starknet::core::types::Felt> = Vec::new();
    let mut i: usize = 0;
    while i < fes.len()
        invariant
            i <= fes.len(),
            felts.len() == i,
            forall|j: int| 0 <= j < i ==> felt_hex_accepted(#[trigger] fes@[j]@),
            forall|j: int| 0 <= j < i ==> parsed_felt(#[trigger] fes@[j]@) == Some(felts@[j]),
        decreases fes.len() - i,
    {
        match field_element_to_felt(&fes[i]) {
            Ok(felt) => felts.push(felt),
            Err(e) => return Err(e),
        }
        i += 1;
    }
    Ok(felts)
}

/// A parsed list has one field element per string, each the parse of the
/// string at the same position.
pub proof fn law_parses_to(fes: Seq<FieldElement>, felts: Seq<starknet::core::types::Felt>)
    ensures
        parses_to(fes, felts) <==> (felts.len() == fes.len() && forall|i: int| 0 <= i < fes.len()
            ==> parsed_felt(#[trigger] fes[i]@) == Some(felts[i])),
{
}

/// The field parser takes one to 64 digits from `0`-`9`, `a`-`f`, `A`-`F`,
/// with or without a `0x` prefix, exactly when their value is at most the
/// modulus 2^251 + 17 * 2^192 + 1 (written out in decimal).
pub proof fn law_felt_strings(d: Seq<char>)
    requires
        0 < d.len() <= 64,
        forall|i: int| 0 <= i < d.len() ==> (('0' <= #[trigger] d[i] && d[i] <= '9')
            || ('a' <= d[i] && d[i] <= 'f') || ('A' <= d[i] && d[i] <= 'F')),
    ensures
        felt_hex_accepted(seq!['0', 'x'] + d) <==> hex_value(d) <= 3618502788666131213697322783095070105623107215331596699973092056135872020481nat,
        !(d.len() >= 2 && d[0] == '0' && d[1] == 'x') ==> (felt_hex_accepted(d) <==> hex_value(d)
            <= 3618502788666131213697322783095070105623107215331596699973092056135872020481nat),
{
    law_hex_prefix(d);
    assert forall|i: int| 0 <= i < d.len() implies is_hex_digit(#[trigger] d[i]) by {
        law_hex_digits(d[i]);
    }
}

/// A string holding any character other than the hex digits `0`-`9`,
/// `a`-`f`, `A`-`F` after its optional prefix is refused, and so are more
/// than 64 digits.
pub proof fn law_felt_refusals(d: Seq<char>)
    ensures
        (exists|i: int| 0 <= i < d.len() && !(('0' <= #[trigger] d[i] && d[i] <= '9')
            || ('a' <= d[i] && d[i] <= 'f') || ('A' <= d[i] && d[i] <= 'F')))
            ==> !felt_hex_accepted(seq!['0', 'x'] + d),
        d.len() > 64 ==> !felt_hex_accepted(seq!['0', 'x'] + d),
{
    if d.len() > 0 {
        law_hex_prefix(d);
        if exists|i: int| 0 <= i < d.len() && !(('0' <= #[trigger] d[i] && d[i] <= '9')
            || ('a' <= d[i] && d[i] <= 'f') || ('A' <= d[i] && d[i] <= 'F')) {
            let i = choose|i: int| 0 <= i < d.len() && !(('0' <= #[trigger] d[i] && d[i] <= '9')
                || ('a' <= d[i] && d[i] <= 'f') || ('A' <= d[i] && d[i] <= 'F'));
            law_hex_digits(d[i]);
        }
    }
}

} // verus!
