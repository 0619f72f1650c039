//! Text of token descriptors: NUL-terminated fields, decimal numbers, names
//! and descriptor addresses.

use vstd::prelude::*;
use vstd::string::*;
use vstd::utf8::{decode_utf8, encode_utf8_decode_utf8, valid_utf8};
use vstd::utf8::{length_of_first_scalar, pop_first_scalar};
use vstd::slice::slice_subrange;

verus! {

/// The error of `core::str::from_utf8`, carried through as it is.
#[verifier::external_type_specification]
#[verifier::external_body]
pub struct ExUtf8Error(core::str::Utf8Error);

/// `core::str::from_utf8`: succeeds exactly on well-formed UTF-8 and then
/// gives the string slice over the same bytes.
#[verifier::external_body]
fn str_from_utf8(bytes: &[u8]) -> (r: Result<&str, core::str::Utf8Error>)
    ensures
        r is Ok <==> valid_utf8(bytes@),
        r matches Ok(text) ==> text.spec_bytes() == bytes@,
{
    core::str::from_utf8(bytes)
}

/// Number of bytes of `s` before its first zero byte; all of them if it has
/// none.
pub open spec fn nul_end(s: Seq<u8>) -> nat
    decreases s.len(),
{
    if s.len() == 0 || s[0] == 0 {
        0
    } else {
        1 + nul_end(s.drop_first())
    }
}

/// The bytes of `s` before its first zero byte.
pub open spec fn before_nul(s: Seq<u8>) -> Seq<u8> {
    s.subrange(0, nul_end(s) as int)
}

/// The text of a NUL-terminated field, where its bytes are UTF-8.
pub open spec fn nul_terminated_text(s: Seq<u8>) -> Seq<char> {
    decode_utf8(before_nul(s))
}

/// The end of the text is where the first zero byte stands.
pub proof fn lemma_nul_end(s: Seq<u8>, end: int)
    requires
        0 <= end <= s.len(),
        forall|j: int| 0 <= j < end ==> s[j] != 0,
        end < s.len() ==> s[end] == 0,
    ensures
        nul_end(s) == end,
    decreases s.len(),
{
    if end > 0 {
        let rest = s.drop_first();
        assert forall|j: int| 0 <= j < end - 1 implies rest[j] != 0 by {
            assert(rest[j] == s[j + 1]);
        }
        lemma_nul_end(rest, end - 1);
    }
}

/// A text has at most as many characters as bytes.
pub proof fn lemma_decoded_len(bytes: Seq<u8>)
    requires
        valid_utf8(bytes),
    ensures
        decode_utf8(bytes).len() <= bytes.len(),
    decreases bytes.len(),
{
    if bytes.len() > 0 {
        assert(1 <= length_of_first_scalar(bytes) <= bytes.len());
        lemma_decoded_len(pop_first_scalar(bytes));
    }
}

/// The text of a NUL-terminated field has at most as many characters as the
/// field has bytes.
pub proof fn lemma_nul_terminated_len(s: Seq<u8>)
    requires
        valid_utf8(before_nul(s)),
    ensures
        nul_terminated_text(s).len() <= s.len(),
{
    lemma_nul_end_bound(s);
    lemma_decoded_len(before_nul(s));
}

/// The text of a field ends within the field.
pub proof fn lemma_nul_end_bound(s: Seq<u8>)
    ensures
        nul_end(s) <= s.len(),
    decreases s.len(),
{
    if s.len() > 0 && s[0] != 0 {
        lemma_nul_end_bound(s.drop_first());
    }
}

/// Reads the text of a NUL-terminated field: the bytes before the first zero
/// byte, or all of them, as a string slice. Fails exactly when those bytes
/// are not UTF-8.
pub fn str_from_u8_nul_utf8(utf8_src: &[u8]) -> (r: Result<&str, core::str::Utf8Error>)
    ensures
        r is Ok <==> valid_utf8(before_nul(utf8_src@)),
        r matches Ok(text) ==> text.spec_bytes() == before_nul(utf8_src@) && text@
            == nul_terminated_text(utf8_src@),
{
    let len = utf8_src.len();
    let mut end: usize = 0;
    while end < len && utf8_src[end] != 0
        invariant
            end <= len == utf8_src@.len(),
            forall|j: int| 0 <= j < end ==> utf8_src@[j] != 0,
        decreases len - end,
    {
        end += 1;
    }
    proof {
        lemma_nul_end(utf8_src@, end as int);
    }
    let r = str_from_utf8(slice_subrange(utf8_src, 0, end));
    proof {
        if let Ok(text) = r {
            encode_utf8_decode_utf8(text@);
        }
    }
    r
}

/// The character of a decimal digit.
pub open spec fn digit_char(d: nat) -> char {
    if d == 0 {
        '0'
    } else if d == 1 {
        '1'
    } else if d == 2 {
        '2'
    } else if d == 3 {
        '3'
    } else if d == 4 {
        '4'
    } else if d == 5 {
        '5'
    } else if d == 6 {
        '6'
    } else if d == 7 {
        '7'
    } else if d == 8 {
        '8'
    } else {
        '9'
    }
}

/// The decimal numeral of `n`, without leading zeros.
pub open spec fn decimal_text(n: nat) -> Seq<char>
    decreases n,
{
    if n < 10 {
        seq![digit_char(n)]
    } else {
        decimal_text(n / 10) + seq![digit_char(n % 10)]
    }
}

/// 10 to the power `k`.
pub open spec fn pow10(k: nat) -> nat
    decreases k,
{
    if k == 0 {
        1
    } else {
        10 * pow10((k - 1) as nat)
    }
}

/// A number below 10^k has at most `k` digits.
pub proof fn lemma_decimal_len(n: nat, k: nat)
    requires
        k >= 1,
        n < pow10(k),
    ensures
        1 <= decimal_text(n).len() <= k,
    decreases k,
{
    if n >= 10 {
        assert(pow10(1) == 10) by {
            reveal_with_fuel(pow10, 2);
        }
        assert(k >= 2);
        let p = pow10((k - 1) as nat);
        assert(n / 10 < p) by (nonlinear_arith)
            requires
                n < 10 * p,
        ;
        lemma_decimal_len(n / 10, (k - 1) as nat);
    }
}

/// The numeral of a `u64` has at most twenty digits.
pub proof fn lemma_decimal_len_u64(n: u64)
    ensures
        1 <= decimal_text(n as nat).len() <= 20,
{
    assert(pow10(20) == 100_000_000_000_000_000_000) by {
        reveal_with_fuel(pow10, 21);
    }
    lemma_decimal_len(n as nat, 20);
}

/// The name of the token with the given index: the collection's symbol, a
/// space, a number sign and the index.
pub open spec fn token_name_text(symbol: Seq<char>, index: u64) -> Seq<char> {
    symbol + seq![' ', '#'] + decimal_text(index as nat)
}

/// The descriptor address of the token with the given index: the
/// collection's prefix, the index and the ending ".json".
pub open spec fn token_uri_text(prefix: Seq<char>, index: u64) -> Seq<char> {
    prefix + decimal_text(index as nat) + seq!['.', 'j', 's', 'o', 'n']
}

/// The numeral of one decimal digit.
pub fn digit_str(d: u64) -> (text: &'static str)
    requires
        d < 10,
    ensures
        text@ == seq![digit_char(d as nat)],
{
    proof {
        reveal_strlit("0");
        reveal_strlit("1");
        reveal_strlit("2");
        reveal_strlit("3");
        reveal_strlit("4");
        reveal_strlit("5");
        reveal_strlit("6");
        reveal_strlit("7");
        reveal_strlit("8");
        reveal_strlit("9");
    }
    let text = if d == 0 {
        "0"
    } else if d == 1 {
        "1"
    } else if d == 2 {
        "2"
    } else if d == 3 {
        "3"
    } else if d == 4 {
        "4"
    } else if d == 5 {
        "5"
    } else if d == 6 {
        "6"
    } else if d == 7 {
        "7"
    } else if d == 8 {
        "8"
    } else {
        "9"
    };
    assert(text@ =~= seq![digit_char(d as nat)]);
    text
}

/// The decimal numeral of `n`.
pub fn decimal_string(n: u64) -> (text: String)
    ensures
        text@ == decimal_text(n as nat),
    decreases n,
{
    if n < 10 {
        digit_str(n).to_owned()
    } else {
        let mut text = decimal_string(n / 10);
        text.append(digit_str(n % 10));
        text
    }
}

/// The name of the token with the given index.
pub fn token_name(symbol: &str, index: u64) -> (name: String)
    ensures
        name@ == token_name_text(symbol@, index),
        name@.len() <= symbol@.len() + 22,
{
    proof {
        lemma_decimal_len_u64(index);
    }
    let mut name = symbol.to_owned();
    proof {
        reveal_strlit(" #");
    }
    name.append(" #");
    let number = decimal_string(index);
    name.append(number.as_str());
    assert(name@ =~= token_name_text(symbol@, index));
    name
}

/// The descriptor address of the token with the given index.
pub fn token_uri(prefix: &str, index: u64) -> (uri: String)
    ensures
        uri@ == token_uri_text(prefix@, index),
        uri@.len() <= prefix@.len() + 25,
{
    proof {
        lemma_decimal_len_u64(index);
    }
    let mut uri = prefix.to_owned();
    let number = decimal_string(index);
    uri.append(number.as_str());
    proof {
        reveal_strlit(".json");
    }
    uri.append(".json");
    assert(uri@ =~= token_uri_text(prefix@, index));
    uri
}

} // verus!
