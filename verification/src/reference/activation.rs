//! The activation counter the reference plugins keep in their state: read
//! back as a decimal number, advanced by one, and stored again.
use vstd::prelude::*;
use vstd::string::*;
use vstd::utf8::*;

use crate::codec::utf8_string;
use crate::store::{all_digits, digits_value, is_digit, parse_u64, u64_from_str, unsigned_digits};
use crate::text::{decimal, digit_char, push_decimal};

verus! {

broadcast use {vstd::utf8::encode_utf8_valid_utf8, vstd::utf8::encode_utf8_decode_utf8, vstd::utf8::decode_utf8_encode_utf8};

/// The state key under which the count is kept.
pub const ACTIVATION_COUNT_KEY: &'static str = "activation-count";

/// The bytes of an optional stored value.
pub open spec fn stored_view(stored: Option<Vec<u8>>) -> Option<Seq<u8>> {
    match stored {
        Some(b) => Some(b@),
        None => None,
    }
}

/// The count that was stored: the decimal number the stored bytes spell as
/// UTF-8 text, or zero when nothing is stored or it spells no such number.
pub open spec fn stored_activation_count(stored: Option<Seq<u8>>) -> nat {
    match stored {
        Some(b) => if valid_utf8(b) {
            match u64_from_str(decode_utf8(b)) {
                Some(n) => n as nat,
                None => 0,
            }
        } else {
            0
        },
        None => 0,
    }
}

/// The message when the count cannot grow.
pub open spec fn activation_exhausted_text() -> Seq<char> {
    "activation count exhausted"@
}

/// The next activation count: one more than the stored count. Fails when
/// the stored count is already the largest a count can hold.
pub fn next_activation_count(stored: Option<Vec<u8>>) -> (r: Result<u64, String>)
    ensures
        stored_activation_count(stored_view(stored)) < u64::MAX ==> r == Ok::<u64, String>(
            (stored_activation_count(stored_view(stored)) + 1) as u64,
        ),
        stored_activation_count(stored_view(stored)) >= u64::MAX ==> (r matches Err(m) && m@
            == activation_exhausted_text()),
{
    let ghost view = stored_view(stored);
    let current: u64 = match stored {
        None => 0,
        Some(bytes) => match utf8_string(bytes) {
            None => 0,
            Some(text) => match parse_u64(text.as_str()) {
                Some(n) => n,
                None => 0,
            },
        },
    };
    assert(current == stored_activation_count(view));
    if current == 0xffff_ffff_ffff_ffff {
        return Err(String::from_str("activation count exhausted"));
    }
    Ok(current + 1)
}

/// The bytes a count is stored as: its decimal digits.
pub fn activation_count_bytes(count: u64) -> (b: Vec<u8>)
    ensures
        b@ == encode_utf8(decimal(count as nat)),
{
    let mut text = String::new();
    push_decimal(&mut text, count);
    assert(text@ =~= decimal(count as nat));
    text.as_str().as_bytes_vec()
}

proof fn lemma_decimal_digits(n: nat)
    ensures
        decimal(n).len() > 0,
        all_digits(decimal(n)),
        digits_value(decimal(n)) == n,
        decimal(n)[0] != '+',
    decreases n,
{
    let d = decimal(n);
    if n < 10 {
        assert(is_digit(d[0]));
        assert(d.drop_last() =~= Seq::<char>::empty());
    } else {
        lemma_decimal_digits(n / 10);
        let front = decimal(n / 10);
        assert(d.drop_last() =~= front);
        assert(d[0] == front[0]);
        assert forall|i: int| 0 <= i < d.len() implies is_digit(#[trigger] d[i]) by {
            if i < front.len() {
                assert(d[i] == front[i]);
            }
        }
    }
    let r = n % 10;
    assert(d.last() == digit_char(r));
    assert(digit_char(r) as nat - '0' as nat == r) by {
        assert(r < 10);
        if r == 0 {} else if r == 1 {} else if r == 2 {} else if r == 3 {} else if r == 4 {}
        else if r == 5 {} else if r == 6 {} else if r == 7 {} else if r == 8 {} else {}
    }
    assert(n == (n / 10) * 10 + r);
    assert(digits_value(d) == digits_value(d.drop_last()) * 10 + (d.last() as nat - '0' as nat));
}

/// A count stored as [`activation_count_bytes`] writes it reads back as
/// itself, so [`next_activation_count`] advances it by exactly one.
pub proof fn law_activation_count_advances(n: u64)
    requires
        n < u64::MAX,
    ensures
        stored_activation_count(Some(encode_utf8(decimal(n as nat)))) == n,
{
    lemma_decimal_digits(n as nat);
    let d = decimal(n as nat);
    assert(unsigned_digits(d) == d);
    assert(u64_from_str(d) == Some(n));
    assert(decode_utf8(encode_utf8(d)) == d);
    assert(valid_utf8(encode_utf8(d)));
}

} // verus!
