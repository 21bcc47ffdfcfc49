//! Text helpers: comparing strings and naming the place of a value inside a
//! document.
//!
//! The place of a value is written as a path: the field names that lead to
//! it, joined by dots, with the position of a list element in square
//! brackets, as in `members[3].user.id`. The document handed to a decoder has
//! the empty path.

use vstd::prelude::*;
use vstd::utf8::{encode_utf8, encode_utf8_decode_utf8};

verus! {

/// Tells whether two strings hold the same characters.
pub fn same_text(a: &str, b: &str) -> (r: bool)
    ensures
        r == (a@ == b@),
{
    let x = a.as_bytes();
    let y = b.as_bytes();
    proof {
        encode_utf8_decode_utf8(a@);
        encode_utf8_decode_utf8(b@);
    }
    if x.len() != y.len() {
        return false;
    }
    let mut i: usize = 0;
    while i < x.len()
        invariant
            i <= x@.len(),
            x@.len() == y@.len(),
            x@ == encode_utf8(a@),
            y@ == encode_utf8(b@),
            forall|j: int| 0 <= j < i ==> x@[j] == y@[j],
        decreases x@.len() - i,
    {
        if x[i] != y[i] {
            return false;
        }
        i += 1;
    }
    assert(x@ =~= y@);
    true
}

/// The numeral of a single decimal digit.
pub open spec fn digit(d: nat) -> Seq<char> {
    if d == 0 {
        "0"@
    } else if d == 1 {
        "1"@
    } else if d == 2 {
        "2"@
    } else if d == 3 {
        "3"@
    } else if d == 4 {
        "4"@
    } else if d == 5 {
        "5"@
    } else if d == 6 {
        "6"@
    } else if d == 7 {
        "7"@
    } else if d == 8 {
        "8"@
    } else {
        "9"@
    }
}

/// The decimal numeral of `n`, without leading zeros.
pub open spec fn decimal(n: nat) -> Seq<char>
    decreases n,
{
    if n < 10 {
        digit(n)
    } else {
        decimal(n / 10) + digit(n % 10)
    }
}

/// The path of the field `key` of the value at `at`.
pub open spec fn field_path(at: Seq<char>, key: Seq<char>) -> Seq<char> {
    if at.len() == 0 {
        key
    } else {
        at + "."@ + key
    }
}

/// The path of the element at position `index` of the list at `at`.
pub open spec fn item_path(at: Seq<char>, index: nat) -> Seq<char> {
    at + "["@ + decimal(index) + "]"@
}

fn digit_text(d: usize) -> (r: &'static str)
    requires
        d < 10,
    ensures
        r@ == digit(d as nat),
{
    if d == 0 {
        "0"
    } else if d == 1 {
        "1"
    } else if d == 2 {
        "2"
    } else if d == 3 {
        "3"
    } else if d == 4 {
        "4"
    } else if d == 5 {
        "5"
    } else if d == 6 {
        "6"
    } else if d == 7 {
        "7"
    } else if d == 8 {
        "8"
    } else {
        "9"
    }
}

/// Writes `n` as a decimal numeral.
pub fn decimal_text(n: usize) -> (r: String)
    ensures
        r@ == decimal(n as nat),
    decreases n,
{
    if n < 10 {
        digit_text(n).to_owned()
    } else {
        let mut text = decimal_text(n / 10);
        text.append(digit_text(n % 10));
        text
    }
}

/// Writes the path of the field `key` of the value at `at`.
pub fn field_path_text(at: &str, key: &str) -> (r: String)
    ensures
        r@ == field_path(at@, key@),
{
    if at.is_empty() {
        key.to_owned()
    } else {
        let mut path = at.to_owned();
        path.append(".");
        path.append(key);
        path
    }
}

/// Writes the path of the element at position `index` of the list at `at`.
pub fn item_path_text(at: &str, index: usize) -> (r: String)
    ensures
        r@ == item_path(at@, index as nat),
{
    let mut path = at.to_owned();
    path.append("[");
    let numeral = decimal_text(index);
    path.append(numeral.as_str());
    path.append("]");
    path
}

} // verus!
