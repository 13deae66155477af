//! The pieces of JSON text that frames are made of.

use vstd::prelude::*;

verus! {

/// The JSON string literal for a text: the text between double quotes, with
/// the characters escaped that JSON does not take as they are.
pub uninterp spec fn json_string(s: Seq<char>) -> Seq<char>;

/// `serde_json::Value::String` written out by `Value`'s `to_string`, in the
/// compact form. What comes out depends on the text alone; the contract gives
/// it the name `json_string` and says nothing else of it.
#[verifier::external_body]
pub(crate) fn json_quote(s: &str) -> (r: String)
    ensures
        r@ == json_string(s@),
{
    serde_json::Value::String(s.to_owned()).to_string()
}

/// One decimal digit.
pub open spec fn digit(d: nat) -> Seq<char> {
    if d == 0 {
        "0"@
    } else if d == 1 {
        "1"@
    } else if d == 2 {
        "2"@
    } else if d == 3 {
        "3"@
    } else if d == 4 {
        "4"@
    } else if d == 5 {
        "5"@
    } else if d == 6 {
        "6"@
    } else if d == 7 {
        "7"@
    } else if d == 8 {
        "8"@
    } else {
        "9"@
    }
}

/// A number in decimal, without leading zeros.
pub open spec fn decimal(n: nat) -> Seq<char>
    decreases n,
{
    if n < 10 {
        digit(n)
    } else {
        decimal(n / 10) + digit(n % 10)
    }
}

fn digit_text(d: u32) -> (r: &'static str)
    requires
        d < 10,
    ensures
        r@ == digit(d as nat),
{
    if d == 0 {
        "0"
    } else if d == 1 {
        "1"
    } else if d == 2 {
        "2"
    } else if d == 3 {
        "3"
    } else if d == 4 {
        "4"
    } else if d == 5 {
        "5"
    } else if d == 6 {
        "6"
    } else if d == 7 {
        "7"
    } else if d == 8 {
        "8"
    } else {
        "9"
    }
}

/// A number written in decimal.
pub fn decimal_text(n: u32) -> (r: String)
    ensures
        r@ == decimal(n as nat),
    decreases n,
{
    if n < 10 {
        String::from_str(digit_text(n))
    } else {
        let mut r = decimal_text(n / 10);
        r.append(digit_text(n % 10));
        r
    }
}

/// Numbers in decimal with commas between them.
pub open spec fn list_items(items: Seq<u32>) -> Seq<char>
    decreases items.len(),
{
    if items.len() == 0 {
        Seq::empty()
    } else if items.len() == 1 {
        decimal(items[0] as nat)
    } else {
        list_items(items.drop_last()) + ","@ + decimal(items.last() as nat)
    }
}

/// The JSON array of a list of numbers.
pub open spec fn json_list(items: Seq<u32>) -> Seq<char> {
    "["@ + list_items(items) + "]"@
}

/// A list of numbers written as a JSON array.
pub fn list_text(items: &Vec<u32>) -> (r: String)
    ensures
        r@ == json_list(items@),
{
    let mut r = String::from_str("[");
    let mut i: usize = 0;
    assert(items@.subrange(0, 0) =~= Seq::<u32>::empty());
    assert(r@ =~= "["@ + list_items(items@.subrange(0, 0)));
    while i < items.len()
        invariant
            i <= items.len(),
            r@ == "["@ + list_items(items@.subrange(0, i as int)),
        decreases items.len() - i,
    {
        let ghost before = items@.subrange(0, i as int);
        let ghost after = items@.subrange(0, i as int + 1);
        if i > 0 {
            r.append(",");
        }
        let number = decimal_text(items[i]);
        r.append(number.as_str());
        proof {
            assert(after.drop_last() =~= before);
            assert(after.last() == items@[i as int]);
            assert(r@ =~= "["@ + list_items(after));
        }
        i = i + 1;
    }
    assert(items@.subrange(0, items.len() as int) =~= items@);
    r.append("]");
    r
}

} // verus!
