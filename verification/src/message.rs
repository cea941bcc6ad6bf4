//! The messages that name a missing record.

use vstd::prelude::*;
use vstd::string::StringExecFns;

verus! {

/// The character that stands for a digit below ten.
pub open spec fn digit(d: nat) -> char {
    if d == 0 {
        '0'
    } else if d == 1 {
        '1'
    } else if d == 2 {
        '2'
    } else if d == 3 {
        '3'
    } else if d == 4 {
        '4'
    } else if d == 5 {
        '5'
    } else if d == 6 {
        '6'
    } else if d == 7 {
        '7'
    } else if d == 8 {
        '8'
    } else {
        '9'
    }
}

/// A number written in decimal, without sign or leading zeros.
pub open spec fn decimal(n: nat) -> Seq<char>
    decreases n,
{
    if n < 10 {
        seq![digit(n)]
    } else {
        decimal(n / 10).push(digit(n % 10))
    }
}

/// What `get` says of a missing record.
pub open spec fn missing_on_get(id: u64) -> Seq<char> {
    "a food allergy profile with id="@ + decimal(id as nat) + " not found"@
}

/// What `update` says of a missing record.
pub open spec fn missing_on_update(id: u64) -> Seq<char> {
    "couldn't update a food allergy profile with id="@ + decimal(id as nat)
        + ". profile not found"@
}

/// What `delete` says of a missing record.
pub open spec fn missing_on_delete(id: u64) -> Seq<char> {
    "couldn't delete a food allergy profile with id="@ + decimal(id as nat)
        + ". profile not found."@
}

fn digit_text(d: u64) -> (text: &'static str)
    requires
        d < 10,
    ensures
        text@ == seq![digit(d as nat)],
{
    proof {
        reveal_strlit("0");
        reveal_strlit("1");
        reveal_strlit("2");
        reveal_strlit("3");
        reveal_strlit("4");
        reveal_strlit("5");
        reveal_strlit("6");
        reveal_strlit("7");
        reveal_strlit("8");
        reveal_strlit("9");
    }
    if d == 0 {
        "0"
    } else if d == 1 {
        "1"
    } else if d == 2 {
        "2"
    } else if d == 3 {
        "3"
    } else if d == 4 {
        "4"
    } else if d == 5 {
        "5"
    } else if d == 6 {
        "6"
    } else if d == 7 {
        "7"
    } else if d == 8 {
        "8"
    } else {
        "9"
    }
}

/// Writes a number in decimal.
pub fn decimal_text(n: u64) -> (text: String)
    ensures
        text@ == decimal(n as nat),
    decreases n,
{
    if n < 10 {
        String::from_str(digit_text(n))
    } else {
        let mut text = decimal_text(n / 10);
        text.append(digit_text(n % 10));
        text
    }
}

/// Writes what `get` says of a missing record.
pub fn missing_on_get_text(id: u64) -> (msg: String)
    ensures
        msg@ == missing_on_get(id),
{
    let mut msg = String::from_str("a food allergy profile with id=");
    msg.append(decimal_text(id).as_str());
    msg.append(" not found");
    msg
}

/// Writes what `update` says of a missing record.
pub fn missing_on_update_text(id: u64) -> (msg: String)
    ensures
        msg@ == missing_on_update(id),
{
    let mut msg = String::from_str("couldn't update a food allergy profile with id=");
    msg.append(decimal_text(id).as_str());
    msg.append(". profile not found");
    msg
}

/// Writes what `delete` says of a missing record.
pub fn missing_on_delete_text(id: u64) -> (msg: String)
    ensures
        msg@ == missing_on_delete(id),
{
    let mut msg = String::from_str("couldn't delete a food allergy profile with id=");
    msg.append(decimal_text(id).as_str());
    msg.append(". profile not found.");
    msg
}

} // verus!
