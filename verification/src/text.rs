//! The texts that the session writes into its frames.

use vstd::prelude::*;
use vstd::string::StringExecFns;

verus! {

/// The character that stands for one decimal digit.
pub open spec fn digit_char(d: nat) -> char {
    if d == 0 {
        '0'
    } else if d == 1 {
        '1'
    } else if d == 2 {
        '2'
    } else if d == 3 {
        '3'
    } else if d == 4 {
        '4'
    } else if d == 5 {
        '5'
    } else if d == 6 {
        '6'
    } else if d == 7 {
        '7'
    } else if d == 8 {
        '8'
    } else {
        '9'
    }
}

/// A number written in base ten, most significant digit first, without
/// leading zeros.
pub open spec fn decimal(n: nat) -> Seq<char>
    decreases n,
{
    if n < 10 {
        seq![digit_char(n)]
    } else {
        decimal(n / 10).push(digit_char(n % 10))
    }
}

/// The text of the greeting with the given number.
pub open spec fn greeting_text(i: nat) -> Seq<char> {
    "Hi "@ + decimal(i) + " times!"@
}

/// The text of the server message with the given index.
pub open spec fn server_message_text(i: nat) -> Seq<char> {
    "Server message "@ + decimal(i) + "..."@
}

/// The text that the closing frame gives as its reason.
pub open spec fn farewell_text() -> Seq<char> {
    "Goodbye"@
}

/// A number below ten is written with one digit, a number below a hundred
/// with two.
pub proof fn lemma_decimal_short(n: nat)
    requires
        n < 100,
    ensures
        n < 10 ==> decimal(n) == seq![digit_char(n)],
        n >= 10 ==> decimal(n) == seq![digit_char(n / 10), digit_char(n % 10)],
{
    reveal_with_fuel(decimal, 2);
}

fn digit_str(d: u64) -> (s: &'static str)
    requires
        d < 10,
    ensures
        s@ == seq![digit_char(d as nat)],
{
    proof {
        reveal_strlit("0");
        reveal_strlit("1");
        reveal_strlit("2");
        reveal_strlit("3");
        reveal_strlit("4");
        reveal_strlit("5");
        reveal_strlit("6");
        reveal_strlit("7");
        reveal_strlit("8");
        reveal_strlit("9");
    }
    if d == 0 {
        "0"
    } else if d == 1 {
        "1"
    } else if d == 2 {
        "2"
    } else if d == 3 {
        "3"
    } else if d == 4 {
        "4"
    } else if d == 5 {
        "5"
    } else if d == 6 {
        "6"
    } else if d == 7 {
        "7"
    } else if d == 8 {
        "8"
    } else {
        "9"
    }
}

/// Appends a number in base ten to a string.
pub fn push_decimal(out: &mut String, n: u64)
    ensures
        final(out)@ == old(out)@ + decimal(n as nat),
    decreases n,
{
    if n >= 10 {
        push_decimal(out, n / 10);
    }
    out.append(digit_str(n % 10));
}

/// The greeting with the given number: `Hi 3 times!` for 3.
pub fn greeting(i: u64) -> (text: String)
    ensures
        text@ == greeting_text(i as nat),
{
    let mut text = String::from_str("Hi ");
    push_decimal(&mut text, i);
    text.append(" times!");
    text
}

/// The server message with the given index: `Server message 7...` for 7.
pub fn server_message(i: u64) -> (text: String)
    ensures
        text@ == server_message_text(i as nat),
{
    let mut text = String::from_str("Server message ");
    push_decimal(&mut text, i);
    text.append("...");
    text
}

/// The reason given when the sender closes the session.
pub fn farewell() -> (text: String)
    ensures
        text@ == farewell_text(),
{
    String::from_str("Goodbye")
}

} // verus!
