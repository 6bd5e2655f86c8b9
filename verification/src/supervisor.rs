//! Starting the backend: the arguments it is given.

use vstd::prelude::*;

verus! {

/// The character for one decimal digit.
pub open spec fn digit_char(digit: nat) -> char {
    if digit == 0 {
        '0'
    } else if digit == 1 {
        '1'
    } else if digit == 2 {
        '2'
    } else if digit == 3 {
        '3'
    } else if digit == 4 {
        '4'
    } else if digit == 5 {
        '5'
    } else if digit == 6 {
        '6'
    } else if digit == 7 {
        '7'
    } else if digit == 8 {
        '8'
    } else {
        '9'
    }
}

/// A number in decimal, without sign or leading zeros.
pub open spec fn decimal_text(value: nat) -> Seq<char>
    decreases value,
{
    if value < 10 {
        seq![digit_char(value)]
    } else {
        decimal_text(value / 10).push(digit_char(value % 10))
    }
}

/// The arguments of a backend that is to listen on `port`: the port flag, then
/// the port in decimal.
pub open spec fn arguments_for(port: u16) -> Seq<Seq<char>> {
    seq!["--port"@, decimal_text(port as nat)]
}

/// The texts held by a vector of strings.
pub open spec fn texts_of(arguments: Seq<String>) -> Seq<Seq<char>> {
    arguments.map_values(|argument: String| argument@)
}

/// `String::push`: the target afterwards is what it was, followed by the
/// character.
#[verifier::external_body]
fn push_char(target: &mut String, c: char)
    ensures
        final(target)@ == old(target)@.push(c),
{
    target.push(c)
}

fn digit_of(digit: u16) -> (c: char)
    requires
        digit < 10,
    ensures
        c == digit_char(digit as nat),
{
    if digit == 0 {
        '0'
    } else if digit == 1 {
        '1'
    } else if digit == 2 {
        '2'
    } else if digit == 3 {
        '3'
    } else if digit == 4 {
        '4'
    } else if digit == 5 {
        '5'
    } else if digit == 6 {
        '6'
    } else if digit == 7 {
        '7'
    } else if digit == 8 {
        '8'
    } else {
        '9'
    }
}

fn push_decimal(target: &mut String, value: u16)
    ensures
        final(target)@ == old(target)@ + decimal_text(value as nat),
    decreases value,
{
    if value >= 10 {
        push_decimal(target, value / 10);
    }
    push_char(target, digit_of(value % 10));
    assert(target@ =~= old(target)@ + decimal_text(value as nat));
}

/// The name of the argument by which the backend is told its port.
pub fn port_flag() -> (flag: &'static str)
    ensures
        flag@ == "--port"@,
{
    "--port"
}

/// The port as the backend reads it from its command line.
pub fn port_text(port: u16) -> (text: String)
    ensures
        text@ == decimal_text(port as nat),
{
    let mut text = String::new();
    push_decimal(&mut text, port);
    assert(text@ =~= decimal_text(port as nat));
    text
}

/// The arguments of the backend process.
pub fn sidecar_arguments(port: u16) -> (arguments: Vec<String>)
    ensures
        texts_of(arguments@) == arguments_for(port),
{
    let mut arguments: Vec<String> = Vec::new();
    arguments.push(port_flag().to_owned());
    arguments.push(port_text(port));
    assert(texts_of(arguments@) =~= arguments_for(port));
    arguments
}

} // verus!
