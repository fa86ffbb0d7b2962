//! The name under which a domain destination is looked up: the host, a colon
//! and the port in decimal.

use vstd::prelude::*;

verus! {

/// The text that `String::from_utf8_lossy` makes of `bytes`: the bytes decoded
/// as UTF-8, each invalid sequence replaced by U+FFFD.
pub uninterp spec fn utf8_lossy(bytes: Seq<u8>) -> Seq<char>;

/// The character of a decimal digit.
pub open spec fn digit_char(d: nat) -> char {
    if d == 0 {
        '0'
    } else if d == 1 {
        '1'
    } else if d == 2 {
        '2'
    } else if d == 3 {
        '3'
    } else if d == 4 {
        '4'
    } else if d == 5 {
        '5'
    } else if d == 6 {
        '6'
    } else if d == 7 {
        '7'
    } else if d == 8 {
        '8'
    } else {
        '9'
    }
}

/// The decimal numeral of `n`, without leading zeros.
pub open spec fn decimal(n: nat) -> Seq<char>
    decreases n,
{
    if n < 10 {
        seq![digit_char(n)]
    } else {
        decimal(n / 10).push(digit_char(n % 10))
    }
}

/// The name that is looked up for the domain bytes `domain` and `port`.
pub open spec fn lookup_name(domain: Seq<u8>, port: u16) -> Seq<char> {
    host_port_text(utf8_lossy(domain), port)
}

/// Calls `String::from_utf8_lossy`, which decodes `bytes` as UTF-8 and puts
/// U+FFFD in place of each invalid sequence. The contract only gives the
/// result its name: the same bytes always decode to the same text.
#[verifier::external_body]
pub(crate) fn decode_lossy(bytes: &[u8]) -> (text: String)
    ensures
        text@ == utf8_lossy(bytes@),
{
    String::from_utf8_lossy(bytes).into_owned()
}

/// The numeral of one decimal digit.
fn digit_text(d: u16) -> (text: &'static str)
    requires
        d < 10,
    ensures
        text@ == seq![digit_char(d as nat)],
{
    proof {
        reveal_strlit("0");
        reveal_strlit("1");
        reveal_strlit("2");
        reveal_strlit("3");
        reveal_strlit("4");
        reveal_strlit("5");
        reveal_strlit("6");
        reveal_strlit("7");
        reveal_strlit("8");
        reveal_strlit("9");
    }
    if d == 0 {
        "0"
    } else if d == 1 {
        "1"
    } else if d == 2 {
        "2"
    } else if d == 3 {
        "3"
    } else if d == 4 {
        "4"
    } else if d == 5 {
        "5"
    } else if d == 6 {
        "6"
    } else if d == 7 {
        "7"
    } else if d == 8 {
        "8"
    } else {
        "9"
    }
}

/// Appends the decimal numeral of `n` to `text`.
fn push_decimal(text: &mut String, n: u16)
    ensures
        final(text)@ == old(text)@ + decimal(n as nat),
    decreases n,
{
    if n >= 10 {
        push_decimal(text, n / 10);
    }
    text.append(digit_text(n % 10));
}

/// The host, a colon, and the port in decimal.
pub open spec fn host_port_text(host: Seq<char>, port: u16) -> Seq<char> {
    host + seq![':'] + decimal(port as nat)
}

/// Joins a host and a port into the name that is looked up.
pub fn join_host_port(host: String, port: u16) -> (name: String)
    ensures
        name@ == host_port_text(host@, port),
{
    let mut name = host;
    proof {
        reveal_strlit(":");
    }
    name.append(":");
    push_decimal(&mut name, port);
    name
}

/// The name under which the domain `domain` is looked up for `port`: the
/// domain bytes decoded leniently, a colon, and the port in decimal.
pub fn host_and_port(domain: &[u8], port: u16) -> (name: String)
    ensures
        name@ == lookup_name(domain@, port),
{
    join_host_port(decode_lossy(domain), port)
}

} // verus!
