//! The `host:port` text that a name lookup is asked for.

use vstd::prelude::*;
use vstd::string::*;

verus! {

/// The character of one decimal digit.
pub open spec fn digit_char(digit: nat) -> char
    recommends
        digit < 10,
{
    ('0' as u32 + digit) as char
}

/// `number` in decimal, without leading zeros.
pub open spec fn decimal(number: nat) -> Seq<char>
    decreases number,
{
    if number < 10 {
        seq![digit_char(number)]
    } else {
        decimal(number / 10).push(digit_char(number % 10))
    }
}

/// The host, a colon and the port in decimal.
pub open spec fn authority(host: Seq<char>, port: u16) -> Seq<char> {
    host.push(':') + decimal(port as nat)
}

/// One decimal digit as text.
fn digit_text(digit: u16) -> (text: &'static str)
    requires
        digit < 10,
    ensures
        text@ == seq![digit_char(digit as nat)],
{
    proof {
        reveal_strlit("0");
        reveal_strlit("1");
        reveal_strlit("2");
        reveal_strlit("3");
        reveal_strlit("4");
        reveal_strlit("5");
        reveal_strlit("6");
        reveal_strlit("7");
        reveal_strlit("8");
        reveal_strlit("9");
    }
    match digit {
        0 => "0",
        1 => "1",
        2 => "2",
        3 => "3",
        4 => "4",
        5 => "5",
        6 => "6",
        7 => "7",
        8 => "8",
        _ => "9",
    }
}

/// Appends `number` in decimal.
fn append_decimal(text: &mut String, number: u16)
    ensures
        final(text)@ == old(text)@ + decimal(number as nat),
    decreases number,
{
    if number < 10 {
        text.append(digit_text(number));
    } else {
        append_decimal(text, number / 10);
        text.append(digit_text(number % 10));
    }
}

/// The text `host:port`.
pub fn authority_text(host: &str, port: u16) -> (text: String)
    ensures
        text@ == authority(host@, port),
{
    let mut text: String = host.to_owned();
    proof {
        reveal_strlit(":");
    }
    text.append(":");
    append_decimal(&mut text, port);
    text
}

/// The decimal text of a number is made of digits, has no leading zero unless the number is 0,
/// and is worth the number when it is read from left to right.
pub proof fn law_decimal_text_is_worth_the_number(number: nat)
    ensures
        decimal(number).len() >= 1,
        forall|i: int|
            0 <= i < decimal(number).len() ==> '0' as int <= #[trigger] decimal(number)[i] as int
                <= '9' as int,
        decimal(number)[0] == '0' ==> decimal(number).len() == 1,
        decimal(number).fold_left(
            0int,
            |value: int, digit: char| value * 10 + (digit as int - '0' as int),
        ) == number,
    decreases number,
{
    let f = |value: int, digit: char| value * 10 + (digit as int - '0' as int);
    let text = decimal(number);
    if number < 10 {
        assert(text.drop_last() =~= Seq::empty());
        reveal_with_fuel(Seq::fold_left, 2);
        assert(text.fold_left(0int, f) == f(0int, text.last()));
    } else {
        let before = decimal(number / 10);
        law_decimal_text_is_worth_the_number(number / 10);
        assert(text.drop_last() =~= before);
        assert(text[0] == before[0]);
        assert(text.fold_left(0int, f) == f(before.fold_left(0int, f), text.last()));
        if text[0] == '0' {
            assert(before.len() == 1);
            assert(before.drop_last() =~= Seq::empty());
            reveal_with_fuel(Seq::fold_left, 2);
            assert(before.fold_left(0int, f) == f(0int, before.last()));
        }
    }
}

/// The lookup text begins with the whole host, whatever its length, then a colon. What follows is
/// digits only, without leading zeros, and worth the port.
pub proof fn law_lookup_text_spells_host_and_port(host: Seq<char>, port: u16)
    ensures
        authority(host, port).len() >= host.len() + 2,
        authority(host, port).subrange(0, host.len() as int) == host,
        authority(host, port)[host.len() as int] == ':',
        forall|i: int|
            host.len() < i < authority(host, port).len() ==> '0' as int <= #[trigger] authority(
                host,
                port,
            )[i] as int <= '9' as int,
        authority(host, port)[host.len() as int + 1] == '0' ==> authority(host, port).len() == host.len()
            + 2,
        authority(host, port).subrange(
            host.len() as int + 1,
            authority(host, port).len() as int,
        ).fold_left(
            0int,
            |value: int, digit: char| value * 10 + (digit as int - '0' as int),
        ) == port,
{
    let text = authority(host, port);
    let digits = decimal(port as nat);
    law_decimal_text_is_worth_the_number(port as nat);
    assert(text.subrange(0, host.len() as int) =~= host);
    assert(text.subrange(host.len() as int + 1, text.len() as int) =~= digits);
    assert(text[host.len() as int + 1] == digits[0]);
    assert forall|i: int| host.len() < i < text.len() implies '0' as int <= #[trigger] text[i] as int
        <= '9' as int by {
        assert(text[i] == digits[i - host.len() - 1]);
    }
}

/// Different requests are looked up by different texts: host and port can be read back.
pub proof fn law_lookup_texts_tell_requests_apart(
    host: Seq<char>,
    port: u16,
    other_host: Seq<char>,
    other_port: u16,
)
    requires
        authority(host, port) == authority(other_host, other_port),
    ensures
        host == other_host,
        port == other_port,
{
    law_lookup_text_spells_host_and_port(host, port);
    law_lookup_text_spells_host_and_port(other_host, other_port);
    let text = authority(host, port);
    if host.len() < other_host.len() {
        assert('0' as int <= text[other_host.len() as int] as int <= '9' as int);
    }
    if other_host.len() < host.len() {
        assert('0' as int <= text[host.len() as int] as int <= '9' as int);
    }
}

} // verus!
