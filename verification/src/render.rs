//! The diagnostic text of a handle: its address in hexadecimal and the
//! engine's rendering of the object as a quoted, escaped string.

use vstd::prelude::*;
use vstd::string::*;

verus! {

/// The lower-case hexadecimal digit for `digit`, which is below 16.
pub open spec fn hex_digit(digit: nat) -> char {
    if digit == 0 {
        '0'
    } else if digit == 1 {
        '1'
    } else if digit == 2 {
        '2'
    } else if digit == 3 {
        '3'
    } else if digit == 4 {
        '4'
    } else if digit == 5 {
        '5'
    } else if digit == 6 {
        '6'
    } else if digit == 7 {
        '7'
    } else if digit == 8 {
        '8'
    } else if digit == 9 {
        '9'
    } else if digit == 10 {
        'a'
    } else if digit == 11 {
        'b'
    } else if digit == 12 {
        'c'
    } else if digit == 13 {
        'd'
    } else if digit == 14 {
        'e'
    } else {
        'f'
    }
}

/// The hexadecimal digits of `number`, the most significant first, without
/// leading zeros; 0 is written as one digit.
pub open spec fn hex_digits(number: nat) -> Seq<char>
    decreases number,
{
    if number < 16 {
        seq![hex_digit(number)]
    } else {
        hex_digits(number / 16).push(hex_digit(number % 16))
    }
}

/// The number that a hexadecimal digit stands for; 16 for any other
/// character.
pub open spec fn hex_digit_value(c: char) -> nat {
    if c == '0' {
        0
    } else if c == '1' {
        1
    } else if c == '2' {
        2
    } else if c == '3' {
        3
    } else if c == '4' {
        4
    } else if c == '5' {
        5
    } else if c == '6' {
        6
    } else if c == '7' {
        7
    } else if c == '8' {
        8
    } else if c == '9' {
        9
    } else if c == 'a' {
        10
    } else if c == 'b' {
        11
    } else if c == 'c' {
        12
    } else if c == 'd' {
        13
    } else if c == 'e' {
        14
    } else if c == 'f' {
        15
    } else {
        16
    }
}

/// The number that a string of hexadecimal digits denotes, the most
/// significant digit first.
pub open spec fn hex_value(digits: Seq<char>) -> nat
    decreases digits.len(),
{
    if digits.len() == 0 {
        0
    } else {
        hex_value(digits.drop_last()) * 16 + hex_digit_value(digits.last())
    }
}

/// The digits that are written for a number denote that number, and begin
/// with a zero only for the number 0.
pub proof fn lemma_hex_digits_denote(number: nat)
    ensures
        hex_value(hex_digits(number)) == number,
        hex_digits(number).len() >= 1,
        hex_digits(number)[0] == '0' <==> number == 0,
    decreases number,
{
    if number < 16 {
        let digits = hex_digits(number);
        assert(digits.drop_last() =~= Seq::<char>::empty());
        assert(hex_value(digits.drop_last()) == 0);
        assert(digits.last() == hex_digit(number));
    } else {
        lemma_hex_digits_denote(number / 16);
        let digits = hex_digits(number);
        assert(digits.drop_last() =~= hex_digits(number / 16));
        assert(digits.last() == hex_digit(number % 16));
        assert(digits[0] == hex_digits(number / 16)[0]);
    }
}

/// The text of an address: `0x` and its hexadecimal digits.
pub open spec fn address_text(address: usize) -> Seq<char> {
    seq!['0', 'x'] + hex_digits(address as nat)
}

/// One byte as it stands inside a quoted string: tab, carriage return, line
/// feed, both quotes and the backslash behind a backslash, the printable
/// characters from the space to the tilde as they are, every other byte as
/// `\x` and two hexadecimal digits.
pub open spec fn escaped_byte(byte: u8) -> Seq<char> {
    if byte == 9 {
        seq!['\\', 't']
    } else if byte == 13 {
        seq!['\\', 'r']
    } else if byte == 10 {
        seq!['\\', 'n']
    } else if byte == 39 {
        seq!['\\', '\'']
    } else if byte == 34 {
        seq!['\\', '"']
    } else if byte == 92 {
        seq!['\\', '\\']
    } else if 32 <= byte <= 126 {
        seq![byte as char]
    } else {
        seq!['\\', 'x', hex_digit((byte / 16) as nat), hex_digit((byte % 16) as nat)]
    }
}

/// The bytes of a string with each of them escaped.
pub open spec fn escaped(bytes: Seq<u8>) -> Seq<char>
    decreases bytes.len(),
{
    if bytes.len() == 0 {
        Seq::empty()
    } else {
        escaped(bytes.drop_last()) + escaped_byte(bytes.last())
    }
}

/// The bytes of a string, escaped, between double quotes.
pub open spec fn quoted(bytes: Seq<u8>) -> Seq<char> {
    seq!['"'] + escaped(bytes) + seq!['"']
}

/// The diagnostic text of the object at `address` that the engine renders as
/// `rendering`, under the name `label` of its wrapper.
pub open spec fn description(label: Seq<char>, address: usize, rendering: Seq<u8>) -> Seq<char> {
    label + " {\n    address: "@ + address_text(address) + "\n    llvm_type: "@ + quoted(rendering)
        + "\n}"@
}

/// `String::push`: the text grows by the one character at its end.
#[verifier::external_body]
fn push_char(text: &mut String, c: char)
    ensures
        final(text)@ == old(text)@.push(c),
{
    text.push(c)
}

/// The character of a hexadecimal digit.
pub fn hex_digit_char(digit: u8) -> (c: char)
    requires
        digit < 16,
    ensures
        c == hex_digit(digit as nat),
{
    if digit == 0 {
        '0'
    } else if digit == 1 {
        '1'
    } else if digit == 2 {
        '2'
    } else if digit == 3 {
        '3'
    } else if digit == 4 {
        '4'
    } else if digit == 5 {
        '5'
    } else if digit == 6 {
        '6'
    } else if digit == 7 {
        '7'
    } else if digit == 8 {
        '8'
    } else if digit == 9 {
        '9'
    } else if digit == 10 {
        'a'
    } else if digit == 11 {
        'b'
    } else if digit == 12 {
        'c'
    } else if digit == 13 {
        'd'
    } else if digit == 14 {
        'e'
    } else {
        'f'
    }
}

/// Appends the hexadecimal digits of `number` to `text`.
pub fn append_hex(text: &mut String, number: usize)
    ensures
        final(text)@ == old(text)@ + hex_digits(number as nat),
    decreases number,
{
    if number >= 16 {
        append_hex(text, number / 16);
    }
    let ghost before = text@;
    push_char(text, hex_digit_char((number % 16) as u8));
    proof {
        if number >= 16 {
            assert(before.push(hex_digit((number % 16) as nat)) =~= old(text)@ + hex_digits(
                number as nat,
            ));
        } else {
            assert(before.push(hex_digit(number as nat)) =~= old(text)@ + hex_digits(number as nat));
        }
    }
}

/// Appends one byte of a string, escaped, to `text`.
pub fn append_escaped_byte(text: &mut String, byte: u8)
    ensures
        final(text)@ == old(text)@ + escaped_byte(byte),
{
    if byte == 9 {
        push_char(text, '\\');
        push_char(text, 't');
    } else if byte == 13 {
        push_char(text, '\\');
        push_char(text, 'r');
    } else if byte == 10 {
        push_char(text, '\\');
        push_char(text, 'n');
    } else if byte == 39 {
        push_char(text, '\\');
        push_char(text, '\'');
    } else if byte == 34 {
        push_char(text, '\\');
        push_char(text, '"');
    } else if byte == 92 {
        push_char(text, '\\');
        push_char(text, '\\');
    } else if 32 <= byte && byte <= 126 {
        push_char(text, byte as char);
    } else {
        push_char(text, '\\');
        push_char(text, 'x');
        push_char(text, hex_digit_char(byte / 16));
        push_char(text, hex_digit_char(byte % 16));
    }
    assert(text@ =~= old(text)@ + escaped_byte(byte));
}

/// Appends the bytes of a string, escaped and between double quotes, to
/// `text`.
pub fn append_quoted(text: &mut String, bytes: &[u8])
    ensures
        final(text)@ == old(text)@ + quoted(bytes@),
{
    push_char(text, '"');
    let mut i: usize = 0;
    while i < bytes.len()
        invariant
            i <= bytes.len(),
            text@ == old(text)@ + seq!['"'] + escaped(bytes@.take(i as int)),
        decreases bytes.len() - i,
    {
        append_escaped_byte(text, bytes[i]);
        proof {
            let head = bytes@.take(i as int + 1);
            assert(head.drop_last() =~= bytes@.take(i as int));
            assert(head.last() == bytes@[i as int]);
            assert(text@ =~= old(text)@ + seq!['"'] + escaped(head));
        }
        i += 1;
    }
    push_char(text, '"');
    proof {
        assert(bytes@.take(bytes@.len() as int) =~= bytes@);
        assert(text@ =~= old(text)@ + quoted(bytes@));
    }
}

/// The diagnostic text of a handle: the name of its wrapper, its address,
/// and the engine's rendering of the object.
pub fn describe(label: &str, address: usize, rendering: &[u8]) -> (text: String)
    ensures
        text@ == description(label@, address, rendering@),
{
    let mut text = String::from_str(label);
    text.append(" {\n    address: ");
    push_char(&mut text, '0');
    push_char(&mut text, 'x');
    append_hex(&mut text, address);
    text.append("\n    llvm_type: ");
    append_quoted(&mut text, rendering);
    text.append("\n}");
    assert(text@ =~= description(label@, address, rendering@));
    text
}

} // verus!
