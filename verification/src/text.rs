//! Numbers and bytes as text.
use vstd::prelude::*;
use vstd::string::StringExecFns;

verus! {

/// The character of a digit below sixteen, in lower case.
pub open spec fn digit_char(d: nat) -> char {
    if d < 10 {
        (48 + d) as char
    } else {
        (87 + d) as char
    }
}

/// The decimal digits of a number, without leading zeros.
pub open spec fn digits(n: nat) -> Seq<char>
    decreases n,
{
    if n < 10 {
        seq![digit_char(n)]
    } else {
        digits(n / 10).push(digit_char(n % 10))
    }
}

/// A number in decimal, with a minus sign if it is below zero.
pub open spec fn decimal(n: int) -> Seq<char> {
    if n < 0 {
        seq!['-'] + digits((-n) as nat)
    } else {
        digits(n as nat)
    }
}

/// Bytes in hexadecimal, two digits each.
pub open spec fn hex(bytes: Seq<u8>) -> Seq<char>
    decreases bytes.len(),
{
    if bytes.len() == 0 {
        Seq::empty()
    } else {
        hex(bytes.drop_last()) + seq![
            digit_char(bytes.last() as nat / 16),
            digit_char(bytes.last() as nat % 16),
        ]
    }
}

fn digit_text(d: u32) -> (text: &'static str)
    requires
        d < 16,
    ensures
        text@ == seq![digit_char(d as nat)],
{
    proof {
        reveal_strlit("0");
        reveal_strlit("1");
        reveal_strlit("2");
        reveal_strlit("3");
        reveal_strlit("4");
        reveal_strlit("5");
        reveal_strlit("6");
        reveal_strlit("7");
        reveal_strlit("8");
        reveal_strlit("9");
        reveal_strlit("a");
        reveal_strlit("b");
        reveal_strlit("c");
        reveal_strlit("d");
        reveal_strlit("e");
        reveal_strlit("f");
    }
    let text: &'static str = match d {
        0 => "0",
        1 => "1",
        2 => "2",
        3 => "3",
        4 => "4",
        5 => "5",
        6 => "6",
        7 => "7",
        8 => "8",
        9 => "9",
        10 => "a",
        11 => "b",
        12 => "c",
        13 => "d",
        14 => "e",
        _ => "f",
    };
    assert(text@ =~= seq![digit_char(d as nat)]);
    text
}

fn append_digits(text: &mut String, n: u32)
    ensures
        final(text)@ == old(text)@ + digits(n as nat),
    decreases n,
{
    let ghost before = text@;
    if n >= 10 {
        append_digits(text, n / 10);
        assert(before + digits(n as nat) =~= before + digits((n / 10) as nat) + seq![
            digit_char((n % 10) as nat),
        ]);
    }
    text.append(digit_text(n % 10));
}

/// Appends a number in decimal.
pub fn append_decimal(text: &mut String, n: i32)
    ensures
        final(text)@ == old(text)@ + decimal(n as int),
{
    let ghost before = text@;
    if n < 0 {
        proof {
            reveal_strlit("-");
        }
        text.append("-");
        let magnitude: i64 = -(n as i64);
        append_digits(text, magnitude as u32);
        assert("-"@ =~= seq!['-']);
        assert(text@ =~= before + decimal(n as int));
    } else {
        append_digits(text, n as u32);
    }
}

/// Writes bytes in hexadecimal, two digits each.
pub fn hex_dump(buf: &[u8]) -> (text: String)
    ensures
        text@ == hex(buf@),
{
    let mut text: String = String::new();
    let mut i: usize = 0;
    assert(buf@.take(0) =~= Seq::empty());
    while i < buf.len()
        invariant
            i <= buf@.len(),
            text@ == hex(buf@.take(i as int)),
        decreases buf@.len() - i,
    {
        let b: u8 = buf[i];
        let ghost before = text@;
        text.append(digit_text((b / 16) as u32));
        text.append(digit_text((b % 16) as u32));
        assert(buf@.take(i + 1).drop_last() =~= buf@.take(i as int));
        assert(text@ =~= hex(buf@.take(i + 1)));
        i += 1;
    }
    assert(buf@.take(i as int) =~= buf@);
    text
}

/// Every byte takes two characters.
pub proof fn hex_doubles_length(bytes: Seq<u8>)
    ensures
        hex(bytes).len() == 2 * bytes.len(),
    decreases bytes.len(),
{
    if bytes.len() > 0 {
        hex_doubles_length(bytes.drop_last());
    }
}

/// Hexadecimal loses nothing: different bytes have different texts.
pub proof fn hex_is_injective(a: Seq<u8>, b: Seq<u8>)
    requires
        hex(a) == hex(b),
    ensures
        a == b,
    decreases a.len(),
{
    hex_doubles_length(a);
    hex_doubles_length(b);
    if a.len() > 0 {
        let (ta, tb) = (hex(a.drop_last()), hex(b.drop_last()));
        let n = ta.len() as int;
        hex_doubles_length(a.drop_last());
        hex_doubles_length(b.drop_last());
        assert(hex(a).take(n) =~= ta);
        assert(hex(b).take(n) =~= tb);
        hex_is_injective(a.drop_last(), b.drop_last());
        let (x, y) = (a.last() as nat, b.last() as nat);
        assert(hex(a)[n] == digit_char(x / 16));
        assert(hex(b)[n] == digit_char(y / 16));
        assert(hex(a)[n + 1] == digit_char(x % 16));
        assert(hex(b)[n + 1] == digit_char(y % 16));
        digit_char_is_injective(x / 16, y / 16);
        digit_char_is_injective(x % 16, y % 16);
        assert(x == y);
        assert(a =~= a.drop_last().push(a.last()));
        assert(b =~= b.drop_last().push(b.last()));
    }
}

proof fn digit_char_is_injective(x: nat, y: nat)
    requires
        x < 16,
        y < 16,
        digit_char(x) == digit_char(y),
    ensures
        x == y,
{
    assert(digit_char(x) as nat == if x < 10 {
        48 + x
    } else {
        87 + x
    });
    assert(digit_char(y) as nat == if y < 10 {
        48 + y
    } else {
        87 + y
    });
}

/// The digits below sixteen, in order.
pub proof fn digits_are_in_order(d: nat)
    requires
        d < 16,
    ensures
        digit_char(d) == "0123456789abcdef"@[d as int],
{
    reveal_strlit("0123456789abcdef");
}

/// Each byte is written by the digit of its upper half, then that of its lower
/// half, at its own place.
pub proof fn hex_writes_upper_half_first(bytes: Seq<u8>, i: int)
    requires
        0 <= i < bytes.len(),
    ensures
        hex(bytes)[2 * i] == "0123456789abcdef"@[bytes[i] as int / 16],
        hex(bytes)[2 * i + 1] == "0123456789abcdef"@[bytes[i] as int % 16],
    decreases bytes.len(),
{
    hex_doubles_length(bytes);
    hex_doubles_length(bytes.drop_last());
    if i < bytes.len() - 1 {
        hex_writes_upper_half_first(bytes.drop_last(), i);
    } else {
        digits_are_in_order(bytes[i] as nat / 16);
        digits_are_in_order(bytes[i] as nat % 16);
    }
}

/// The number that decimal digits stand for.
pub open spec fn number_of(text: Seq<char>) -> int
    decreases text.len(),
{
    if text.len() == 0 {
        0
    } else {
        number_of(text.drop_last()) * 10 + (text.last() as int - '0' as int)
    }
}

/// Decimal digits stand for the number that they were written for. All of them are
/// digits, and the first is no zero but for the number zero.
pub proof fn digits_stand_for_the_number(n: nat)
    ensures
        number_of(digits(n)) == n,
        digits(n).len() > 0,
        forall|i: int| 0 <= i < digits(n).len() ==> '0' <= #[trigger] digits(n)[i] <= '9',
        n > 0 ==> digits(n)[0] != '0',
    decreases n,
{
    if n < 10 {
        assert(digits(n).drop_last() =~= Seq::empty());
        assert(number_of(digits(n).drop_last()) == 0);
    } else {
        digits_stand_for_the_number(n / 10);
        assert(digits(n).drop_last() =~= digits(n / 10));
    }
}

/// A number below zero is written as a minus sign and its opposite, any other one
/// by its digits alone.
pub proof fn only_negative_numbers_have_a_sign(n: int)
    ensures
        n >= 0 ==> number_of(decimal(n)) == n && decimal(n)[0] != '-',
        n < 0 ==> decimal(n)[0] == '-' && decimal(n).skip(1) == decimal(-n),
{
    if n >= 0 {
        digits_stand_for_the_number(n as nat);
    } else {
        assert(decimal(n).skip(1) =~= decimal(-n));
    }
}

} // verus!
