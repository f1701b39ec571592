//! Text helpers: comparison, prefixes, trimming, and numbers in decimal and
//! hexadecimal.

use vstd::prelude::*;
use vstd::string::*;

verus! {

/// The two texts are equal.
pub fn same_text(a: &str, b: &str) -> (same: bool)
    ensures
        same == (a@ == b@),
{
    a.to_owned() == b.to_owned()
}

/// `text` begins with `prefix`.
pub open spec fn begins_with(text: Seq<char>, prefix: Seq<char>) -> bool {
    text.len() >= prefix.len() && text.subrange(0, prefix.len() as int) == prefix
}

/// Whether `text` begins with `prefix`.
pub fn starts_with(text: &str, prefix: &str) -> (yes: bool)
    ensures
        yes == begins_with(text@, prefix@),
        yes <==> prefix@.len() <= text@.len() && forall|i: int|
            0 <= i < prefix@.len() ==> #[trigger] text@[i] == prefix@[i],
{
    let n: usize = prefix.unicode_len();
    proof {
        if begins_with(text@, prefix@) {
            assert forall|i: int| 0 <= i < prefix@.len() implies #[trigger] text@[i]
                == prefix@[i] by {
                assert(text@.subrange(0, prefix@.len() as int)[i] == text@[i]);
            }
        } else if prefix@.len() <= text@.len() && forall|i: int|
            0 <= i < prefix@.len() ==> #[trigger] text@[i] == prefix@[i] {
            assert(text@.subrange(0, prefix@.len() as int) =~= prefix@);
        }
    }
    text.unicode_len() >= n && same_text(text.substring_char(0, n), prefix)
}

/// Unicode's `White_Space` property.
pub open spec fn is_white_space(c: char) -> bool {
    let n = c as u32;
    ||| 0x9 <= n <= 0xd
    ||| n == 0x20
    ||| n == 0x85
    ||| n == 0xa0
    ||| n == 0x1680
    ||| 0x2000 <= n <= 0x200a
    ||| n == 0x2028
    ||| n == 0x2029
    ||| n == 0x202f
    ||| n == 0x205f
    ||| n == 0x3000
}

/// `text` without white space at its ends.
pub open spec fn trimmed(text: Seq<char>) -> Seq<char>
    decreases text.len(),
{
    if text.len() == 0 {
        text
    } else if is_white_space(text.first()) {
        trimmed(text.drop_first())
    } else if is_white_space(text.last()) {
        trimmed(text.drop_last())
    } else {
        text
    }
}

/// Blanks, tabs and line ends are white space; visible ASCII characters are not.
pub proof fn law_blanks_are_white_space(c: char)
    ensures
        c == ' ' || c == '\t' || c == '\n' || c == '\r' ==> is_white_space(c),
        '!' <= c <= '~' ==> !is_white_space(c),
{
}

/// Trimming takes white space off both ends, all of it, and nothing else.
#[verifier::rlimit(60)]
pub proof fn law_trimming_removes_white_space_only(text: Seq<char>) -> (ends: (int, int))
    ensures
        0 <= ends.0 <= ends.1 <= text.len(),
        trimmed(text) == text.subrange(ends.0, ends.1),
        forall|i: int| 0 <= i < ends.0 ==> is_white_space(#[trigger] text[i]),
        forall|i: int| ends.1 <= i < text.len() ==> is_white_space(#[trigger] text[i]),
        trimmed(text).len() > 0 ==> !is_white_space(trimmed(text).first()) && !is_white_space(
            trimmed(text).last(),
        ),
    decreases text.len(),
{
    if text.len() == 0 {
        assert(text.subrange(0, 0) =~= text);
        (0, 0)
    } else if is_white_space(text.first()) {
        let rest = text.drop_first();
        let inner = law_trimming_removes_white_space_only(rest);
        assert(rest.subrange(inner.0, inner.1) =~= text.subrange(inner.0 + 1, inner.1 + 1));
        assert forall|i: int| 0 <= i < inner.0 + 1 implies is_white_space(#[trigger] text[i]) by {
            if i > 0 {
                assert(rest[i - 1] == text[i]);
            }
        }
        assert forall|i: int| inner.1 + 1 <= i < text.len() implies is_white_space(
            #[trigger] text[i],
        ) by {
            assert(rest[i - 1] == text[i]);
        }
        (inner.0 + 1, inner.1 + 1)
    } else if is_white_space(text.last()) {
        let rest = text.drop_last();
        let inner = law_trimming_removes_white_space_only(rest);
        assert(rest.subrange(inner.0, inner.1) =~= text.subrange(inner.0, inner.1));
        assert forall|i: int| 0 <= i < inner.0 implies is_white_space(#[trigger] text[i]) by {
            assert(rest[i] == text[i]);
        }
        assert forall|i: int| inner.1 <= i < text.len() implies is_white_space(
            #[trigger] text[i],
        ) by {
            if i < text.len() - 1 {
                assert(rest[i] == text[i]);
            }
        }
        inner
    } else {
        assert(text.subrange(0, text.len() as int) =~= text);
        (0, text.len() as int)
    }
}

/// `str::trim` of the standard library: the text without leading and trailing
/// characters that have Unicode's `White_Space` property.
#[verifier::external_body]
pub(crate) fn trim(text: &str) -> (res: &str)
    ensures
        res@ == trimmed(text@),
{
    text.trim()
}

/// The decimal digits of a number, without leading zeros.
pub open spec fn decimal(n: nat) -> Seq<char>
    decreases n,
{
    if n < 10 {
        seq![decimal_digit(n)]
    } else {
        decimal(n / 10).push(decimal_digit(n % 10))
    }
}

/// The number that decimal digits stand for.
pub open spec fn number_of(digits: Seq<char>) -> int
    decreases digits.len(),
{
    if digits.len() == 0 {
        0
    } else {
        number_of(digits.drop_last()) * 10 + (digits.last() as int - '0' as int)
    }
}

/// A number reads back from its decimal digits, which are all digits, without a
/// leading zero.
pub proof fn law_decimal_reads_back(n: nat)
    ensures
        number_of(decimal(n)) == n,
        decimal(n).len() > 0,
        decimal(n).first() == '0' ==> n == 0,
        forall|i: int| 0 <= i < decimal(n).len() ==> '0' <= #[trigger] decimal(n)[i] <= '9',
    decreases n,
{
    if n < 10 {
        assert(decimal(n).drop_last() =~= Seq::empty());
        assert(number_of(decimal(n).drop_last()) == 0);
    } else {
        law_decimal_reads_back(n / 10);
        assert(decimal(n).drop_last() =~= decimal(n / 10));
        assert(decimal(n).first() == decimal(n / 10).first());
    }
}

/// The digit for a number below ten.
pub open spec fn decimal_digit(n: nat) -> char {
    if n == 0 {
        '0'
    } else if n == 1 {
        '1'
    } else if n == 2 {
        '2'
    } else if n == 3 {
        '3'
    } else if n == 4 {
        '4'
    } else if n == 5 {
        '5'
    } else if n == 6 {
        '6'
    } else if n == 7 {
        '7'
    } else if n == 8 {
        '8'
    } else {
        '9'
    }
}

/// The upper-case hexadecimal digit for a number below sixteen.
pub open spec fn hex_digit(n: nat) -> char {
    if n < 10 {
        decimal_digit(n)
    } else if n == 10 {
        'A'
    } else if n == 11 {
        'B'
    } else if n == 12 {
        'C'
    } else if n == 13 {
        'D'
    } else if n == 14 {
        'E'
    } else {
        'F'
    }
}

/// The upper-case hexadecimal digit for a number below sixteen, as text.
fn hex_digit_text(n: u8) -> (digit: &'static str)
    requires
        n < 16,
    ensures
        digit@ == seq![hex_digit(n as nat)],
{
    proof {
        reveal_strlit("0");
        reveal_strlit("1");
        reveal_strlit("2");
        reveal_strlit("3");
        reveal_strlit("4");
        reveal_strlit("5");
        reveal_strlit("6");
        reveal_strlit("7");
        reveal_strlit("8");
        reveal_strlit("9");
        reveal_strlit("A");
        reveal_strlit("B");
        reveal_strlit("C");
        reveal_strlit("D");
        reveal_strlit("E");
        reveal_strlit("F");
    }
    let digit = match n {
        0 => "0",
        1 => "1",
        2 => "2",
        3 => "3",
        4 => "4",
        5 => "5",
        6 => "6",
        7 => "7",
        8 => "8",
        9 => "9",
        10 => "A",
        11 => "B",
        12 => "C",
        13 => "D",
        14 => "E",
        _ => "F",
    };
    assert(digit@ =~= seq![hex_digit(n as nat)]);
    digit
}

/// A number in decimal.
pub fn to_decimal(n: u64) -> (text: String)
    ensures
        text@ == decimal(n as nat),
    decreases n,
{
    let mut text = if n < 10 { String::new() } else { to_decimal(n / 10) };
    let ghost front = text@;
    let digit = hex_digit_text((n % 10) as u8);
    text.append(digit);
    assert(text@ =~= front.push(decimal_digit((n % 10) as nat)));
    text
}

/// A byte as two upper-case hexadecimal digits.
pub open spec fn hex_byte(b: u8) -> Seq<char> {
    seq![hex_digit((b / 16) as nat), hex_digit((b % 16) as nat)]
}

/// Bytes in upper-case hexadecimal, two digits each.
pub open spec fn hex_upper(bytes: Seq<u8>) -> Seq<char>
    decreases bytes.len(),
{
    if bytes.len() == 0 {
        Seq::empty()
    } else {
        hex_upper(bytes.drop_last()) + hex_byte(bytes.last())
    }
}

/// The number that an upper-case hexadecimal digit stands for.
pub open spec fn hex_value(digit: char) -> int {
    if '0' <= digit <= '9' {
        digit as int - '0' as int
    } else if 'A' <= digit <= 'F' {
        digit as int - 'A' as int + 10
    } else {
        -1
    }
}

/// Every byte reads back from its two hexadecimal digits.
pub proof fn law_hexadecimal_reads_back(bytes: Seq<u8>, i: int)
    requires
        0 <= i < bytes.len(),
    ensures
        hex_upper(bytes).len() == 2 * bytes.len(),
        0 <= hex_value(hex_upper(bytes)[2 * i]) < 16,
        0 <= hex_value(hex_upper(bytes)[2 * i + 1]) < 16,
        hex_value(hex_upper(bytes)[2 * i]) * 16 + hex_value(hex_upper(bytes)[2 * i + 1])
            == bytes[i],
    decreases bytes.len(),
{
    let front = bytes.drop_last();
    if front.len() > 0 {
        law_hexadecimal_reads_back(front, if i < front.len() { i } else { 0 });
    } else {
        assert(hex_upper(front).len() == 0);
    }
    if i < front.len() {
        assert(front[i] == bytes[i]);
    }
}

/// Bytes in upper-case hexadecimal, two digits each.
pub fn to_hex_upper(bytes: &[u8]) -> (text: String)
    ensures
        text@ == hex_upper(bytes@),
{
    let mut text = String::new();
    let mut i: usize = 0;
    assert(bytes@.take(0) =~= Seq::empty());
    while i < bytes.len()
        invariant
            i <= bytes@.len(),
            text@ == hex_upper(bytes@.take(i as int)),
        decreases bytes@.len() - i,
    {
        let b: u8 = bytes[i];
        let ghost front = text@;
        text.append(hex_digit_text(b / 16));
        text.append(hex_digit_text(b % 16));
        proof {
            assert(bytes@.take(i + 1).drop_last() =~= bytes@.take(i as int));
            assert(text@ =~= front + hex_byte(b));
        }
        i = i + 1;
    }
    assert(bytes@.take(i as int) =~= bytes@);
    text
}

} // verus!
