//! Base64, in which pictures travel to the renderer.

use base64::engine::general_purpose::STANDARD;
use base64::Engine;
use vstd::prelude::*;

verus! {

/// The characters that `n` bytes take in padded base64.
pub open spec fn base64_len(n: nat) -> nat {
    4 * ((n + 2) / 3)
}

/// The character for a six-bit number: `A` to `Z`, `a` to `z`, `0` to `9`, `+`
/// and `/`.
pub open spec fn base64_char(n: int) -> char {
    if n < 26 {
        (n + 65) as char
    } else if n < 52 {
        (n - 26 + 97) as char
    } else if n < 62 {
        (n - 52 + 48) as char
    } else if n == 62 {
        '+'
    } else {
        '/'
    }
}

/// The byte at `i`, zero behind the end.
pub open spec fn byte_or_zero(data: Seq<u8>, i: int) -> int {
    if i < data.len() {
        data[i] as int
    } else {
        0
    }
}

/// The `k`-th group of six bits, counted from the most significant bit of the
/// first byte.
pub open spec fn sextet(data: Seq<u8>, k: int) -> int {
    let i = k / 4 * 3;
    if k % 4 == 0 {
        byte_or_zero(data, i) / 4
    } else if k % 4 == 1 {
        byte_or_zero(data, i) % 4 * 16 + byte_or_zero(data, i + 1) / 16
    } else if k % 4 == 2 {
        byte_or_zero(data, i + 1) % 16 * 4 + byte_or_zero(data, i + 2) / 64
    } else {
        byte_or_zero(data, i + 2) % 64
    }
}

/// `data` in base64 with the standard alphabet, padded with `=` to a multiple
/// of four characters.
pub open spec fn base64(data: Seq<u8>) -> Seq<char> {
    Seq::new(
        base64_len(data.len()),
        |k: int|
            if k % 4 == 0 || k / 4 * 3 + k % 4 - 1 < data.len() {
                base64_char(sextet(data, k))
            } else {
                '='
            },
    )
}

/// The six-bit number that a character stands for.
pub open spec fn base64_value(c: char) -> int {
    if 'A' <= c <= 'Z' {
        c as int - 'A' as int
    } else if 'a' <= c <= 'z' {
        c as int - 'a' as int + 26
    } else if '0' <= c <= '9' {
        c as int - '0' as int + 52
    } else if c == '+' {
        62
    } else {
        63
    }
}

/// How many `=` stand at the end of a text.
pub open spec fn padding(text: Seq<char>) -> int {
    if text.len() >= 2 && text[text.len() - 2] == '=' {
        2
    } else if text.len() >= 1 && text[text.len() - 1] == '=' {
        1
    } else {
        0
    }
}

/// The byte at `j` of what a base64 text stands for: eight bits out of two
/// neighbouring characters of a group of four.
pub open spec fn decoded_byte(text: Seq<char>, j: int) -> int {
    let k = j / 3 * 4;
    if j % 3 == 0 {
        base64_value(text[k]) * 4 + base64_value(text[k + 1]) / 16
    } else if j % 3 == 1 {
        base64_value(text[k + 1]) % 16 * 16 + base64_value(text[k + 2]) / 4
    } else {
        base64_value(text[k + 2]) % 4 * 64 + base64_value(text[k + 3])
    }
}

/// What a base64 text stands for.
pub open spec fn decoded(text: Seq<char>) -> Seq<u8> {
    Seq::new((text.len() / 4 * 3 - padding(text)) as nat, |j: int| decoded_byte(text, j) as u8)
}

/// Base64 loses nothing: decoding gives the bytes back.
pub proof fn law_base64_decodes(data: Seq<u8>)
    ensures
        decoded(base64(data)) == data,
{
    let text = base64(data);
    let n = data.len() as int;
    assert forall|k: int| 0 <= k < text.len() implies 0 <= #[trigger] sextet(data, k)
        < 64 by {}
    assert forall|v: int| 0 <= v < 64 implies base64_value(#[trigger] base64_char(v)) == v
        && base64_char(v) != '=' by {}
    assert(text.len() / 4 * 3 - padding(text) == n) by {
        if n > 0 {
            let last = text.len() - 1;
            assert(text[last] == if n % 3 == 0 {
                base64_char(sextet(data, last))
            } else {
                '='
            });
            assert(text[last - 1] == if n % 3 == 1 {
                '='
            } else {
                base64_char(sextet(data, last - 1))
            });
        }
    }
    assert forall|j: int| 0 <= j < n implies decoded_byte(text, j) == data[j] by {
        let k = j / 3 * 4;
        assert(text[k] == base64_char(sextet(data, k)));
        assert(text[k + 1] == base64_char(sextet(data, k + 1)));
        if j % 3 >= 1 {
            assert(text[k + 2] == base64_char(sextet(data, k + 2)));
        }
        if j % 3 == 2 {
            assert(text[k + 3] == base64_char(sextet(data, k + 3)));
        }
    }
    assert(decoded(text) =~= data);
}

/// `Engine::encode` of the `base64` crate with the `STANDARD` engine: padded
/// base64 in the alphabet that ends in `+` and `/`. The text must be one that
/// can be allocated: the crate panics where it is not.
#[verifier::external_body]
pub(crate) fn encode_standard(data: &[u8]) -> (text: String)
    requires
        base64_len(data@.len()) <= isize::MAX,
    ensures
        text@ == base64(data@),
{
    STANDARD.encode(data)
}

} // verus!
