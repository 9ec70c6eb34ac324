//! Reading the connection port out of the payload of a launch request.

use crate::json::Json;
use crate::requests::LaunchRequestArguments;
use vstd::prelude::*;

verus! {

/// The character `+` as a byte.
const ASCII_PLUS: u8 = 43;

/// The character `0` as a byte.
const ASCII_ZERO: u8 = 48;

/// The character `9` as a byte.
const ASCII_NINE: u8 = 57;

/// Whether `c` is one of the ten decimal digits.
pub open spec fn is_digit(c: char) -> bool {
    '0' <= c <= '9'
}

/// Whether `text` holds decimal digits and nothing else.
pub open spec fn all_digits(text: Seq<char>) -> bool {
    forall|i: int| 0 <= i < text.len() ==> is_digit(#[trigger] text[i])
}

/// The number that the decimal digits `digits` write.
pub open spec fn decimal_value(digits: Seq<char>) -> nat
    decreases digits.len(),
{
    if digits.len() == 0 {
        0
    } else {
        decimal_value(digits.drop_last()) * 10 + (digits.last() as nat - '0' as nat) as nat
    }
}

/// `text` without the one `+` that may stand before its digits.
pub open spec fn unsigned_part(text: Seq<char>) -> Seq<char> {
    if text.len() > 0 && text[0] == '+' {
        text.subrange(1, text.len() as int)
    } else {
        text
    }
}

/// The port that `text` writes: an optional `+`, then one or more decimal
/// digits and nothing else, whose number is at most 65535. `None` for any
/// other text.
pub open spec fn port_of_text(text: Seq<char>) -> Option<u16> {
    let digits = unsigned_part(text);
    if digits.len() > 0 && all_digits(digits) && decimal_value(digits) <= u16::MAX {
        Some(decimal_value(digits) as u16)
    } else {
        None
    }
}

/// The port that the pair of a flag and its value names: the flag must be
/// `--port`, and the value must write a port.
pub open spec fn port_of_flag(flag: Seq<char>, value: Seq<char>) -> Option<u16> {
    if flag == "--port"@ {
        port_of_text(value)
    } else {
        None
    }
}

/// The port that a launch payload names: the payload must be an object whose
/// member `args` is an array of at least two items, of which the first two
/// are strings, the flag `--port` and the text of a port.
pub open spec fn port_in_payload(payload: Json) -> Option<u16> {
    match payload.member("args"@) {
        Some(list) => match list.elements() {
            Some(items) => if items.len() >= 2 {
                match (items[0].text(), items[1].text()) {
                    (Some(flag), Some(value)) => port_of_flag(flag, value),
                    _ => None,
                }
            } else {
                None
            },
            None => None,
        },
        None => None,
    }
}

/// The port that the arguments of a launch request name, if they name one.
pub open spec fn port_in_args(args: LaunchRequestArguments) -> Option<u16> {
    match args.additional_data {
        Some(payload) => port_in_payload(payload),
        None => None,
    }
}

/// A number written with more digits is no smaller than the number that its
/// first `k` digits write.
proof fn lemma_decimal_value_grows(digits: Seq<char>, k: int)
    requires
        0 <= k <= digits.len(),
        all_digits(digits),
    ensures
        decimal_value(digits.take(k)) <= decimal_value(digits),
    decreases digits.len() - k,
{
    if k == digits.len() {
        assert(digits.take(k) =~= digits);
    } else {
        let longer = digits.take(k + 1);
        assert(longer.drop_last() =~= digits.take(k));
        lemma_decimal_value_grows(digits, k + 1);
    }
}

/// Reads a port from its text, as decimal digits after an optional `+`.
pub fn parse_port(text: &str) -> (port: Option<u16>)
    ensures
        port == port_of_text(text@),
{
    let ghost digits = unsigned_part(text@);
    if !text.is_ascii() {
        proof {
            let i = choose|i: int|
                0 <= i < text@.len() && !('\0' <= #[trigger] text@[i] <= '\u{7f}');
            if text@[0] == '+' {
                assert(digits[i - 1] == text@[i]);
            }
        }
        return None;
    }
    let n = text.unicode_len();
    let mut start: usize = 0;
    if n > 0 && text.get_ascii(0) == ASCII_PLUS {
        start = 1;
    }
    if start == n {
        return None;
    }
    let mut acc: u32 = 0;
    let mut i: usize = start;
    while i < n
        invariant
            text.is_ascii(),
            n == text@.len(),
            start <= i <= n,
            digits == unsigned_part(text@),
            digits == text@.subrange(start as int, n as int),
            all_digits(digits.take(i - start)),
            acc == decimal_value(digits.take(i - start)),
            acc <= u16::MAX,
        decreases n - i,
    {
        let b = text.get_ascii(i);
        let ghost c = text@[i as int];
        assert(c == digits[i - start]);
        if b < ASCII_ZERO || b > ASCII_NINE {
            return None;
        }
        proof {
            let longer = digits.take(i - start + 1);
            assert(longer.drop_last() =~= digits.take(i - start));
        }
        acc = acc * 10 + (b - ASCII_ZERO) as u32;
        if acc > 65535 {
            proof {
                if all_digits(digits) {
                    lemma_decimal_value_grows(digits, i - start + 1);
                }
            }
            return None;
        }
        i = i + 1;
    }
    proof {
        assert(digits.take(i - start) =~= digits);
    }
    Some(acc as u16)
}

/// Whether two texts hold the same characters.
fn same_text(a: &str, b: &str) -> (same: bool)
    ensures
        same == (a@ == b@),
{
    String::from_str(a) == String::from_str(b)
}

/// Reads the port named by the first two items of a launch payload's
/// argument list.
pub fn port_from_flag(flag: &str, value: &str) -> (port: Option<u16>)
    ensures
        port == port_of_flag(flag@, value@),
{
    if same_text(flag, "--port") {
        parse_port(value)
    } else {
        None
    }
}

/// Recovers the connection port from the arguments of a launch request.
/// A payload of any other shape yields `None`: extraction never fails.
pub fn extract_port_from_args(args: &LaunchRequestArguments) -> (port: Option<u16>)
    ensures
        port == port_in_args(*args),
{
    if let Some(payload) = &args.additional_data {
        if let Some(list) = payload.get("args") {
            if let Some(items) = list.as_array() {
                if items.len() >= 2 {
                    if let Some(flag) = items[0].as_str() {
                        if let Some(value) = items[1].as_str() {
                            return port_from_flag(flag, value);
                        }
                    }
                }
            }
        }
    }
    None
}

} // verus!
