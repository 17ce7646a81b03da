//! The node identifier of a gateway: six bytes, configured as six
//! hexadecimal numbers between colons.

use vstd::prelude::*;
use vstd::string::*;

verus! {

/// Whether a character is a hexadecimal digit, in either case.
pub open spec fn is_hex_digit(c: char) -> bool {
    ('0' <= c && c <= '9') || ('a' <= c && c <= 'f') || ('A' <= c && c <= 'F')
}

/// The value of a hexadecimal digit.
pub open spec fn hex_digit_value(c: char) -> int {
    if '0' <= c && c <= '9' {
        c as int - '0' as int
    } else if 'a' <= c && c <= 'f' {
        c as int - 'a' as int + 10
    } else {
        c as int - 'A' as int + 10
    }
}

/// Whether a text holds hexadecimal digits only.
pub open spec fn all_hex_digits(text: Seq<char>) -> bool {
    forall|i: int| 0 <= i < text.len() ==> is_hex_digit(#[trigger] text[i])
}

/// The number that hexadecimal digits spell; leading zeros count for
/// nothing.
pub open spec fn hex_value(digits: Seq<char>) -> int
    decreases digits.len(),
{
    if digits.len() == 0 {
        0
    } else {
        hex_value(digits.drop_last()) * 16 + hex_digit_value(digits.last())
    }
}

/// The hexadecimal digits of a text that may begin with a plus sign.
pub open spec fn unsigned_digits(text: Seq<char>) -> Seq<char> {
    if text.len() > 0 && text[0] == '+' {
        text.subrange(1, text.len() as int)
    } else {
        text
    }
}

/// The byte that a text spells: an optional plus sign, then one or more
/// hexadecimal digits and nothing else, for a number below 256.
pub open spec fn octet_of_text(text: Seq<char>) -> Option<u8> {
    let digits = unsigned_digits(text);
    if digits.len() == 0 || !all_hex_digits(digits) || hex_value(digits) > 255 {
        None
    } else {
        Some(hex_value(digits) as u8)
    }
}

/// The parts of a text between its colons. A text without a colon is one
/// part; a colon at an end leaves an empty part there.
pub open spec fn colon_parts(text: Seq<char>) -> Seq<Seq<char>>
    decreases text.len(),
{
    if text.len() == 0 {
        seq![Seq::empty()]
    } else {
        let before = colon_parts(text.drop_last());
        if text.last() == ':' {
            before.push(Seq::empty())
        } else {
            before.drop_last().push(before.last().push(text.last()))
        }
    }
}

/// The readings of a list of texts.
pub open spec fn text_views(parts: Seq<String>) -> Seq<Seq<char>> {
    Seq::new(parts.len(), |i: int| parts[i]@)
}

/// The node identifier that a text spells: its parts between colons must
/// be six, and each must spell a byte.
pub open spec fn node_of_text(text: Seq<char>) -> Option<Seq<u8>> {
    let parts = colon_parts(text);
    if parts.len() == 6 && forall|i: int| 0 <= i < 6 ==> (#[trigger] octet_of_text(parts[i])) is Some {
        Some(Seq::new(6, |i: int| octet_of_text(parts[i]).unwrap()))
    } else {
        None
    }
}

/// The parts of a text between its colons.
pub fn split_colons(text: &str) -> (r: Vec<String>)
    ensures
        text_views(r@) == colon_parts(text@),
{
    let n = text.unicode_len();
    let mut parts: Vec<String> = Vec::new();
    let mut current = String::new();
    let mut i: usize = 0;
    assert(text@.take(0) =~= Seq::empty());
    assert(text_views(parts@).push(current@) =~= colon_parts(text@.take(0)));
    while i < n
        invariant
            i <= n,
            n == text@.len(),
            text_views(parts@).push(current@) == colon_parts(text@.take(i as int)),
        decreases n - i,
    {
        let c = text.get_char(i);
        proof {
            let now = text@.take(i + 1);
            assert(now.drop_last() =~= text@.take(i as int));
            assert(now.last() == c);
            let before = colon_parts(text@.take(i as int));
            assert(before.last() == current@);
            assert(before.drop_last() =~= text_views(parts@));
        }
        if c == ':' {
            let ghost done = current@;
            let ghost earlier = text_views(parts@);
            parts.push(current);
            current = String::new();
            assert(text_views(parts@) =~= earlier.push(done));
        } else {
            current.push(c);
        }
        i += 1;
    }
    assert(text@.take(n as int) =~= text@);
    parts.push(current);
    assert(text_views(parts@) =~= colon_parts(text@));
    parts
}

/// Reads a node identifier: six hexadecimal bytes between colons, as in
/// `00:01:02:03:04:05`.
pub fn parse_node_id(text: &str) -> (r: Option<[u8; 6]>)
    ensures
        match r {
            Some(node) => node_of_text(text@) == Some(node@),
            None => node_of_text(text@) is None,
        },
{
    let parts = split_colons(text);
    if parts.len() != 6 {
        return None;
    }
    let mut bytes: Vec<u8> = Vec::new();
    let mut i: usize = 0;
    while i < 6
        invariant
            i <= 6,
            parts@.len() == 6,
            text_views(parts@) == colon_parts(text@),
            bytes@.len() == i,
            forall|j: int| 0 <= j < i ==> octet_of_text(colon_parts(text@)[j]) == Some(#[trigger] bytes@[j]),
        decreases 6 - i,
    {
        assert(text_views(parts@)[i as int] == parts@[i as int]@);
        match parse_octet(parts[i].as_str()) {
            Some(b) => {
                bytes.push(b);
            },
            None => {
                return None;
            },
        }
        i += 1;
    }
    let node = [bytes[0], bytes[1], bytes[2], bytes[3], bytes[4], bytes[5]];
    proof {
        assert forall|j: int| 0 <= j < 6 implies (#[trigger] octet_of_text(colon_parts(text@)[j])) is Some by {
            assert(octet_of_text(colon_parts(text@)[j]) == Some(bytes@[j]));
        }
        assert(node@ =~= Seq::new(6, |j: int| octet_of_text(colon_parts(text@)[j]).unwrap()));
    }
    Some(node)
}

/// Hexadecimal digits spell no negative number, and more digits spell no
/// smaller one.
proof fn lemma_hex_value(digits: Seq<char>)
    requires
        all_hex_digits(digits),
    ensures
        hex_value(digits) >= 0,
        digits.len() > 0 ==> hex_value(digits) >= hex_value(digits.drop_last()),
    decreases digits.len(),
{
    if digits.len() > 0 {
        let head = digits.drop_last();
        assert(all_hex_digits(head)) by {
            assert forall|i: int| 0 <= i < head.len() implies is_hex_digit(#[trigger] head[i]) by {
                assert(head[i] == digits[i]);
            }
        }
        lemma_hex_value(head);
        assert(is_hex_digit(digits[digits.len() - 1]));
    }
}

/// The value of a hexadecimal digit, or nothing for another character.
fn hex_digit(c: char) -> (r: Option<u32>)
    ensures
        match r {
            Some(d) => is_hex_digit(c) && d == hex_digit_value(c),
            None => !is_hex_digit(c),
        },
{
    if '0' <= c && c <= '9' {
        Some(c as u32 - '0' as u32)
    } else if 'a' <= c && c <= 'f' {
        Some(c as u32 - 'a' as u32 + 10)
    } else if 'A' <= c && c <= 'F' {
        Some(c as u32 - 'A' as u32 + 10)
    } else {
        None
    }
}

/// Reads a byte from its hexadecimal text: see [`octet_of_text`].
pub fn parse_octet(text: &str) -> (r: Option<u8>)
    ensures
        r == octet_of_text(text@),
{
    let n = text.unicode_len();
    if n == 0 {
        return None;
    }
    let start: usize = if text.get_char(0) == '+' {
        1
    } else {
        0
    };
    if start == n {
        assert(text@.subrange(1, n as int).len() == 0);
        return None;
    }
    let ghost digits = unsigned_digits(text@);
    assert(digits =~= text@.subrange(start as int, n as int));
    let mut value: u32 = 0;
    let mut i: usize = start;
    assert(text@.subrange(start as int, start as int) =~= Seq::empty());
    while i < n
        invariant
            start <= i <= n,
            n == text@.len(),
            digits == text@.subrange(start as int, n as int),
            digits == unsigned_digits(text@),
            all_hex_digits(text@.subrange(start as int, i as int)),
            value <= 255,
            value == hex_value(text@.subrange(start as int, i as int)),
        decreases n - i,
    {
        let c = text.get_char(i);
        let ghost before = text@.subrange(start as int, i as int);
        let ghost now = text@.subrange(start as int, i + 1);
        let d = match hex_digit(c) {
            Some(d) => d,
            None => {
                assert(digits[i - start] == c);
                return None;
            },
        };
        proof {
            assert(now.drop_last() =~= before);
            assert(now.last() == c);
            assert forall|j: int| 0 <= j < now.len() implies is_hex_digit(#[trigger] now[j]) by {
                if j < before.len() {
                    assert(now[j] == before[j]);
                }
            }
            assert(hex_value(now) == hex_value(before) * 16 + hex_digit_value(c));
        }
        value = value * 16 + d;
        if value > 255 {
            proof {
                lemma_hex_beyond(digits, i + 1 - start);
                assert(digits.take(i + 1 - start) =~= now);
            }
            return None;
        }
        i += 1;
    }
    assert(text@.subrange(start as int, n as int) =~= digits);
    Some(value as u8)
}

/// Where digits spell a number, their first `k` spell no larger one.
proof fn lemma_hex_beyond(digits: Seq<char>, k: int)
    requires
        0 <= k <= digits.len(),
    ensures
        all_hex_digits(digits) ==> hex_value(digits) >= hex_value(digits.take(k)),
    decreases digits.len() - k,
{
    if all_hex_digits(digits) {
        if k < digits.len() {
            lemma_hex_beyond(digits, k + 1);
            let longer = digits.take(k + 1);
            assert(all_hex_digits(longer)) by {
                assert forall|j: int| 0 <= j < longer.len() implies is_hex_digit(
                    #[trigger] longer[j],
                ) by {
                    assert(longer[j] == digits[j]);
                }
            }
            lemma_hex_value(longer);
            assert(longer.drop_last() =~= digits.take(k));
        } else {
            assert(digits.take(k) =~= digits);
        }
    }
}

} // verus!
