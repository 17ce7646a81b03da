//! Conversation identifiers: the canonical name of the pair of users that
//! a direct-message history belongs to.

use vstd::prelude::*;

verus! {

/// The character of a decimal digit.
pub open spec fn digit_char(d: int) -> char {
    if d == 0 {
        '0'
    } else if d == 1 {
        '1'
    } else if d == 2 {
        '2'
    } else if d == 3 {
        '3'
    } else if d == 4 {
        '4'
    } else if d == 5 {
        '5'
    } else if d == 6 {
        '6'
    } else if d == 7 {
        '7'
    } else if d == 8 {
        '8'
    } else {
        '9'
    }
}

/// The decimal digits of a natural number, without leading zeros.
pub open spec fn digits(n: nat) -> Seq<char>
    decreases n,
{
    if n < 10 {
        seq![digit_char(n as int)]
    } else {
        digits(n / 10).push(digit_char((n % 10) as int))
    }
}

/// The decimal text of a whole number: a minus sign for a negative one,
/// then its digits.
pub open spec fn decimal(n: int) -> Seq<char> {
    if n < 0 {
        seq!['-'] + digits((-n) as nat)
    } else {
        digits(n as nat)
    }
}

/// The conversation of two users: the decimal text of the smaller
/// identifier, an underscore, and that of the larger.
pub open spec fn conversation_key(a: i32, b: i32) -> Seq<char> {
    if a < b {
        decimal(a as int) + seq!['_'] + decimal(b as int)
    } else {
        decimal(b as int) + seq!['_'] + decimal(a as int)
    }
}

/// The conversation of two users does not depend on which of them is named
/// first.
pub proof fn lemma_conversation_symmetric(a: i32, b: i32)
    ensures
        conversation_key(a, b) == conversation_key(b, a),
{
}

/// Appends `c` to `s` with `String::push`, which std documents as putting
/// the character at the end.
pub assume_specification[ String::push ](s: &mut String, c: char)
    ensures
        final(s)@ == old(s)@.push(c),
;

/// The character of the digit `d`.
fn digit(d: u8) -> (r: char)
    requires
        d < 10,
    ensures
        r == digit_char(d as int),
{
    if d == 0 {
        '0'
    } else if d == 1 {
        '1'
    } else if d == 2 {
        '2'
    } else if d == 3 {
        '3'
    } else if d == 4 {
        '4'
    } else if d == 5 {
        '5'
    } else if d == 6 {
        '6'
    } else if d == 7 {
        '7'
    } else if d == 8 {
        '8'
    } else {
        '9'
    }
}

/// Appends the decimal text of `n` to `out`.
pub fn push_decimal(out: &mut String, n: i64)
    ensures
        final(out)@ == old(out)@ + decimal(n as int),
{
    let mut rest: u64 = if n < 0 {
        out.push('-');
        let below: i64 = -(n + 1);
        (below as u64) + 1
    } else {
        n as u64
    };
    let ghost head = out@;
    let ghost magnitude = rest as nat;
    assert(old(out)@ + decimal(n as int) =~= head + digits(magnitude));
    let mut reversed: Vec<char> = Vec::new();
    reversed.push(digit((rest % 10) as u8));
    rest = rest / 10;
    // `tail` holds the digits written so far, most significant first.
    let ghost mut tail: Seq<char> = seq![digit_char((magnitude % 10) as int)];
    while rest > 0
        invariant
            reversed@.len() == tail.len(),
            tail.len() >= 1,
            forall|i: int| 0 <= i < tail.len() ==> reversed@[i] == tail[tail.len() - 1 - i],
            rest == 0 ==> digits(magnitude) == tail,
            rest > 0 ==> digits(magnitude) == digits(rest as nat) + tail,
        decreases rest,
    {
        let d = digit((rest % 10) as u8);
        reversed.push(d);
        proof {
            let next = (rest / 10) as nat;
            let grown = seq![d] + tail;
            if next == 0 {
                assert(digits(rest as nat) == seq![d]);
            } else {
                assert(digits(rest as nat) == digits(next).push(d));
                assert(digits(next).push(d) + tail =~= digits(next) + grown);
            }
            assert forall|i: int| 0 <= i < grown.len() implies reversed@[i] == grown[grown.len() - 1
                - i] by {
                if i < tail.len() {
                    assert(grown[grown.len() - 1 - i] == tail[tail.len() - 1 - i]);
                }
            }
            tail = grown;
        }
        rest = rest / 10;
    }
    let mut i: usize = reversed.len();
    while i > 0
        invariant
            i <= reversed.len(),
            reversed@.len() == tail.len(),
            forall|k: int| 0 <= k < tail.len() ==> reversed@[k] == tail[tail.len() - 1 - k],
            out@ == head + tail.take(tail.len() - i),
        decreases i,
    {
        i -= 1;
        out.push(reversed[i]);
        assert(out@ =~= head + tail.take(tail.len() - i));
    }
    assert(tail.take(tail.len() as int) =~= tail);
}

/// The identifier of the conversation between two users.
pub fn conversation_id(a: i32, b: i32) -> (r: String)
    ensures
        r@ == conversation_key(a, b),
{
    let (low, high) = if a < b {
        (a, b)
    } else {
        (b, a)
    };
    let mut key = String::new();
    push_decimal(&mut key, low as i64);
    key.push('_');
    push_decimal(&mut key, high as i64);
    assert(key@ =~= decimal(low as int) + seq!['_'] + decimal(high as int));
    key
}

} // verus!
