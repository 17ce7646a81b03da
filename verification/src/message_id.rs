//! Time-ordered 128-bit message identifiers.

use vstd::prelude::*;

verus! {

/// What `uuid::Uuid::parse_str` makes of a text: the identifier read as one
/// big-endian number, or the message of the error it reports.
pub uninterp spec fn uuid_parse(text: Seq<char>) -> Result<u128, Seq<char>>;

/// The hyphenated lower-case text that the `uuid` crate prints for an
/// identifier.
pub uninterp spec fn uuid_text(value: u128) -> Seq<char>;

/// The outcome of reading a text that spells `value`.
pub open spec fn parsed(value: u128) -> Result<u128, Seq<char>> {
    Ok(value)
}

/// A message identifier: sixteen bytes, held as the number they spell when
/// read most significant byte first. Comparing two values therefore compares
/// their bytes from the first one on.
#[derive(Clone, Copy, Debug, PartialEq, Eq, Structural, PartialOrd, Ord, Hash)]
pub struct MessageId {
    pub value: u128,
}

/// The version nibble of an identifier laid out for sorting by time.
pub open spec fn spec_version(value: u128) -> u128 {
    (value >> 76) & 0xF
}

/// The variant bits of an identifier.
pub open spec fn spec_variant(value: u128) -> u128 {
    (value >> 62) & 0x3
}

/// The 60-bit count of 100 ns ticks that a time-ordered identifier carries,
/// most significant part first.
pub open spec fn spec_ticks(value: u128) -> u128 {
    (((value >> 96) & 0xFFFF_FFFF) << 28) | (((value >> 80) & 0xFFFF) << 12) | ((value >> 64)
        & 0xFFF)
}

/// The node identifier in the last six bytes.
pub open spec fn spec_node(value: u128) -> u128 {
    value & 0xFFFF_FFFF_FFFF
}

/// Six node bytes read as one number, first byte most significant.
pub open spec fn node_number(node: [u8; 6]) -> u128 {
    ((node[0] as u128) << 40) | ((node[1] as u128) << 32) | ((node[2] as u128) << 24) | ((
    node[3] as u128) << 16) | ((node[4] as u128) << 8) | (node[5] as u128)
}

impl MessageId {
    /// Whether the identifier has the time-ordered layout: version 6 and the
    /// standard variant.
    pub open spec fn is_time_ordered(self) -> bool {
        spec_version(self.value) == 6 && spec_variant(self.value) == 2
    }

    /// The tick count carried by the identifier.
    pub open spec fn ticks(self) -> u128 {
        spec_ticks(self.value)
    }

    /// The node that issued the identifier.
    pub open spec fn node(self) -> u128 {
        spec_node(self.value)
    }

    /// The sixteen bytes of the identifier, most significant first.
    pub open spec fn bytes(self) -> Seq<u8> {
        leading_bytes(self.value, 16)
    }

    /// A fresh time-ordered identifier for `node`, stamped with the system
    /// clock. Whatever the clock reads, the identifier has the time-ordered
    /// layout and ends in the node's six bytes.
    pub fn generate(node: &[u8; 6]) -> (r: MessageId)
        ensures
            r.is_time_ordered(),
            r.node() == node_number(*node),
    {
        MessageId { value: now_v6(node) }
    }

    /// A random identifier, for a stored message whose own identifier cannot
    /// be read.
    pub fn random() -> (r: MessageId)
        ensures
            spec_version(r.value) == 4,
            spec_variant(r.value) == 2,
    {
        MessageId { value: new_v4() }
    }

    /// Whether `self` sorts strictly before `other`, byte by byte.
    pub fn precedes(&self, other: &MessageId) -> (r: bool)
        ensures
            r == (self.value < other.value),
    {
        self.value < other.value
    }

    /// Reads an identifier from text in any form the `uuid` crate accepts.
    /// The error is the crate's message.
    pub fn parse(text: &str) -> (r: Result<MessageId, String>)
        ensures
            match r {
                Ok(id) => uuid_parse(text@) matches Ok(v) && v == id.value,
                Err(e) => uuid_parse(text@) matches Err(m) && m == e@,
            },
    {
        match parse_uuid(text) {
            Ok(value) => Ok(MessageId { value }),
            Err(e) => Err(e),
        }
    }

    /// The hyphenated text of the identifier.
    pub fn to_text(&self) -> (r: String)
        ensures
            r@ == uuid_text(self.value),
            uuid_parse(r@) == parsed(self.value),
    {
        hyphenated(self.value)
    }
}

/// Calls `uuid::Uuid::parse_str` and hands out the identifier as a number
/// (`Uuid::as_u128`, the big-endian reading of its bytes) or the text of the
/// error. Claims only that the outcome is the one named by `uuid_parse`.
#[verifier::external_body]
fn parse_uuid(text: &str) -> (r: Result<u128, String>)
    ensures
        match r {
            Ok(v) => uuid_parse(text@) matches Ok(w) && w == v,
            Err(e) => uuid_parse(text@) matches Err(m) && m == e@,
        },
{
    match uuid::Uuid::parse_str(text) {
        Ok(u) => Ok(u.as_u128()),
        Err(e) => Err(e.to_string()),
    }
}

/// Prints an identifier through `uuid::Uuid::hyphenated`. Claims that the text
/// is the one named by `uuid_text`, and that `parse_str` reads it back as the
/// same identifier, which the crate documents of every form it prints.
#[verifier::external_body]
fn hyphenated(value: u128) -> (r: String)
    ensures
        r@ == uuid_text(value),
        uuid_parse(r@) == parsed(value),
{
    uuid::Uuid::from_u128(value).hyphenated().to_string()
}

/// The byte of an identifier at place `i`, counted from the most
/// significant one.
pub open spec fn byte_at(value: u128, i: int) -> u8 {
    ((value >> ((120 - 8 * i) as u128)) & 0xFF) as u8
}

/// The first `k` bytes of an identifier.
pub open spec fn leading_bytes(value: u128, k: nat) -> Seq<u8>
    decreases k,
{
    if k == 0 {
        Seq::empty()
    } else {
        leading_bytes(value, (k - 1) as nat).push(byte_at(value, k - 1))
    }
}

/// The number that bytes spell when read most significant byte first.
pub open spec fn big_endian(bytes: Seq<u8>) -> nat
    decreases bytes.len(),
{
    if bytes.len() == 0 {
        0
    } else {
        big_endian(bytes.drop_last()) * 256 + bytes.last() as nat
    }
}

/// Whether `a` comes before `b` byte by byte: at the first place where they
/// differ, `a` holds the smaller byte.
pub open spec fn bytes_precede(a: Seq<u8>, b: Seq<u8>) -> bool {
    exists|k: int|
        0 <= k < a.len() && k < b.len() && a[k] < b[k] && forall|j: int|
            0 <= j < k ==> a[j] == b[j]
}

/// Bytes of equal number that spell the same number are the same bytes.
pub proof fn lemma_big_endian_injective(a: Seq<u8>, b: Seq<u8>)
    requires
        a.len() == b.len(),
        big_endian(a) == big_endian(b),
    ensures
        a == b,
    decreases a.len(),
{
    if a.len() > 0 {
        lemma_big_endian_injective(a.drop_last(), b.drop_last());
        assert(a =~= a.drop_last().push(a.last()));
        assert(b =~= b.drop_last().push(b.last()));
    } else {
        assert(a =~= b);
    }
}

/// Of bytes of equal number, those that spell the smaller number come first
/// byte by byte, and the other way round.
pub proof fn lemma_big_endian_order(a: Seq<u8>, b: Seq<u8>)
    requires
        a.len() == b.len(),
    ensures
        big_endian(a) < big_endian(b) <==> bytes_precede(a, b),
    decreases a.len(),
{
    if a.len() > 0 {
        let head_a = a.drop_last();
        let head_b = b.drop_last();
        let last = a.len() - 1;
        lemma_big_endian_order(head_a, head_b);
        if bytes_precede(a, b) {
            let k = choose|k: int|
                0 <= k < a.len() && k < b.len() && a[k] < b[k] && forall|j: int|
                    0 <= j < k ==> a[j] == b[j];
            if k < last {
                assert(head_a[k] < head_b[k]);
                assert forall|j: int| 0 <= j < k implies head_a[j] == head_b[j] by {
                    assert(a[j] == b[j]);
                }
                assert(bytes_precede(head_a, head_b));
            } else {
                assert(head_a =~= head_b) by {
                    assert forall|j: int| 0 <= j < head_a.len() implies head_a[j] == head_b[j] by {
                        assert(a[j] == b[j]);
                    }
                }
            }
        }
        if big_endian(a) < big_endian(b) {
            if big_endian(head_a) < big_endian(head_b) {
                let k = choose|k: int|
                    0 <= k < head_a.len() && k < head_b.len() && head_a[k] < head_b[k] && forall|
                        j: int,
                    | 0 <= j < k ==> head_a[j] == head_b[j];
                assert(a[k] < b[k]);
                assert forall|j: int| 0 <= j < k implies a[j] == b[j] by {
                    assert(head_a[j] == head_b[j]);
                }
            } else {
                assert(big_endian(head_a) == big_endian(head_b));
                lemma_big_endian_injective(head_a, head_b);
                assert(a[last] < b[last]);
                assert forall|j: int| 0 <= j < last implies a[j] == b[j] by {
                    assert(head_a[j] == head_b[j]);
                }
            }
        }
    }
}

/// The first `k` bytes of an identifier spell its value without the other
/// bytes.
proof fn lemma_leading_bytes(value: u128, k: nat)
    requires
        1 <= k <= 16,
    ensures
        leading_bytes(value, k).len() == k,
        big_endian(leading_bytes(value, k)) == value >> ((128 - 8 * k) as u128),
    decreases k,
{
    let shift = (128 - 8 * k) as u128;
    let bytes = leading_bytes(value, k);
    assert(bytes.drop_last() =~= leading_bytes(value, (k - 1) as nat));
    assert(bytes.last() == byte_at(value, k - 1));
    assert(((value >> shift) & 0xFF) < 256) by (bit_vector);
    if k == 1 {
        assert(leading_bytes(value, 0).len() == 0);
        assert(big_endian(leading_bytes(value, 0)) == 0);
        assert((value >> shift) & 0xFF == value >> shift) by (bit_vector)
            requires
                shift == 120,
        ;
    } else {
        lemma_leading_bytes(value, (k - 1) as nat);
        let above = (shift + 8) as u128;
        assert(value >> shift == (value >> above) * 256 + ((value >> shift) & 0xFF)) by (bit_vector)
            requires
                shift <= 112,
                above == shift + 8,
        ;
    }
}

/// Comparing the values of two identifiers is comparing their sixteen bytes
/// from the first one on.
pub proof fn lemma_value_order_is_byte_order(a: MessageId, b: MessageId)
    ensures
        a.bytes().len() == 16,
        b.bytes().len() == 16,
        a.value < b.value <==> bytes_precede(a.bytes(), b.bytes()),
{
    lemma_leading_bytes(a.value, 16);
    lemma_leading_bytes(b.value, 16);
    lemma_big_endian_order(a.bytes(), b.bytes());
    let x = a.value;
    let y = b.value;
    assert(x >> 0 == x) by (bit_vector);
    assert(y >> 0 == y) by (bit_vector);
}

/// Of two time-ordered identifiers, the one that carries the earlier tick
/// count comes first byte by byte.
pub proof fn lemma_earlier_ticks_come_first_bytewise(a: MessageId, b: MessageId)
    requires
        a.is_time_ordered(),
        b.is_time_ordered(),
        a.ticks() < b.ticks(),
    ensures
        bytes_precede(a.bytes(), b.bytes()),
{
    lemma_earlier_ticks_sort_first(a, b);
    lemma_value_order_is_byte_order(a, b);
}

/// Calls `uuid::Uuid::now_v6`, which reads the system clock and a counter
/// shared by the process. Claims what the crate's layout of a version 6
/// identifier gives whatever the clock and the counter hold: the version
/// nibble 6, the variant bits `10`, and the node's bytes at the end.
#[verifier::external_body]
fn now_v6(node: &[u8; 6]) -> (r: u128)
    ensures
        spec_version(r) == 6,
        spec_variant(r) == 2,
        spec_node(r) == node_number(*node),
{
    uuid::Uuid::now_v6(node).as_u128()
}

/// Calls `uuid::Uuid::new_v4`, which draws random bits. Claims only the
/// version nibble 4 and the variant bits `10`, which the crate sets on every
/// draw.
#[verifier::external_body]
fn new_v4() -> (r: u128)
    ensures
        spec_version(r) == 4,
        spec_variant(r) == 2,
{
    uuid::Uuid::new_v4().as_u128()
}

/// Of two time-ordered identifiers, the one that carries the earlier tick
/// count sorts first, whatever their counters and nodes.
pub proof fn lemma_earlier_ticks_sort_first(a: MessageId, b: MessageId)
    requires
        a.is_time_ordered(),
        b.is_time_ordered(),
        a.ticks() < b.ticks(),
    ensures
        a.value < b.value,
{
    let x = a.value;
    let y = b.value;
    assert(x < y) by (bit_vector)
        requires
            (x >> 76) & 0xF == 6,
            (y >> 76) & 0xF == 6,
            ((((x >> 96) & 0xFFFF_FFFF) << 28) | (((x >> 80) & 0xFFFF) << 12) | ((x >> 64) & 0xFFF))
                < ((((y >> 96) & 0xFFFF_FFFF) << 28) | (((y >> 80) & 0xFFFF) << 12) | ((y >> 64)
                & 0xFFF)),
    ;
}

/// Identifiers issued by one node at the same tick differ only in their
/// counter, and the smaller counter sorts first.
pub proof fn lemma_same_tick_sorts_by_counter(a: MessageId, b: MessageId)
    requires
        a.is_time_ordered(),
        b.is_time_ordered(),
        a.ticks() == b.ticks(),
        a.node() == b.node(),
    ensures
        a.value < b.value <==> ((a.value >> 48) & 0x3FFF) < ((b.value >> 48) & 0x3FFF),
{
    let x = a.value;
    let y = b.value;
    assert((x < y) == (((x >> 48) & 0x3FFF) < ((y >> 48) & 0x3FFF))) by (bit_vector)
        requires
            (x >> 76) & 0xF == 6,
            (y >> 76) & 0xF == 6,
            (x >> 62) & 0x3 == 2,
            (y >> 62) & 0x3 == 2,
            x & 0xFFFF_FFFF_FFFF == y & 0xFFFF_FFFF_FFFF,
            ((((x >> 96) & 0xFFFF_FFFF) << 28) | (((x >> 80) & 0xFFFF) << 12) | ((x >> 64) & 0xFFF))
                == ((((y >> 96) & 0xFFFF_FFFF) << 28) | (((y >> 80) & 0xFFFF) << 12) | ((y >> 64)
                & 0xFFF)),
    ;
}

} // verus!
