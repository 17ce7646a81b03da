use per_oxo::front_door::parse_i32;
use per_oxo::message_id::MessageId;
use per_oxo::node::parse_octet;
use per_oxo::store::blank;

fn texts_over(alphabet: &[char], longest: usize) -> Vec<String> {
    let mut all = vec![String::new()];
    let mut last = vec![String::new()];
    for _ in 0..longest {
        let mut next = Vec::new();
        for text in &last {
            for c in alphabet {
                let mut longer = text.clone();
                longer.push(*c);
                next.push(longer);
            }
        }
        all.extend(next.iter().cloned());
        last = next;
    }
    all
}

#[test]
fn decimal_numbers_are_read_as_the_standard_library_reads_them() {
    for text in texts_over(&['+', '-', '0', '1', '9', ' ', 'a', '\u{661}'], 4) {
        assert_eq!(parse_i32(&text), text.parse::<i32>().ok(), "{:?}", text);
    }
    for text in [
        "2147483647",
        "2147483648",
        "-2147483648",
        "-2147483649",
        "+2147483647",
        "+2147483648",
        "0000000000000000000000000000002147483647",
        "-000000000000000000000000000002147483648",
        "99999999999999999999999999999999999999",
        "-99999999999999999999999999999999999999",
        "21474836470",
        "1_000",
        "12 ",
        "0x10",
        "--1",
        "+-1",
    ] {
        assert_eq!(parse_i32(text), text.parse::<i32>().ok(), "{:?}", text);
    }
}

#[test]
fn hexadecimal_bytes_are_read_as_the_standard_library_reads_them() {
    for text in texts_over(&['+', '-', '0', '1', '9', 'a', 'f', 'g', 'A', 'F', 'G', ' '], 3) {
        assert_eq!(parse_octet(&text), u8::from_str_radix(&text, 16).ok(), "{:?}", text);
    }
    for text in ["ff", "FF", "100", "0ff", "000000ff", "+ff", "+100", "fff", "0x1f", "\u{ff11}"] {
        assert_eq!(parse_octet(text), u8::from_str_radix(text, 16).ok(), "{:?}", text);
    }
}

#[test]
fn white_space_is_what_the_standard_library_trims() {
    let mut n = 0u32;
    while n <= 0x10FFFF {
        if let Some(c) = char::from_u32(n) {
            let mut text = String::new();
            text.push(c);
            assert_eq!(blank(&text), c.is_whitespace(), "{:x}", n);
        }
        n += 1;
    }
    for text in ["", " ", " \t\r\n", " a ", "\u{3000}\u{2028}", "\u{200b}"] {
        assert_eq!(blank(text), text.trim().is_empty(), "{:?}", text);
    }
}

fn precede(a: [u8; 16], b: [u8; 16]) -> bool {
    for k in 0..16 {
        if a[k] != b[k] {
            return a[k] < b[k];
        }
    }
    false
}

#[test]
fn identifiers_compare_as_their_bytes_do() {
    let values = [
        0u128,
        1,
        0xFF,
        0x100,
        0x0102_0304_0506,
        1 << 64,
        (1 << 64) - 1,
        0x1e752a1f_3b49_658c_802a_010203040506,
        0x1e752a1f_3b49_658b_802a_010203040506,
        0x1e752a20_0000_6000_8000_000000000000,
        u128::MAX - 1,
        u128::MAX,
    ];
    for a in values {
        for b in values {
            let (x, y) = (MessageId { value: a }, MessageId { value: b });
            assert_eq!(x.precedes(&y), precede(a.to_be_bytes(), b.to_be_bytes()));
            assert_eq!(x.precedes(&y), a < b);
        }
    }
}

#[test]
fn later_identifiers_of_a_node_sort_later() {
    let node = [1u8, 2, 3, 4, 5, 6];
    let mut last = MessageId::generate(&node);
    for _ in 0..20000 {
        let next = MessageId::generate(&node);
        let ticks = |id: MessageId| {
            (((id.value >> 96) & 0xFFFF_FFFF) << 28) | (((id.value >> 80) & 0xFFFF) << 12) | ((id.value >> 64) & 0xFFF)
        };
        if ticks(last) < ticks(next) {
            assert!(last.precedes(&next));
            assert!(precede(last.value.to_be_bytes(), next.value.to_be_bytes()));
        }
        last = next;
    }
}
