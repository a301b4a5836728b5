//! The identifier the store gives to a user: twelve bytes, written as
//! twenty-four hexadecimal characters wherever it appears as text.

use vstd::prelude::*;

verus! {

/// Number of bytes in an identifier.
pub const ID_BYTES: usize = 12;

/// The lower-case hexadecimal digit for a value below sixteen.
pub open spec fn hex_digit(value: int) -> char {
    seq!['0', '1', '2', '3', '4', '5', '6', '7', '8', '9', 'a', 'b', 'c', 'd', 'e', 'f'][value]
}

/// The value of a hexadecimal digit of either case, if `c` is one.
pub open spec fn hex_value(c: char) -> Option<int> {
    if '0' <= c && c <= '9' {
        Some(c as int - '0' as int)
    } else if 'a' <= c && c <= 'f' {
        Some(c as int - 'a' as int + 10)
    } else if 'A' <= c && c <= 'F' {
        Some(c as int - 'A' as int + 10)
    } else {
        None
    }
}

/// The hexadecimal text of a byte sequence: two lower-case digits per byte,
/// high half first.
pub open spec fn to_hex(bytes: Seq<u8>) -> Seq<char> {
    Seq::new(
        2 * bytes.len(),
        |i: int|
            if i % 2 == 0 {
                hex_digit(bytes[i / 2] as int / 16)
            } else {
                hex_digit(bytes[i / 2] as int % 16)
            },
    )
}

/// Whether `text` is the hexadecimal form of an identifier: exactly
/// twenty-four hexadecimal digits.
pub open spec fn is_hex_id(text: Seq<char>) -> bool {
    &&& text.len() == 2 * ID_BYTES
    &&& forall|i: int| 0 <= i < text.len() ==> (#[trigger] hex_value(text[i])) is Some
}

/// The bytes that a hexadecimal text of even length stands for.
pub open spec fn hex_bytes(text: Seq<char>) -> Seq<u8> {
    Seq::new(
        text.len() / 2,
        |i: int| (16 * hex_value(text[2 * i]).unwrap() + hex_value(text[2 * i + 1]).unwrap()) as u8,
    )
}

/// The identifier that a text stands for, if it is the text of one.
pub open spec fn parse_hex(text: Seq<char>) -> Option<Seq<u8>> {
    if is_hex_id(text) {
        Some(hex_bytes(text))
    } else {
        None
    }
}

/// Identifier of a user in the credential store.
#[derive(Clone, Copy, Debug, PartialEq, Eq)]
pub struct UserId {
    pub bytes: [u8; 12],
}

impl View for UserId {
    type V = Seq<u8>;

    open spec fn view(&self) -> Seq<u8> {
        self.bytes@
    }
}

/// The one-character text of a hexadecimal digit.
fn digit_text(value: u8) -> (r: &'static str)
    requires
        value < 16,
    ensures
        r@ == seq![hex_digit(value as int)],
{
    proof {
        reveal_strlit("0");
        reveal_strlit("1");
        reveal_strlit("2");
        reveal_strlit("3");
        reveal_strlit("4");
        reveal_strlit("5");
        reveal_strlit("6");
        reveal_strlit("7");
        reveal_strlit("8");
        reveal_strlit("9");
        reveal_strlit("a");
        reveal_strlit("b");
        reveal_strlit("c");
        reveal_strlit("d");
        reveal_strlit("e");
        reveal_strlit("f");
    }
    let r = if value == 0 {
        "0"
    } else if value == 1 {
        "1"
    } else if value == 2 {
        "2"
    } else if value == 3 {
        "3"
    } else if value == 4 {
        "4"
    } else if value == 5 {
        "5"
    } else if value == 6 {
        "6"
    } else if value == 7 {
        "7"
    } else if value == 8 {
        "8"
    } else if value == 9 {
        "9"
    } else if value == 10 {
        "a"
    } else if value == 11 {
        "b"
    } else if value == 12 {
        "c"
    } else if value == 13 {
        "d"
    } else if value == 14 {
        "e"
    } else {
        "f"
    };
    assert(r@ =~= seq![hex_digit(value as int)]);
    r
}

/// The value of the character `c` as a hexadecimal digit.
fn digit_value(c: char) -> (r: Option<u8>)
    ensures
        match r {
            Some(v) => hex_value(c) == Some(v as int) && v < 16,
            None => hex_value(c) is None,
        },
{
    if '0' <= c && c <= '9' {
        Some((c as u32 - '0' as u32) as u8)
    } else if 'a' <= c && c <= 'f' {
        Some((c as u32 - 'a' as u32 + 10) as u8)
    } else if 'A' <= c && c <= 'F' {
        Some((c as u32 - 'A' as u32 + 10) as u8)
    } else {
        None
    }
}

impl UserId {
    /// The identifier made of the given twelve bytes.
    pub fn from_bytes(bytes: [u8; 12]) -> (r: UserId)
        ensures
            r.bytes == bytes,
    {
        UserId { bytes }
    }

    /// The twelve bytes of the identifier.
    pub fn bytes(&self) -> (r: [u8; 12])
        ensures
            r == self.bytes,
    {
        self.bytes
    }

    /// The identifier as twenty-four lower-case hexadecimal characters.
    pub fn to_hex(&self) -> (r: String)
        ensures
            r@ == to_hex(self@),
    {
        let mut text = String::new();
        let mut i: usize = 0;
        while i < 12
            invariant
                i <= 12,
                text@ == to_hex(self@.take(i as int)),
            decreases 12 - i,
        {
            let byte = self.bytes[i];
            text.append(digit_text(byte / 16));
            text.append(digit_text(byte % 16));
            i = i + 1;
            assert(text@ =~= to_hex(self@.take(i as int)));
        }
        assert(self@.take(12) =~= self@);
        text
    }

    /// Reads an identifier from its hexadecimal text. Digits of either case
    /// are accepted; anything but twenty-four hexadecimal digits is refused.
    pub fn parse_str(text: &str) -> (r: Option<UserId>)
        ensures
            match r {
                Some(id) => parse_hex(text@) == Some(id@),
                None => parse_hex(text@) is None,
            },
    {
        if text.unicode_len() != 24 {
            return None;
        }
        let mut bytes: [u8; 12] = [0u8; 12];
        let mut i: usize = 0;
        while i < 12
            invariant
                i <= 12,
                text@.len() == 24,
                forall|k: int| 0 <= k < 2 * i ==> (#[trigger] hex_value(text@[k])) is Some,
                forall|k: int| 0 <= k < i ==> bytes@[k] == #[trigger] hex_bytes(text@)[k],
            decreases 12 - i,
        {
            let high = digit_value(text.get_char(2 * i));
            let low = digit_value(text.get_char(2 * i + 1));
            match (high, low) {
                (Some(h), Some(l)) => {
                    bytes[i] = 16 * h + l;
                },
                _ => {
                    return None;
                },
            }
            i = i + 1;
        }
        assert(bytes@ =~= hex_bytes(text@));
        Some(UserId { bytes })
    }

    /// An identifier written as text reads back as the same identifier.
    pub proof fn lemma_hex_round_trip(bytes: Seq<u8>)
        requires
            bytes.len() == ID_BYTES,
        ensures
            parse_hex(to_hex(bytes)) == Some(bytes),
    {
        let text = to_hex(bytes);
        assert forall|i: int| 0 <= i < text.len() implies (#[trigger] hex_value(text[i])) is Some by {
            lemma_digit_round_trip(bytes[i / 2] as int / 16);
            lemma_digit_round_trip(bytes[i / 2] as int % 16);
        }
        assert forall|k: int| 0 <= k < 12 implies hex_bytes(text)[k] == bytes[k] by {
            lemma_digit_round_trip(bytes[k] as int / 16);
            lemma_digit_round_trip(bytes[k] as int % 16);
            assert(text[2 * k] == hex_digit(bytes[k] as int / 16));
            assert(text[2 * k + 1] == hex_digit(bytes[k] as int % 16));
        }
        assert(hex_bytes(text) =~= bytes);
    }
}

/// A digit written by `hex_digit` has the value it was written for.
pub proof fn lemma_digit_round_trip(value: int)
    requires
        0 <= value < 16,
    ensures
        hex_value(hex_digit(value)) == Some(value),
{
}

} // verus!
