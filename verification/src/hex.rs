//! Hexadecimal rendering of digest bytes.
//!
//! Every byte becomes two hex characters, most significant nibble first, in
//! byte order, with no prefix and no separators. The lowercase and uppercase
//! renderings differ only in the letter case of the digit characters, and
//! decoding either rendering gives the bytes back.

use vstd::prelude::*;
use vstd::string::StringExecFns;

verus! {

/// The lowercase hex character for a nibble value.
pub open spec fn nibble_lower(n: u8) -> char
    recommends
        n < 16,
{
    if n == 0 {
        '0'
    } else if n == 1 {
        '1'
    } else if n == 2 {
        '2'
    } else if n == 3 {
        '3'
    } else if n == 4 {
        '4'
    } else if n == 5 {
        '5'
    } else if n == 6 {
        '6'
    } else if n == 7 {
        '7'
    } else if n == 8 {
        '8'
    } else if n == 9 {
        '9'
    } else if n == 10 {
        'a'
    } else if n == 11 {
        'b'
    } else if n == 12 {
        'c'
    } else if n == 13 {
        'd'
    } else if n == 14 {
        'e'
    } else {
        'f'
    }
}

/// The uppercase hex character for a nibble value.
pub open spec fn nibble_upper(n: u8) -> char
    recommends
        n < 16,
{
    if n == 0 {
        '0'
    } else if n == 1 {
        '1'
    } else if n == 2 {
        '2'
    } else if n == 3 {
        '3'
    } else if n == 4 {
        '4'
    } else if n == 5 {
        '5'
    } else if n == 6 {
        '6'
    } else if n == 7 {
        '7'
    } else if n == 8 {
        '8'
    } else if n == 9 {
        '9'
    } else if n == 10 {
        'A'
    } else if n == 11 {
        'B'
    } else if n == 12 {
        'C'
    } else if n == 13 {
        'D'
    } else if n == 14 {
        'E'
    } else {
        'F'
    }
}

/// The two lowercase hex characters of one byte, high nibble first.
pub open spec fn byte_hex_lower(x: u8) -> Seq<char> {
    seq![nibble_lower(x / 16), nibble_lower(x % 16)]
}

/// The two uppercase hex characters of one byte, high nibble first.
pub open spec fn byte_hex_upper(x: u8) -> Seq<char> {
    seq![nibble_upper(x / 16), nibble_upper(x % 16)]
}

/// The lowercase hex rendering of a byte sequence.
pub open spec fn hex_lower(b: Seq<u8>) -> Seq<char>
    decreases b.len(),
{
    if b.len() == 0 {
        Seq::<char>::empty()
    } else {
        hex_lower(b.drop_last()) + byte_hex_lower(b.last())
    }
}

/// The uppercase hex rendering of a byte sequence.
pub open spec fn hex_upper(b: Seq<u8>) -> Seq<char>
    decreases b.len(),
{
    if b.len() == 0 {
        Seq::<char>::empty()
    } else {
        hex_upper(b.drop_last()) + byte_hex_upper(b.last())
    }
}

/// The nibble value of a hex character, either case; other characters are
/// read as zero.
pub open spec fn nibble_val(c: char) -> int {
    if c == '0' {
        0
    } else if c == '1' {
        1
    } else if c == '2' {
        2
    } else if c == '3' {
        3
    } else if c == '4' {
        4
    } else if c == '5' {
        5
    } else if c == '6' {
        6
    } else if c == '7' {
        7
    } else if c == '8' {
        8
    } else if c == '9' {
        9
    } else if c == 'a' || c == 'A' {
        10
    } else if c == 'b' || c == 'B' {
        11
    } else if c == 'c' || c == 'C' {
        12
    } else if c == 'd' || c == 'D' {
        13
    } else if c == 'e' || c == 'E' {
        14
    } else if c == 'f' || c == 'F' {
        15
    } else {
        0
    }
}

/// Decodes a hex character sequence back into bytes, two characters per
/// byte from the end; on an odd length the leading character is ignored.
pub open spec fn hex_decode(s: Seq<char>) -> Seq<u8>
    decreases s.len(),
{
    if s.len() < 2 {
        Seq::<u8>::empty()
    } else {
        hex_decode(s.take(s.len() - 2)).push(
            (16 * nibble_val(s[s.len() - 2]) + nibble_val(s[s.len() - 1])) as u8,
        )
    }
}

/// A hex rendering is two characters per byte.
pub proof fn lemma_hex_lower_len(b: Seq<u8>)
    ensures
        hex_lower(b).len() == 2 * b.len(),
    decreases b.len(),
{
    if b.len() > 0 {
        lemma_hex_lower_len(b.drop_last());
    }
}

/// A hex rendering is two characters per byte.
pub proof fn lemma_hex_upper_len(b: Seq<u8>)
    ensures
        hex_upper(b).len() == 2 * b.len(),
    decreases b.len(),
{
    if b.len() > 0 {
        lemma_hex_upper_len(b.drop_last());
    }
}

/// Decoding the lowercase hex rendering of any byte sequence gives the
/// byte sequence back.
pub proof fn lemma_hex_lower_round_trip(b: Seq<u8>)
    ensures
        hex_decode(hex_lower(b)) == b,
    decreases b.len(),
{
    if b.len() == 0 {
        assert(hex_decode(hex_lower(b)) =~= b);
    } else {
        lemma_hex_lower_round_trip(b.drop_last());
        lemma_hex_lower_len(b.drop_last());
        let s = hex_lower(b);
        assert(s.take(s.len() - 2) =~= hex_lower(b.drop_last()));
        let x = b.last();
        assert(s[s.len() - 2] == nibble_lower(x / 16));
        assert(s[s.len() - 1] == nibble_lower(x % 16));
        assert(nibble_val(nibble_lower(x / 16)) == x / 16);
        assert(nibble_val(nibble_lower(x % 16)) == x % 16);
        assert(16 * (x / 16) + x % 16 == x) by {
            vstd::arithmetic::div_mod::lemma_fundamental_div_mod(x as int, 16);
        }
        assert(hex_decode(s) =~= b);
    }
}

/// Decoding the uppercase hex rendering of any byte sequence gives the
/// byte sequence back.
pub proof fn lemma_hex_upper_round_trip(b: Seq<u8>)
    ensures
        hex_decode(hex_upper(b)) == b,
    decreases b.len(),
{
    if b.len() == 0 {
        assert(hex_decode(hex_upper(b)) =~= b);
    } else {
        lemma_hex_upper_round_trip(b.drop_last());
        lemma_hex_upper_len(b.drop_last());
        let s = hex_upper(b);
        assert(s.take(s.len() - 2) =~= hex_upper(b.drop_last()));
        let x = b.last();
        assert(s[s.len() - 2] == nibble_upper(x / 16));
        assert(s[s.len() - 1] == nibble_upper(x % 16));
        assert(nibble_val(nibble_upper(x / 16)) == x / 16);
        assert(nibble_val(nibble_upper(x % 16)) == x % 16);
        assert(16 * (x / 16) + x % 16 == x) by {
            vstd::arithmetic::div_mod::lemma_fundamental_div_mod(x as int, 16);
        }
        assert(hex_decode(s) =~= b);
    }
}

/// The uppercase character for a nibble is the upcased lowercase one.
pub open spec fn hex_upcase(c: char) -> char {
    if c == 'a' {
        'A'
    } else if c == 'b' {
        'B'
    } else if c == 'c' {
        'C'
    } else if c == 'd' {
        'D'
    } else if c == 'e' {
        'E'
    } else if c == 'f' {
        'F'
    } else {
        c
    }
}

/// The uppercase and lowercase hex renderings of a byte sequence have the
/// same length and differ only in letter case, character by character.
pub proof fn lemma_hex_case(b: Seq<u8>)
    ensures
        hex_upper(b).len() == hex_lower(b).len(),
        forall|i: int|
            0 <= i < hex_lower(b).len() ==> #[trigger] hex_upper(b)[i] == hex_upcase(
                hex_lower(b)[i],
            ),
    decreases b.len(),
{
    if b.len() > 0 {
        lemma_hex_case(b.drop_last());
        lemma_hex_lower_len(b.drop_last());
        lemma_hex_upper_len(b.drop_last());
    }
}

/// The one-character string for a nibble value, lowercase.
fn nibble_lower_str(n: u8) -> (r: &'static str)
    requires
        n < 16,
    ensures
        r@ == seq![nibble_lower(n)],
{
    if n == 0 {
        proof {
            reveal_strlit("0");
        }
        "0"
    } else if n == 1 {
        proof {
            reveal_strlit("1");
        }
        "1"
    } else if n == 2 {
        proof {
            reveal_strlit("2");
        }
        "2"
    } else if n == 3 {
        proof {
            reveal_strlit("3");
        }
        "3"
    } else if n == 4 {
        proof {
            reveal_strlit("4");
        }
        "4"
    } else if n == 5 {
        proof {
            reveal_strlit("5");
        }
        "5"
    } else if n == 6 {
        proof {
            reveal_strlit("6");
        }
        "6"
    } else if n == 7 {
        proof {
            reveal_strlit("7");
        }
        "7"
    } else if n == 8 {
        proof {
            reveal_strlit("8");
        }
        "8"
    } else if n == 9 {
        proof {
            reveal_strlit("9");
        }
        "9"
    } else if n == 10 {
        proof {
            reveal_strlit("a");
        }
        "a"
    } else if n == 11 {
        proof {
            reveal_strlit("b");
        }
        "b"
    } else if n == 12 {
        proof {
            reveal_strlit("c");
        }
        "c"
    } else if n == 13 {
        proof {
            reveal_strlit("d");
        }
        "d"
    } else if n == 14 {
        proof {
            reveal_strlit("e");
        }
        "e"
    } else {
        proof {
            reveal_strlit("f");
        }
        "f"
    }
}

/// The one-character string for a nibble value, uppercase.
fn nibble_upper_str(n: u8) -> (r: &'static str)
    requires
        n < 16,
    ensures
        r@ == seq![nibble_upper(n)],
{
    if n == 0 {
        proof {
            reveal_strlit("0");
        }
        "0"
    } else if n == 1 {
        proof {
            reveal_strlit("1");
        }
        "1"
    } else if n == 2 {
        proof {
            reveal_strlit("2");
        }
        "2"
    } else if n == 3 {
        proof {
            reveal_strlit("3");
        }
        "3"
    } else if n == 4 {
        proof {
            reveal_strlit("4");
        }
        "4"
    } else if n == 5 {
        proof {
            reveal_strlit("5");
        }
        "5"
    } else if n == 6 {
        proof {
            reveal_strlit("6");
        }
        "6"
    } else if n == 7 {
        proof {
            reveal_strlit("7");
        }
        "7"
    } else if n == 8 {
        proof {
            reveal_strlit("8");
        }
        "8"
    } else if n == 9 {
        proof {
            reveal_strlit("9");
        }
        "9"
    } else if n == 10 {
        proof {
            reveal_strlit("A");
        }
        "A"
    } else if n == 11 {
        proof {
            reveal_strlit("B");
        }
        "B"
    } else if n == 12 {
        proof {
            reveal_strlit("C");
        }
        "C"
    } else if n == 13 {
        proof {
            reveal_strlit("D");
        }
        "D"
    } else if n == 14 {
        proof {
            reveal_strlit("E");
        }
        "E"
    } else {
        proof {
            reveal_strlit("F");
        }
        "F"
    }
}

/// Renders a byte slice as hex, lowercase or uppercase.
fn encode(bytes: &[u8], upper: bool) -> (s: String)
    ensures
        s@ == if upper {
            hex_upper(bytes@)
        } else {
            hex_lower(bytes@)
        },
{
    let mut s = String::new();
    let mut i: usize = 0;
    proof {
        assert(bytes@.take(0) =~= Seq::<u8>::empty());
    }
    while i < bytes.len()
        invariant
            i <= bytes@.len(),
            s@ == if upper {
                hex_upper(bytes@.take(i as int))
            } else {
                hex_lower(bytes@.take(i as int))
            },
        decreases bytes@.len() - i,
    {
        let x = bytes[i];
        let hi = x / 16;
        let lo = x % 16;
        if upper {
            s.append(nibble_upper_str(hi));
            s.append(nibble_upper_str(lo));
        } else {
            s.append(nibble_lower_str(hi));
            s.append(nibble_lower_str(lo));
        }
        proof {
            let t = bytes@.take(i + 1);
            assert(t.drop_last() =~= bytes@.take(i as int));
            assert(t.last() == x);
            if upper {
                assert(s@ =~= hex_upper(t.drop_last()) + byte_hex_upper(t.last()));
            } else {
                assert(s@ =~= hex_lower(t.drop_last()) + byte_hex_lower(t.last()));
            }
        }
        i += 1;
    }
    proof {
        assert(bytes@.take(bytes@.len() as int) =~= bytes@);
    }
    s
}

/// Renders a byte slice as lowercase hex: two characters per byte, byte
/// order, no prefix, no separators.
pub fn encode_lowercase(bytes: &[u8]) -> (s: String)
    ensures
        s@ == hex_lower(bytes@),
{
    encode(bytes, false)
}

/// Renders a byte slice as uppercase hex: two characters per byte, byte
/// order, no prefix, no separators.
pub fn encode_uppercase(bytes: &[u8]) -> (s: String)
    ensures
        s@ == hex_upper(bytes@),
{
    encode(bytes, true)
}

} // verus!
