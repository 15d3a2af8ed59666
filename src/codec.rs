use vstd::prelude::*;
use vstd::string::StringSliceAdditionalSpecFns;

verus! {

/// The value of an ASCII hex digit (either case), if the byte is one.
pub open spec fn hex_value(c: u8) -> Option<u8> {
    if 48 <= c && c <= 57 {
        Some((c - 48) as u8)
    } else if 97 <= c && c <= 102 {
        Some((c - 87) as u8)
    } else if 65 <= c && c <= 70 {
        Some((c - 55) as u8)
    } else {
        None
    }
}

/// The lower-case hex digit of a nibble.
pub open spec fn hex_char(n: u8) -> char {
    if n < 10 {
        ((n + 48) as u8) as char
    } else {
        ((n + 87) as u8) as char
    }
}

/// `text` is the lower-case hex spelling of `bytes`, two digits per byte,
/// high nibble first.
pub open spec fn is_hex_of(text: Seq<char>, bytes: Seq<u8>) -> bool {
    &&& text.len() == 2 * bytes.len()
    &&& forall|i: int|
        0 <= i < bytes.len() ==> #[trigger] text[2 * i] == hex_char(bytes[i] / 16) && text[2 * i + 1]
            == hex_char(bytes[i] % 16)
}

/// `text` (as UTF-8 bytes) is an even run of hex digits.
pub open spec fn is_hex_text(text: Seq<u8>) -> bool {
    text.len() % 2 == 0 && forall|i: int| 0 <= i < text.len() ==> (#[trigger] hex_value(text[i])).is_some()
}

/// `text` is an even run of hex digits that spells `bytes`.
pub open spec fn hex_decoded(text: Seq<u8>, bytes: Seq<u8>) -> bool {
    &&& is_hex_text(text)
    &&& 2 * bytes.len() == text.len()
    &&& forall|i: int|
        0 <= i < bytes.len() ==> #[trigger] bytes[i] == 16 * hex_value(text[2 * i]).unwrap() + hex_value(
            text[2 * i + 1],
        ).unwrap()
}

/// Hex text spells at most one byte string.
pub proof fn lemma_hex_decoded_unique(text: Seq<u8>, a: Seq<u8>, b: Seq<u8>)
    requires
        hex_decoded(text, a),
        hex_decoded(text, b),
    ensures
        a == b,
{
    assert(a =~= b);
}

fn hex_digit_value(c: u8) -> (r: Option<u8>)
    ensures
        r == hex_value(c),
{
    if 48 <= c && c <= 57 {
        Some(c - 48)
    } else if 97 <= c && c <= 102 {
        Some(c - 87)
    } else if 65 <= c && c <= 70 {
        Some(c - 55)
    } else {
        None
    }
}

fn hex_digit_text(n: u8) -> (r: &'static str)
    requires
        n < 16,
    ensures
        r@ == seq![hex_char(n)],
{
    proof {
        reveal_strlit("0");
        reveal_strlit("1");
        reveal_strlit("2");
        reveal_strlit("3");
        reveal_strlit("4");
        reveal_strlit("5");
        reveal_strlit("6");
        reveal_strlit("7");
        reveal_strlit("8");
        reveal_strlit("9");
        reveal_strlit("a");
        reveal_strlit("b");
        reveal_strlit("c");
        reveal_strlit("d");
        reveal_strlit("e");
        reveal_strlit("f");
    }
    match n {
        0 => "0",
        1 => "1",
        2 => "2",
        3 => "3",
        4 => "4",
        5 => "5",
        6 => "6",
        7 => "7",
        8 => "8",
        9 => "9",
        10 => "a",
        11 => "b",
        12 => "c",
        13 => "d",
        14 => "e",
        _ => "f",
    }
}

/// Lower-case hex spelling of `bytes`.
pub fn to_hex(bytes: &[u8]) -> (r: String)
    ensures
        is_hex_of(r@, bytes@),
{
    let mut out = String::new();
    let n = bytes.len();
    let mut i: usize = 0;
    while i < n
        invariant
            n == bytes@.len(),
            i <= n,
            out@.len() == 2 * i,
            forall|j: int|
                0 <= j < i ==> #[trigger] out@[2 * j] == hex_char(bytes@[j] / 16) && out@[2 * j + 1]
                    == hex_char(bytes@[j] % 16),
        decreases n - i,
    {
        let b = bytes[i];
        let prev = Ghost(out@);
        out.append(hex_digit_text(b / 16));
        out.append(hex_digit_text(b % 16));
        assert forall|j: int| 0 <= j < i + 1 implies #[trigger] out@[2 * j] == hex_char(bytes@[j] / 16)
            && out@[2 * j + 1] == hex_char(bytes@[j] % 16) by {
            if j < i {
                assert(out@[2 * j] == prev@[2 * j]);
                assert(out@[2 * j + 1] == prev@[2 * j + 1]);
            }
        }
        i = i + 1;
    }
    out
}

/// Decodes an even run of hex digits, of either case; anything else is `None`.
pub fn from_hex(text: &str) -> (r: Option<Vec<u8>>)
    ensures
        r.is_some() == is_hex_text(text.spec_bytes()),
        r.is_some() ==> hex_decoded(text.spec_bytes(), r.unwrap()@),
{
    let t = text.as_bytes();
    let n = t.len();
    if n % 2 != 0 {
        return None;
    }
    let mut out: Vec<u8> = Vec::new();
    let mut i: usize = 0;
    while i < n
        invariant
            t@ == text.spec_bytes(),
            n == t@.len(),
            n % 2 == 0,
            i % 2 == 0,
            i <= n,
            out@.len() * 2 == i,
            forall|k: int| 0 <= k < i ==> (#[trigger] hex_value(t@[k])).is_some(),
            forall|j: int|
                0 <= j < out@.len() ==> #[trigger] out@[j] == 16 * hex_value(t@[2 * j]).unwrap()
                    + hex_value(t@[2 * j + 1]).unwrap(),
        decreases n - i,
    {
        let hi = hex_digit_value(t[i]);
        let lo = hex_digit_value(t[i + 1]);
        match (hi, lo) {
            (Some(h), Some(l)) => {
                out.push(16 * h + l);
                assert forall|k: int| 0 <= k < i + 2 implies (#[trigger] hex_value(t@[k])).is_some() by {
                    if k == i + 1 {
                    } else if k == i {
                    }
                }
                i = i + 2;
            },
            _ => {
                assert(hex_value(t@[i as int]).is_none() || hex_value(t@[i + 1]).is_none());
                return None;
            },
        }
    }
    Some(out)
}

} // verus!
