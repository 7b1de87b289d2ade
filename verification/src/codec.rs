//! Byte-string codecs used on the wire: hexadecimal encoding of fixed-length
//! identifiers (the namespace id and block header ids travel as hex strings
//! on textual transports) and decimal rendering of batch numbers.

use vstd::prelude::*;

verus! {

/// The UTF-8 bytes of a character sequence (what `str::as_bytes` returns
/// for a string whose view is `s`).
pub open spec fn utf8_bytes(s: Seq<char>) -> Seq<u8> {
    vstd::utf8::encode_utf8(s)
}

/// Whether `b` is the ASCII code of a hexadecimal digit, upper or lower case.
pub open spec fn is_hex_digit(b: u8) -> bool {
    (48 <= b && b <= 57) || (97 <= b && b <= 102) || (65 <= b && b <= 70)
}

/// The value (0..=15) of the hexadecimal digit with ASCII code `b`.
pub open spec fn hex_digit_value(b: u8) -> u8
    recommends
        is_hex_digit(b),
{
    if 48 <= b && b <= 57 {
        (b - 48) as u8
    } else if 97 <= b && b <= 102 {
        (b - 97 + 10) as u8
    } else {
        (b - 65 + 10) as u8
    }
}

/// The ASCII code of the lower-case hexadecimal digit for a value below 16.
pub open spec fn hex_digit_char(v: u8) -> u8
    recommends
        v < 16,
{
    if v < 10 {
        (v + 48) as u8
    } else {
        (v - 10 + 97) as u8
    }
}

/// Whether the byte string `s` is well-formed hexadecimal: an even number of
/// hex digits.
pub open spec fn is_hex_seq(s: Seq<u8>) -> bool {
    s.len() % 2 == 0 && (forall|i: int| 0 <= i < s.len() ==> is_hex_digit(#[trigger] s[i]))
}

/// The byte encoded by the two hex digits `hi` and `lo`.
pub open spec fn hex_byte(hi: u8, lo: u8) -> u8 {
    (hex_digit_value(hi) * 16 + hex_digit_value(lo)) as u8
}

/// The bytes denoted by the hex string `s`, two digits per byte.
pub open spec fn hex_decoded(s: Seq<u8>) -> Seq<u8>
    recommends
        is_hex_seq(s),
    decreases s.len(),
{
    if s.len() < 2 {
        Seq::empty()
    } else {
        seq![hex_byte(s[0], s[1])] + hex_decoded(s.skip(2))
    }
}

/// The lower-case hex string denoting the bytes `b`, two digits per byte.
pub open spec fn hex_encoded(b: Seq<u8>) -> Seq<u8>
    decreases b.len(),
{
    if b.len() == 0 {
        Seq::empty()
    } else {
        seq![hex_digit_char((b[0] / 16) as u8), hex_digit_char((b[0] % 16) as u8)]
            + hex_encoded(b.skip(1))
    }
}

/// Well-formed hex of length `2 * n` decodes to exactly `n` bytes.
pub proof fn lemma_hex_decoded_len(s: Seq<u8>)
    requires
        s.len() % 2 == 0,
    ensures
        hex_decoded(s).len() == s.len() / 2,
    decreases s.len(),
{
    if s.len() >= 2 {
        lemma_hex_decoded_len(s.skip(2));
    }
}

/// Decoding distributes over concatenation at an even split point.
pub proof fn lemma_hex_decoded_append(a: Seq<u8>, b: Seq<u8>)
    requires
        a.len() % 2 == 0,
    ensures
        hex_decoded(a + b) =~= hex_decoded(a) + hex_decoded(b),
    decreases a.len(),
{
    if a.len() == 0 {
        assert(a + b =~= b);
    } else {
        assert((a + b).skip(2) =~= a.skip(2) + b);
        lemma_hex_decoded_append(a.skip(2), b);
    }
}

/// Encoding distributes over concatenation.
pub proof fn lemma_hex_encoded_append(a: Seq<u8>, b: Seq<u8>)
    ensures
        hex_encoded(a + b) =~= hex_encoded(a) + hex_encoded(b),
    decreases a.len(),
{
    if a.len() == 0 {
        assert(a + b =~= b);
    } else {
        assert((a + b).skip(1) =~= a.skip(1) + b);
        lemma_hex_encoded_append(a.skip(1), b);
    }
}

/// The encoding of `n` bytes is well-formed hex of length `2 * n`.
pub proof fn lemma_hex_encoded_valid(b: Seq<u8>)
    ensures
        is_hex_seq(hex_encoded(b)),
        hex_encoded(b).len() == 2 * b.len(),
    decreases b.len(),
{
    if b.len() > 0 {
        lemma_hex_encoded_valid(b.skip(1));
        assert forall|i: int| 0 <= i < hex_encoded(b).len() implies is_hex_digit(
            #[trigger] hex_encoded(b)[i],
        ) by {
            if i >= 2 {
                assert(hex_encoded(b)[i] == hex_encoded(b.skip(1))[i - 2]);
            }
        }
    }
}

/// Law: hex encoding and decoding are inverse — decoding the encoding of any
/// byte string gives that byte string back.
pub proof fn lemma_hex_round_trip(b: Seq<u8>)
    ensures
        hex_decoded(hex_encoded(b)) =~= b,
    decreases b.len(),
{
    if b.len() > 0 {
        lemma_hex_round_trip(b.skip(1));
        assert(hex_encoded(b).skip(2) =~= hex_encoded(b.skip(1)));
        assert(hex_byte(hex_digit_char((b[0] / 16) as u8), hex_digit_char((b[0] % 16) as u8))
            == b[0]);
        assert(seq![b[0]] + b.skip(1) =~= b);
    }
}

/// Whether `b` is the ASCII code of a lower-case hexadecimal digit, the form
/// the encoder produces.
pub open spec fn is_lower_hex_digit(b: u8) -> bool {
    (48 <= b && b <= 57) || (97 <= b && b <= 102)
}

/// Law: on well-formed lower-case hex, decoding and re-encoding gives the
/// input string back (the other direction of the round trip).
pub proof fn lemma_hex_decode_encode(s: Seq<u8>)
    requires
        s.len() % 2 == 0,
        forall|i: int| 0 <= i < s.len() ==> is_lower_hex_digit(#[trigger] s[i]),
    ensures
        hex_encoded(hex_decoded(s)) =~= s,
    decreases s.len(),
{
    if s.len() >= 2 {
        lemma_hex_decode_encode(s.skip(2));
        let x = hex_byte(s[0], s[1]);
        assert(x / 16 == hex_digit_value(s[0]) && x % 16 == hex_digit_value(s[1]));
        assert(hex_decoded(s).skip(1) =~= hex_decoded(s.skip(2)));
        assert(seq![s[0], s[1]] + s.skip(2) =~= s);
    }
}

/// The value of a single hex digit, or `None` for any other byte.
fn hex_val(b: u8) -> (r: Option<u8>)
    ensures
        match r {
            Some(v) => is_hex_digit(b) && v == hex_digit_value(b) && v < 16,
            None => !is_hex_digit(b),
        },
{
    if 48 <= b && b <= 57 {
        Some(b - 48)
    } else if 97 <= b && b <= 102 {
        Some(b - 97 + 10)
    } else if 65 <= b && b <= 70 {
        Some(b - 65 + 10)
    } else {
        None
    }
}

/// Decodes a hexadecimal byte string; returns `None` exactly when the input
/// is not well-formed hex (odd length or a non-hex byte).
pub fn hex_decode(s: &[u8]) -> (r: Option<Vec<u8>>)
    ensures
        match r {
            Some(v) => is_hex_seq(s@) && v@ =~= hex_decoded(s@),
            None => !is_hex_seq(s@),
        },
{
    let n = s.len();
    if n % 2 != 0 {
        return None;
    }
    let mut out: Vec<u8> = Vec::new();
    let mut i: usize = 0;
    while i < n
        invariant
            n == s@.len(),
            n % 2 == 0,
            i % 2 == 0,
            i <= n,
            forall|j: int| 0 <= j < i ==> is_hex_digit(#[trigger] s@[j]),
            out@ =~= hex_decoded(s@.take(i as int)),
        decreases n - i,
    {
        let hv = match hex_val(s[i]) {
            Some(v) => v,
            None => {
                return None;
            },
        };
        let lv = match hex_val(s[i + 1]) {
            Some(v) => v,
            None => {
                return None;
            },
        };
        out.push(hv * 16 + lv);
        proof {
            let pair = s@.subrange(i as int, i + 2);
            assert(s@.take(i as int) + pair =~= s@.take(i + 2));
            lemma_hex_decoded_append(s@.take(i as int), pair);
            assert(pair.skip(2) =~= Seq::<u8>::empty());
            assert(hex_decoded(pair) == seq![hex_byte(pair[0], pair[1])] + hex_decoded(
                pair.skip(2),
            ));
            assert(hex_decoded(pair.skip(2)) =~= Seq::<u8>::empty());
            assert(hex_decoded(pair) =~= seq![hex_byte(s@[i as int], s@[i + 1])]);
        }
        i += 2;
    }
    proof {
        assert(s@.take(n as int) =~= s@);
    }
    Some(out)
}

/// Encodes bytes as lower-case hexadecimal, two digits per byte.
pub fn hex_encode(b: &[u8]) -> (r: Vec<u8>)
    ensures
        r@ =~= hex_encoded(b@),
        r@.len() == 2 * b@.len(),
        is_hex_seq(r@),
{
    proof {
        lemma_hex_encoded_valid(b@);
    }
    let mut out: Vec<u8> = Vec::new();
    let mut i: usize = 0;
    while i < b.len()
        invariant
            i <= b@.len(),
            out@ =~= hex_encoded(b@.take(i as int)),
            out@.len() == 2 * i,
        decreases b@.len() - i,
    {
        let x = b[i];
        let hi = x / 16;
        let lo = x % 16;
        out.push(if hi < 10 {
            hi + 48
        } else {
            hi - 10 + 97
        });
        out.push(if lo < 10 {
            lo + 48
        } else {
            lo - 10 + 97
        });
        proof {
            let one = b@.subrange(i as int, i + 1);
            assert(b@.take(i as int) + one =~= b@.take(i + 1));
            lemma_hex_encoded_append(b@.take(i as int), one);
            assert(one.skip(1) =~= Seq::<u8>::empty());
            assert(hex_encoded(one) == seq![
                hex_digit_char((one[0] / 16) as u8),
                hex_digit_char((one[0] % 16) as u8),
            ] + hex_encoded(one.skip(1)));
            assert(hex_encoded(one.skip(1)) =~= Seq::<u8>::empty());
            assert(hex_encoded(one) =~= seq![
                hex_digit_char((b@[i as int] / 16) as u8),
                hex_digit_char((b@[i as int] % 16) as u8),
            ]);
        }
        i += 1;
    }
    proof {
        assert(b@.take(b@.len() as int) =~= b@);
    }
    out
}

/// The decimal digit character for a value below 10.
pub open spec fn digit_char(v: nat) -> char
    recommends
        v < 10,
{
    if v == 0 {
        '0'
    } else if v == 1 {
        '1'
    } else if v == 2 {
        '2'
    } else if v == 3 {
        '3'
    } else if v == 4 {
        '4'
    } else if v == 5 {
        '5'
    } else if v == 6 {
        '6'
    } else if v == 7 {
        '7'
    } else if v == 8 {
        '8'
    } else {
        '9'
    }
}

/// The decimal rendering of `n`, most significant digit first, no leading
/// zeros (a single `'0'` for zero).
pub open spec fn decimal_chars(n: nat) -> Seq<char>
    decreases n,
{
    if n < 10 {
        seq![digit_char(n)]
    } else {
        decimal_chars(n / 10) + seq![digit_char(n % 10)]
    }
}

/// The one-character string for a decimal digit.
fn digit_str(v: u32) -> (r: &'static str)
    requires
        v < 10,
    ensures
        r@ =~= seq![digit_char(v as nat)],
{
    proof {
        reveal_strlit("0");
        reveal_strlit("1");
        reveal_strlit("2");
        reveal_strlit("3");
        reveal_strlit("4");
        reveal_strlit("5");
        reveal_strlit("6");
        reveal_strlit("7");
        reveal_strlit("8");
        reveal_strlit("9");
    }
    match v {
        0 => "0",
        1 => "1",
        2 => "2",
        3 => "3",
        4 => "4",
        5 => "5",
        6 => "6",
        7 => "7",
        8 => "8",
        _ => "9",
    }
}

/// Renders `n` in decimal, as callers correlate dispatches by the string
/// form of the batch number.
pub fn u32_to_decimal(n: u32) -> (r: String)
    ensures
        r@ =~= decimal_chars(n as nat),
    decreases n,
{
    if n < 10 {
        digit_str(n).to_owned()
    } else {
        let mut s = u32_to_decimal(n / 10);
        s.append(digit_str(n % 10));
        s
    }
}

} // verus!
