//! Lower-case hexadecimal encoding and decoding of byte strings, used to
//! carry MAC tags in webhook signature headers.
//!
//! Both directions are specified exactly: encoding maps each byte to two
//! lower-case digits, and decoding accepts upper- and lower-case digits,
//! rejecting odd-length input and any other character.

use vstd::prelude::*;
use vstd::string::StringExecFns;

verus! {

/// The lower-case digit for a value below sixteen.
pub open spec fn hex_char_of(n: int) -> char {
    if n == 0 {
        '0'
    } else if n == 1 {
        '1'
    } else if n == 2 {
        '2'
    } else if n == 3 {
        '3'
    } else if n == 4 {
        '4'
    } else if n == 5 {
        '5'
    } else if n == 6 {
        '6'
    } else if n == 7 {
        '7'
    } else if n == 8 {
        '8'
    } else if n == 9 {
        '9'
    } else if n == 10 {
        'a'
    } else if n == 11 {
        'b'
    } else if n == 12 {
        'c'
    } else if n == 13 {
        'd'
    } else if n == 14 {
        'e'
    } else {
        'f'
    }
}

/// The value of a hexadecimal digit, upper- or lower-case, or a negative
/// number for any other character.
pub open spec fn hex_val(c: char) -> int {
    let u = c as u32;
    if 48 <= u <= 57 {
        u - 48
    } else if 97 <= u <= 102 {
        u - 87
    } else if 65 <= u <= 70 {
        u - 55
    } else {
        -1
    }
}

/// The lower-case hexadecimal rendering of a byte string: two digits per
/// byte, high nibble first.
pub open spec fn spec_hex_encode(b: Seq<u8>) -> Seq<char>
    decreases b.len(),
{
    if b.len() == 0 {
        Seq::empty()
    } else {
        seq![hex_char_of(b[0] as int / 16), hex_char_of(b[0] as int % 16)] + spec_hex_encode(
            b.drop_first(),
        )
    }
}

/// The byte string a character sequence decodes to, if it consists of an
/// even number of hexadecimal digits.
pub open spec fn spec_hex_decode(s: Seq<char>) -> Option<Seq<u8>>
    decreases s.len(),
{
    if s.len() % 2 != 0 {
        None
    } else if s.len() == 0 {
        Some(Seq::empty())
    } else if hex_val(s[0]) < 0 || hex_val(s[1]) < 0 {
        None
    } else {
        match spec_hex_decode(s.subrange(2, s.len() as int)) {
            Option::None => None,
            Option::Some(rest) => Some(
                seq![(hex_val(s[0]) * 16 + hex_val(s[1])) as u8] + rest,
            ),
        }
    }
}

/// The one-character string holding the lower-case digit for `n`.
fn hex_digit_str(n: u8) -> (r: &'static str)
    requires
        n < 16,
    ensures
        r@ =~= seq![hex_char_of(n as int)],
{
    proof {
        reveal_strlit("0");
        reveal_strlit("1");
        reveal_strlit("2");
        reveal_strlit("3");
        reveal_strlit("4");
        reveal_strlit("5");
        reveal_strlit("6");
        reveal_strlit("7");
        reveal_strlit("8");
        reveal_strlit("9");
        reveal_strlit("a");
        reveal_strlit("b");
        reveal_strlit("c");
        reveal_strlit("d");
        reveal_strlit("e");
        reveal_strlit("f");
    }
    if n == 0 {
        "0"
    } else if n == 1 {
        "1"
    } else if n == 2 {
        "2"
    } else if n == 3 {
        "3"
    } else if n == 4 {
        "4"
    } else if n == 5 {
        "5"
    } else if n == 6 {
        "6"
    } else if n == 7 {
        "7"
    } else if n == 8 {
        "8"
    } else if n == 9 {
        "9"
    } else if n == 10 {
        "a"
    } else if n == 11 {
        "b"
    } else if n == 12 {
        "c"
    } else if n == 13 {
        "d"
    } else if n == 14 {
        "e"
    } else {
        "f"
    }
}

/// Encoding distributes over concatenation of byte strings.
proof fn lemma_hex_encode_concat(a: Seq<u8>, b: Seq<u8>)
    ensures
        spec_hex_encode(a + b) == spec_hex_encode(a) + spec_hex_encode(b),
    decreases a.len(),
{
    if a.len() == 0 {
        assert(a + b =~= b);
        assert(spec_hex_encode(a) + spec_hex_encode(b) =~= spec_hex_encode(b));
    } else {
        lemma_hex_encode_concat(a.drop_first(), b);
        assert((a + b).drop_first() =~= a.drop_first() + b);
        assert(spec_hex_encode(a + b) =~= spec_hex_encode(a) + spec_hex_encode(b));
    }
}

/// An encoded byte string is twice as long as its source.
pub proof fn lemma_hex_encode_len(b: Seq<u8>)
    ensures
        spec_hex_encode(b).len() == 2 * b.len(),
    decreases b.len(),
{
    if b.len() > 0 {
        lemma_hex_encode_len(b.drop_first());
    }
}

/// Renders a byte string as lower-case hexadecimal.
pub fn hex_encode(bytes: &[u8]) -> (r: String)
    ensures
        r@ == spec_hex_encode(bytes@),
{
    let n = bytes.len();
    let mut out = String::new();
    let mut i: usize = 0;
    while i < n
        invariant
            0 <= i <= n,
            n == bytes@.len(),
            out@ == spec_hex_encode(bytes@.subrange(0, i as int)),
        decreases n - i,
    {
        let b = *vstd::slice::slice_index_get(bytes, i);
        out.append(hex_digit_str(b / 16));
        out.append(hex_digit_str(b % 16));
        proof {
            let prefix = bytes@.subrange(0, i as int);
            let one = seq![bytes@[i as int]];
            assert(bytes@.subrange(0, i + 1) =~= prefix + one);
            lemma_hex_encode_concat(prefix, one);
            assert(one.drop_first() =~= Seq::<u8>::empty());
            assert(spec_hex_encode(Seq::<u8>::empty()) =~= Seq::<char>::empty());
            assert(spec_hex_encode(one) =~= seq![
                hex_char_of(b as int / 16),
                hex_char_of(b as int % 16),
            ]);
            assert(out@ =~= spec_hex_encode(bytes@.subrange(0, i + 1)));
        }
        i = i + 1;
    }
    proof {
        assert(bytes@.subrange(0, n as int) =~= bytes@);
    }
    out
}

/// The value of a hexadecimal digit character, or none for any other
/// character.
fn nibble(c: char) -> (r: Option<u8>)
    ensures
        match r {
            Option::Some(v) => hex_val(c) == v as int && v < 16,
            Option::None => hex_val(c) < 0,
        },
{
    let u = c as u32;
    if 48 <= u && u <= 57 {
        Some((u - 48) as u8)
    } else if 97 <= u && u <= 102 {
        Some((u - 87) as u8)
    } else if 65 <= u && u <= 70 {
        Some((u - 55) as u8)
    } else {
        None
    }
}

/// Decodes a hexadecimal character string into the bytes it denotes, or
/// nothing when the string has odd length or holds a non-digit.
pub fn hex_decode(s: &str) -> (r: Option<Vec<u8>>)
    ensures
        (r is Some) == (spec_hex_decode(s@) is Some),
        r is Some ==> r->0@ == spec_hex_decode(s@)->0,
{
    let n = s.unicode_len();
    if n % 2 != 0 {
        return None;
    }
    let mut out: Vec<u8> = Vec::new();
    let mut i: usize = 0;
    proof {
        assert(s@.subrange(0, n as int) =~= s@);
    }
    while i < n
        invariant
            0 <= i <= n,
            i % 2 == 0,
            n % 2 == 0,
            n == s@.len(),
            match spec_hex_decode(s@.subrange(i as int, n as int)) {
                Option::Some(rest) => spec_hex_decode(s@) is Some && spec_hex_decode(s@)->0 =~= out@
                    + rest,
                Option::None => spec_hex_decode(s@) is None,
            },
        decreases n - i,
    {
        let ghost tail = s@.subrange(i as int, n as int);
        proof {
            assert(tail.len() % 2 == 0);
            assert(tail[0] == s@[i as int]);
            assert(tail[1] == s@[i + 1]);
        }
        let hi = match nibble(s.get_char(i)) {
            Option::Some(v) => v,
            Option::None => {
                return None;
            },
        };
        let lo = match nibble(s.get_char(i + 1)) {
            Option::Some(v) => v,
            Option::None => {
                return None;
            },
        };
        out.push(hi * 16 + lo);
        proof {
            assert(tail.subrange(2, tail.len() as int) =~= s@.subrange(i + 2, n as int));
        }
        i = i + 2;
    }
    proof {
        assert(s@.subrange(n as int, n as int) =~= Seq::<char>::empty());
        assert(out@ + Seq::<u8>::empty() =~= out@);
    }
    Some(out)
}

/// Decoding a digit produced by encoding gives the value back.
proof fn lemma_hex_val_of_char(n: int)
    requires
        0 <= n < 16,
    ensures
        hex_val(hex_char_of(n)) == n,
{
}

/// Decoding inverts encoding: the hexadecimal rendering of any byte string
/// decodes to exactly that byte string.
pub proof fn lemma_hex_round_trip(b: Seq<u8>)
    ensures
        spec_hex_decode(spec_hex_encode(b)) == Some(b),
    decreases b.len(),
{
    lemma_hex_encode_len(b);
    if b.len() == 0 {
        assert(spec_hex_decode(spec_hex_encode(b)) =~= Some(Seq::<u8>::empty()));
        assert(b =~= Seq::<u8>::empty());
    } else {
        let s = spec_hex_encode(b);
        let rest = b.drop_first();
        lemma_hex_round_trip(rest);
        lemma_hex_encode_len(rest);
        lemma_hex_val_of_char(b[0] as int / 16);
        lemma_hex_val_of_char(b[0] as int % 16);
        assert(s.subrange(2, s.len() as int) =~= spec_hex_encode(rest));
        assert(hex_val(s[0]) * 16 + hex_val(s[1]) == b[0]) by {
            assert(b[0] as int / 16 * 16 + b[0] as int % 16 == b[0]);
        }
        assert(seq![(hex_val(s[0]) * 16 + hex_val(s[1])) as u8] + rest =~= b);
    }
}

} // verus!
