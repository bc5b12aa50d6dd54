//! Percent-encoding of text for URIs.

use crate::text::{base_text, chars_of, digit, in_base, padded_text, zero_padded};
use vstd::prelude::*;
use vstd::utf8::{encode_scalar, encode_utf8, encode_utf8_decode_utf8};

verus! {

/// The characters that stand for themselves in a URI: letters and digits of
/// ASCII, and `-_.~`.
pub open spec fn is_unreserved(c: char) -> bool {
    ||| 0x30 <= c as u32 <= 0x39
    ||| 0x41 <= c as u32 <= 0x5a
    ||| 0x61 <= c as u32 <= 0x7a
    ||| c == '-'
    ||| c == '_'
    ||| c == '.'
    ||| c == '~'
}

/// Whether `c` stands for itself in a URI.
pub fn unreserved(c: char) -> (yes: bool)
    ensures
        yes == is_unreserved(c),
{
    let n: u32 = c as u32;
    (0x30 <= n && n <= 0x39) || (0x41 <= n && n <= 0x5a) || (0x61 <= n && n <= 0x7a) || c == '-'
        || c == '_' || c == '.' || c == '~'
}

/// A number as `%` and at least two hexadecimal digits.
pub open spec fn escape(n: nat) -> Seq<char> {
    seq!['%'] + zero_padded(in_base(n, 16, true), 2)
}

/// Each byte as an escape.
pub open spec fn escapes(bytes: Seq<u8>) -> Seq<char>
    decreases bytes.len(),
{
    if bytes.len() == 0 {
        Seq::empty()
    } else {
        escape(bytes[0] as nat) + escapes(bytes.subrange(1, bytes.len() as int))
    }
}

/// A character for a URI: itself, or the escapes of its UTF-8 bytes.
pub open spec fn encoded_char(c: char) -> Seq<char> {
    if is_unreserved(c) {
        seq![c]
    } else {
        escapes(encode_utf8(seq![c]))
    }
}

/// A text for a URI, character by character.
pub open spec fn percent_encoded(s: Seq<char>) -> Seq<char>
    decreases s.len(),
{
    if s.len() == 0 {
        Seq::empty()
    } else {
        encoded_char(s[0]) + percent_encoded(s.subrange(1, s.len() as int))
    }
}

/// The escape of `n`.
fn escape_text(n: u64) -> (out: String)
    ensures
        out@ == escape(n as nat),
{
    let mut out: String = String::new();
    out.push('%');
    out.append(padded_text(base_text(n, 16, true), 2).as_str());
    assert(Seq::<char>::empty().push('%') =~= seq!['%']);
    out
}

/// The escapes of the UTF-8 bytes of `c`.
fn escape_char(c: char) -> (out: String)
    ensures
        out@ == escapes(encode_utf8(seq![c])),
{
    let mut alone: String = String::new();
    alone.push(c);
    assert(alone@ =~= seq![c]);
    let bytes: &[u8] = alone.as_str().as_bytes();
    let mut out: String = String::new();
    let mut i: usize = 0;
    assert(bytes@.subrange(0, bytes@.len() as int) =~= bytes@);
    while i < bytes.len()
        invariant
            i <= bytes.len(),
            escapes(bytes@) == out@ + escapes(bytes@.subrange(i as int, bytes@.len() as int)),
        decreases bytes.len() - i,
    {
        let ghost rest = bytes@.subrange(i as int, bytes@.len() as int);
        let ghost before = out@;
        out.append(escape_text(bytes[i] as u64).as_str());
        proof {
            assert(rest.subrange(1, rest.len() as int) =~= bytes@.subrange(
                i + 1,
                bytes@.len() as int,
            ));
            assert(rest[0] == bytes@[i as int]);
            let tail = escapes(bytes@.subrange(i + 1, bytes@.len() as int));
            assert(before + (escape(bytes@[i as int] as nat) + tail) =~= out@ + tail);
        }
        i = i + 1;
    }
    assert(out@ + escapes(bytes@.subrange(i as int, bytes@.len() as int)) =~= out@);
    out
}

/// A text for the path or the query of a URI: letters, digits and `-_.~` stay, every other
/// character becomes the escapes of its UTF-8 bytes.
pub fn percent_encode(s: &str) -> (out: String)
    ensures
        out@ == percent_encoded(s@),
{
    let text: Vec<char> = chars_of(s);
    let mut out: String = String::new();
    let mut i: usize = 0;
    assert(s@.subrange(0, s@.len() as int) =~= s@);
    while i < text.len()
        invariant
            text@ == s@,
            i <= text.len(),
            percent_encoded(s@) == out@ + percent_encoded(s@.subrange(i as int, s@.len() as int)),
        decreases text.len() - i,
    {
        let c: char = text[i];
        let ghost rest = s@.subrange(i as int, s@.len() as int);
        let ghost before = out@;
        if unreserved(c) {
            out.push(c);
            assert(out@ =~= before + seq![c]);
        } else {
            out.append(escape_char(c).as_str());
        }
        proof {
            assert(rest.subrange(1, rest.len() as int) =~= s@.subrange(i + 1, s@.len() as int));
            assert(rest[0] == c);
            let tail = percent_encoded(s@.subrange(i + 1, s@.len() as int));
            assert(before + (encoded_char(c) + tail) =~= out@ + tail);
        }
        i = i + 1;
    }
    assert(out@ + percent_encoded(s@.subrange(i as int, s@.len() as int)) =~= out@);
    out
}

// ── laws ──────────────────────────────────────────────────────────

/// The value of a hexadecimal digit in upper case.
pub open spec fn hex_value(c: char) -> int {
    if c as u32 <= 0x39 {
        c as u32 - 0x30
    } else {
        c as u32 - 0x41 + 10
    }
}

/// The bytes that a percent-encoded text stands for.
pub open spec fn percent_decoded(t: Seq<char>) -> Seq<u8>
    decreases t.len(),
{
    if t.len() == 0 {
        Seq::empty()
    } else if t[0] == '%' && t.len() >= 3 {
        seq![(16 * hex_value(t[1]) + hex_value(t[2])) as u8] + percent_decoded(
            t.subrange(3, t.len() as int),
        )
    } else {
        seq![t[0] as u32 as u8] + percent_decoded(t.subrange(1, t.len() as int))
    }
}

/// A byte's escape is `%` and its two digits.
proof fn lemma_byte_escape(b: u8)
    ensures
        escape(b as nat) == seq!['%', digit((b / 16) as nat, true), digit((b % 16) as nat, true)],
{
    let n = b as nat;
    reveal_with_fuel(zero_padded, 3);
    if n < 16 {
        assert(in_base(n, 16, true) =~= seq![digit(n, true)]);
        assert(seq!['0'] + in_base(n, 16, true) =~= seq!['0', digit(n, true)]);
        assert(digit(0, true) == '0');
    } else {
        assert(in_base(n / 16, 16, true) =~= seq![digit(n / 16, true)]);
        assert(in_base(n, 16, true) =~= seq![digit(n / 16, true), digit(n % 16, true)]);
    }
    assert(escape(n) =~= seq!['%', digit(n / 16, true), digit(n % 16, true)]);
}

proof fn lemma_hex_value(d: nat)
    requires
        d < 16,
    ensures
        hex_value(digit(d, true)) == d,
        is_unreserved(digit(d, true)),
{
}

/// Escapes stand for their bytes.
proof fn lemma_escapes_decode(bytes: Seq<u8>, rest: Seq<char>)
    ensures
        percent_decoded(escapes(bytes) + rest) == bytes + percent_decoded(rest),
    decreases bytes.len(),
{
    if bytes.len() == 0 {
        assert(escapes(bytes) + rest =~= rest);
        assert(bytes + percent_decoded(rest) =~= percent_decoded(rest));
    } else {
        let b = bytes[0];
        let more = bytes.subrange(1, bytes.len() as int);
        lemma_byte_escape(b);
        lemma_hex_value((b / 16) as nat);
        lemma_hex_value((b % 16) as nat);
        lemma_escapes_decode(more, rest);
        let t = escapes(bytes) + rest;
        assert(t[0] == '%');
        assert(t[1] == escape(b as nat)[1]);
        assert(t[2] == escape(b as nat)[2]);
        assert(t.subrange(3, t.len() as int) =~= escapes(more) + rest);
        assert(16 * (b / 16) + b % 16 == b);
        assert(seq![b] + (more + percent_decoded(rest)) =~= bytes + percent_decoded(rest));
    }
}

/// An ASCII character is its own UTF-8 byte.
proof fn lemma_unreserved_byte(c: char)
    requires
        is_unreserved(c),
    ensures
        encode_utf8(seq![c]) == seq![c as u32 as u8],
{
    let n = c as u32;
    reveal_with_fuel(encode_utf8, 2);
    assert(seq![c].drop_first() =~= Seq::<char>::empty());
    assert((n & 0x7f) as u8 == n as u8) by (bit_vector)
        requires
            n <= 0x7f,
    ;
    assert(encode_scalar(n) =~= seq![n as u8]);
    assert(encode_utf8(seq![c]) =~= seq![n as u8]);
}

/// Percent-encoding loses nothing: the bytes that the encoded text stands for
/// are the UTF-8 bytes of the text.
pub proof fn law_percent_round_trip(s: Seq<char>)
    ensures
        percent_decoded(percent_encoded(s)) == encode_utf8(s),
    decreases s.len(),
{
    if s.len() > 0 {
        let c = s[0];
        let rest = s.subrange(1, s.len() as int);
        law_percent_round_trip(rest);
        assert(s.drop_first() =~= rest);
        let tail = percent_encoded(rest);
        assert(encode_utf8(seq![c]) == encode_scalar(c as u32)) by {
            reveal_with_fuel(encode_utf8, 2);
            assert(seq![c].drop_first() =~= Seq::<char>::empty());
            assert(encode_scalar(c as u32) + Seq::<u8>::empty() =~= encode_scalar(c as u32));
        }
        if is_unreserved(c) {
            lemma_unreserved_byte(c);
            let t = seq![c] + tail;
            assert(t.subrange(1, t.len() as int) =~= tail);
        } else {
            lemma_escapes_decode(encode_utf8(seq![c]), tail);
        }
    }
}

/// Two texts with the same percent-encoding are the same.
pub proof fn law_percent_encoding_is_injective(a: Seq<char>, b: Seq<char>)
    requires
        percent_encoded(a) == percent_encoded(b),
    ensures
        a == b,
{
    law_percent_round_trip(a);
    law_percent_round_trip(b);
    encode_utf8_decode_utf8(a);
    encode_utf8_decode_utf8(b);
}

/// Text is encoded piece by piece.
pub proof fn law_percent_encoding_concatenates(a: Seq<char>, b: Seq<char>)
    ensures
        percent_encoded(a + b) == percent_encoded(a) + percent_encoded(b),
    decreases a.len(),
{
    if a.len() == 0 {
        assert(a + b =~= b);
        assert(percent_encoded(a) + percent_encoded(b) =~= percent_encoded(b));
    } else {
        let rest = a.subrange(1, a.len() as int);
        law_percent_encoding_concatenates(rest, b);
        assert((a + b).subrange(1, (a + b).len() as int) =~= rest + b);
        assert(encoded_char(a[0]) + (percent_encoded(rest) + percent_encoded(b)) =~= encoded_char(
            a[0],
        ) + percent_encoded(rest) + percent_encoded(b));
    }
}

/// Nothing in a percent-encoded text can end a query value: every character of
/// it is unreserved or `%`.
pub proof fn law_percent_encoding_is_safe(s: Seq<char>, i: int)
    requires
        0 <= i < percent_encoded(s).len(),
    ensures
        is_unreserved(percent_encoded(s)[i]) || percent_encoded(s)[i] == '%',
    decreases s.len(),
{
    let c = s[0];
    let rest = s.subrange(1, s.len() as int);
    let one = encoded_char(c);
    if i < one.len() {
        if !is_unreserved(c) {
            lemma_escapes_are_safe(encode_utf8(seq![c]), i);
        }
    } else {
        law_percent_encoding_is_safe(rest, i - one.len());
    }
}

proof fn lemma_escapes_are_safe(bytes: Seq<u8>, i: int)
    requires
        0 <= i < escapes(bytes).len(),
    ensures
        is_unreserved(escapes(bytes)[i]) || escapes(bytes)[i] == '%',
    decreases bytes.len(),
{
    let b = bytes[0];
    lemma_byte_escape(b);
    lemma_hex_value((b / 16) as nat);
    lemma_hex_value((b % 16) as nat);
    if i >= 3 {
        lemma_escapes_are_safe(bytes.subrange(1, bytes.len() as int), i - 3);
    }
}

} // verus!
