//! Identifiers of orders and nodes.

use crate::text::is_digit;
use vstd::prelude::*;
use vstd::utf8::{
    decode_utf8, encode_utf8, encode_utf8_decode_utf8, encode_utf8_valid_utf8, is_ascii_chars,
    is_ascii_chars_encode_utf8, is_char_boundary, is_char_boundary_iff_not_is_continuation_byte,
    is_char_boundary_start_end_of_seq, utf8_byte_ranges_bitwise,
};

verus! {

/// A text of at least eight bytes whose eighth byte ends a character, so that
/// it can be cut there.
pub open spec fn cuttable(s: Seq<char>) -> bool {
    is_char_boundary(encode_utf8(s), 8)
}

/// The first eight bytes of a text.
pub open spec fn short(s: Seq<char>) -> Seq<char> {
    decode_utf8(encode_utf8(s).subrange(0, 8))
}

/// The first eight bytes of an identifier.
pub fn short_id<'a>(id: &'a str) -> (out: &'a str)
    requires
        cuttable(id@),
    ensures
        out@ == short(id@),
{
    let (front, back) = id.split_at(8);
    proof {
        encode_utf8_decode_utf8(front@);
    }
    front
}

/// The first eight characters, where the text is ASCII.
pub proof fn law_short_of_ascii(s: Seq<char>)
    requires
        is_ascii_chars(s),
        s.len() >= 8,
    ensures
        cuttable(s),
        short(s) == s.subrange(0, 8),
{
    let bytes = encode_utf8(s);
    let front = s.subrange(0, 8);
    encode_utf8_valid_utf8(s);
    is_ascii_chars_encode_utf8(s);
    assert(is_ascii_chars(front)) by {
        assert forall|i: int| 0 <= i < front.len() implies '\0' <= #[trigger] front[i]
            <= '\u{7f}' by {
            assert(front[i] == s[i]);
        }
    }
    is_ascii_chars_encode_utf8(front);
    assert(encode_utf8(front) =~= bytes.subrange(0, 8)) by {
        assert forall|i: int| 0 <= i < 8 implies encode_utf8(front)[i] == bytes[i] by {
            assert(front[i] == s[i]);
        }
    }
    encode_utf8_decode_utf8(front);
    if s.len() == 8 {
        is_char_boundary_start_end_of_seq(bytes);
    } else {
        assert(s[8] as u8 == bytes[8]);
        is_char_boundary_iff_not_is_continuation_byte(bytes, 8);
        utf8_byte_ranges_bitwise(bytes[8]);
    }
}

/// The characters of a random identifier.
pub open spec fn is_id_char(c: char) -> bool {
    is_digit(c) || 0x61 <= c as u32 <= 0x66 || c == '-'
}

/// A random identifier in the form that UUIDs are written in: 36 lower-case
/// hexadecimal digits and hyphens.
pub open spec fn id_shaped(s: Seq<char>) -> bool {
    s.len() == 36 && forall|i: int| 0 <= i < s.len() ==> is_id_char(#[trigger] s[i])
}

/// `uuid::Uuid::new_v4`, written out. The identifier is random; what is claimed
/// is its form.
#[verifier::external_body]
pub(crate) fn random_id() -> (id: String)
    ensures
        id_shaped(id@),
{
    uuid::Uuid::new_v4().to_string()
}

proof fn lemma_id_char_is_ascii(c: char)
    requires
        is_id_char(c),
    ensures
        '\0' <= c <= '\u{7f}',
{
}

/// Random identifiers can be cut to their first eight characters.
pub proof fn law_ids_are_cuttable(id: Seq<char>)
    requires
        id_shaped(id),
    ensures
        cuttable(id),
        short(id) == id.subrange(0, 8),
{
    assert(is_ascii_chars(id)) by {
        assert forall|i: int| 0 <= i < id.len() implies '\0' <= #[trigger] id[i] <= '\u{7f}' by {
            assert(is_id_char(id[i]));
            lemma_id_char_is_ascii(id[i]);
        }
    }
    law_short_of_ascii(id);
}

} // verus!
