use vstd::prelude::*;
use vstd::string::StringSliceAdditionalSpecFns;
use vstd::utf8::{decode_utf8, encode_utf8, encode_utf8_decode_utf8, encode_utf8_valid_utf8, valid_utf8};
use crate::command::bool_to_c;
use crate::cstring::{c_bytes, c_compatible, lemma_until_nul_prefix, text_of, until_nul, utf8_lossy};
use crate::flags::{AttributeModel, attribute_bits, attributes_of_bits};
use crate::outcome::c_truth;

verus! {

proof fn lemma_until_nul_without_nul(b: Seq<u8>)
    requires
        !b.contains(0u8),
    ensures
        until_nul(b) == b,
        until_nul(b.push(0u8)) == b,
    decreases b.len(),
{
    if b.len() > 0 {
        assert(b[0] != 0u8) by {
            if b[0] == 0u8 {
                assert(b.contains(0u8));
            }
        }
        let rest = b.drop_first();
        assert(!rest.contains(0u8)) by {
            if rest.contains(0u8) {
                let j = choose|j: int| 0 <= j < rest.len() && rest[j] == 0u8;
                assert(b[j + 1] == 0u8);
            }
        }
        lemma_until_nul_without_nul(rest);
        assert(b.push(0u8).drop_first() =~= rest.push(0u8));
        assert(seq![b[0]] + rest =~= b);
    } else {
        assert(b.push(0u8).drop_first() =~= Seq::<u8>::empty());
        assert(until_nul(b.push(0u8)) =~= b);
    }
}

/// A boolean handed to the interpreter reads back as itself: `pushboolean`
/// sends 1 or 0, and a test or `toboolean` takes every non-zero integer as
/// true.
pub proof fn law_boolean_round_trip(b: bool)
    ensures
        c_truth(bool_to_c(b)) == b,
{
}

/// A string handed to the interpreter reads back as itself: the C reader
/// stops exactly at the terminator that was appended, and the bytes it took
/// decode to the original text.
pub proof fn law_string_round_trip(s: &str)
    requires
        c_compatible(s),
    ensures
        until_nul(c_bytes(s)) == s.spec_bytes(),
        text_of(until_nul(c_bytes(s))) == s@,
{
    lemma_until_nul_without_nul(s.spec_bytes());
    encode_utf8_valid_utf8(s@);
    encode_utf8_decode_utf8(s@);
}

/// An error message without NUL reaches the interpreter whole: the bytes that
/// `newerror` and `error` send are the message's own C string.
pub proof fn law_error_message_whole(s: &str)
    requires
        c_compatible(s),
    ensures
        until_nul(s.spec_bytes()).push(0u8) == c_bytes(s),
{
    lemma_until_nul_without_nul(s.spec_bytes());
}

/// The bits of a set of attributes name that set and no other: reading the
/// C value back gives the same attributes, and the value uses only the three
/// known bits.
pub proof fn law_attribute_bits_round_trip(m: AttributeModel)
    ensures
        0 <= attribute_bits(m) < 8,
        attributes_of_bits(attribute_bits(m) as i32) == m,
{
    let x: i32 = if m.readonly { 1 } else { 0 };
    let y: i32 = if m.dontenum { 2 } else { 0 };
    let z: i32 = if m.dontconf { 4 } else { 0 };
    let w: i32 = (x + y + z) as i32;
    assert(w == x + y + z);
    assert(((w & 1 == 1) == (x == 1)) && ((w & 2 == 2) == (y == 2)) && ((w & 4 == 4) == (z == 4)))
        by (bit_vector)
        requires
            x == 0 || x == 1,
            y == 0 || y == 2,
            z == 0 || z == 4,
            w == x + y + z,
    ;
}

/// A string can be handed to the interpreter exactly when its UTF-8 bytes
/// hold no NUL byte: every other byte, a newline or a tab included, is
/// accepted, as a C string conversion accepts it.
pub proof fn law_c_compatible_exactly_without_nul(s: &str)
    ensures
        c_compatible(s) <==> !s.spec_bytes().contains(0u8),
        c_compatible(s) <==> (forall|i: int| 0 <= i < s.spec_bytes().len() ==> s.spec_bytes()[i] != 0u8),
{
    if !c_compatible(s) {
        let j = choose|j: int| 0 <= j < s.spec_bytes().len() && s.spec_bytes()[j] == 0u8;
        assert(s.spec_bytes()[j] == 0u8);
    }
}

/// Bytes that are valid UTF-8 read back as the characters they encode,
/// whatever those characters are; only invalid bytes are decoded lossily.
pub proof fn law_text_decodes_valid_utf8(b: Seq<u8>)
    ensures
        valid_utf8(b) ==> text_of(b) == decode_utf8(b),
        !valid_utf8(b) ==> text_of(b) == utf8_lossy(b),
{
}

/// Every text comes back from its own UTF-8 bytes unchanged.
pub proof fn law_text_of_encoding(cs: Seq<char>)
    ensures
        text_of(encode_utf8(cs)) == cs,
{
    encode_utf8_valid_utf8(cs);
    encode_utf8_decode_utf8(cs);
}

/// A C reader takes from a byte sequence the longest prefix without NUL: the
/// bytes it takes are the first bytes of the sequence, none of them NUL, and
/// it stops only at the end or at a NUL.
pub proof fn law_c_reader_takes_prefix_before_nul(b: Seq<u8>)
    ensures
        until_nul(b).len() <= b.len(),
        forall|i: int| 0 <= i < until_nul(b).len() ==> until_nul(b)[i] == b[i] && b[i] != 0u8,
        until_nul(b).len() == b.len() || b[until_nul(b).len() as int] == 0u8,
        !b.contains(0u8) ==> until_nul(b) == b,
{
    lemma_until_nul_prefix(b);
    if !b.contains(0u8) {
        lemma_until_nul_without_nul(b);
    }
}

/// C booleans: true goes as 1 and false as 0; zero reads as false and every
/// other integer as true.
pub proof fn law_c_boolean_values(v: i32)
    ensures
        bool_to_c(true) == 1,
        bool_to_c(false) == 0,
        c_truth(v) <==> v != 0,
{
}

/// The C values of the single attributes are 1 (read only), 2 (not
/// enumerated) and 4 (not configurable), and no attribute is 0.
pub proof fn law_attribute_bit_values()
    ensures
        attribute_bits(AttributeModel { readonly: true, dontenum: false, dontconf: false }) == 1,
        attribute_bits(AttributeModel { readonly: false, dontenum: true, dontconf: false }) == 2,
        attribute_bits(AttributeModel { readonly: false, dontenum: false, dontconf: true }) == 4,
        attribute_bits(AttributeModel { readonly: false, dontenum: false, dontconf: false }) == 0,
        attribute_bits(AttributeModel { readonly: true, dontenum: true, dontconf: true }) == 7,
{
}

} // verus!
