//! NUL bytes and NUL characters.
//!
//! C strings stop at the first NUL byte, while texts are sequences of
//! characters. In UTF-8 the byte zero encodes the NUL character and nothing
//! else, so a text holds a NUL byte exactly when it holds a NUL character.

use crate::cstr::no_nul;
use crate::nvme::transport::{c_field, lemma_c_field_round_trip};
use vstd::prelude::*;
use vstd::utf8::{
    encode_scalar, encode_utf8, has_width_1_encoding, has_width_2_encoding, has_width_3_encoding,
    is_scalar,
};

verus! {

/// The encoding of a scalar holds a zero byte exactly when the scalar is
/// zero.
proof fn lemma_scalar_zero_byte(c: u32)
    requires
        is_scalar(c),
    ensures
        no_nul(encode_scalar(c)) <==> c != 0,
{
    let e = encode_scalar(c);
    if has_width_1_encoding(c) {
        assert(((c & 0x7Fu32) as u8 == 0u8) <==> c == 0u32) by (bit_vector)
            requires
                c <= 0x7Fu32,
        ;
        assert(e[0] == (c & 0x7Fu32) as u8);
    } else {
        assert(forall|x: u32| #![auto] (0xC0u8 | ((x >> 6u32) & 0x1Fu32) as u8) != 0u8)
            by (bit_vector);
        assert(forall|x: u32| #![auto] (0xE0u8 | ((x >> 12u32) & 0x0Fu32) as u8) != 0u8)
            by (bit_vector);
        assert(forall|x: u32| #![auto] (0xF0u8 | ((x >> 18u32) & 0x7u32) as u8) != 0u8)
            by (bit_vector);
        assert(forall|x: u32| #![auto] (0x80u8 | (x & 0x3Fu32) as u8) != 0u8) by (bit_vector);
        assert(forall|x: u32| #![auto] (0x80u8 | ((x >> 6u32) & 0x3Fu32) as u8) != 0u8)
            by (bit_vector);
        assert(forall|x: u32| #![auto] (0x80u8 | ((x >> 12u32) & 0x3Fu32) as u8) != 0u8)
            by (bit_vector);
        if has_width_2_encoding(c) {
            assert(e.len() == 2);
        } else if has_width_3_encoding(c) {
            assert(e.len() == 3);
        } else {
            assert(e.len() == 4);
        }
        assert(no_nul(e));
    }
}

/// Law: the UTF-8 encoding of a text holds no NUL byte exactly when the
/// text holds no NUL character.
pub proof fn lemma_no_nul_byte_iff_no_nul_char(s: Seq<char>)
    ensures
        no_nul(encode_utf8(s)) <==> (forall|j: int| 0 <= j < s.len() ==> s[j] != '\0'),
    decreases s.len(),
{
    if s.len() > 0 {
        let t = s.drop_first();
        lemma_no_nul_byte_iff_no_nul_char(t);
        vstd::utf8::char_is_scalar(s[0]);
        lemma_scalar_zero_byte(s[0] as u32);
        let a = encode_scalar(s[0] as u32);
        let b = encode_utf8(t);
        assert(encode_utf8(s) == a + b);
        if no_nul(a + b) {
            assert forall|j: int| 0 <= j < b.len() implies b[j] != 0u8 by {
                assert((a + b)[a.len() + j] == b[j]);
            }
            assert forall|j: int| 0 <= j < a.len() implies a[j] != 0u8 by {
                assert((a + b)[j] == a[j]);
            }
            assert forall|j: int| 0 <= j < s.len() implies s[j] != '\0' by {
                if j > 0 {
                    assert(s[j] == t[j - 1]);
                }
            }
        }
        if forall|j: int| 0 <= j < s.len() ==> s[j] != '\0' {
            assert forall|j: int| 0 <= j < t.len() implies t[j] != '\0' by {
                assert(t[j] == s[j + 1]);
            }
            assert(s[0] != '\0');
            if s[0] as u32 == 0 {
                vstd::utf8::char_u32_cast(s[0], s[0] as u32);
                vstd::utf8::char_u32_cast('\0', '\0' as u32);
                assert(('\0' as u32) == 0);
                assert(false);
            }
            assert forall|j: int| 0 <= j < (a + b).len() implies (a + b)[j] != 0u8 by {
                if j < a.len() {
                    assert((a + b)[j] == a[j]);
                } else {
                    assert((a + b)[j] == b[j - a.len()]);
                }
            }
        }
    }
}

/// Law: a text that converts to a C string (its bytes hold no NUL) reads
/// back whole from an SPDK character field.
pub proof fn lemma_c_string_reads_back(s: Seq<char>)
    requires
        no_nul(encode_utf8(s)),
    ensures
        c_field(s) == s,
{
    lemma_no_nul_byte_iff_no_nul_char(s);
    lemma_c_field_round_trip(s);
}

} // verus!
