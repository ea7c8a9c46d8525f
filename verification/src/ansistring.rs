//! The foreign string type: a code-page-tagged, length-prefixed,
//! null-terminated byte buffer in the layout the runtime reads — code page,
//! character width, reference count, byte length, then the characters.
//!
//! The buffer is owned outright; the raw foreign-visible view is derived
//! only at the boundary, outside this crate, for the duration of a call.

use vstd::prelude::*;

use vstd::string::StrSliceExecFns;
use vstd::utf8::decode_utf8;
use vstd::utf8::encode_scalar;
use vstd::utf8::encode_utf8;
use vstd::utf8::valid_utf8;

use crate::codec::DEFAULT_CODEPAGE;
use crate::codec::codepage_known;
use crate::codec::decode_codepage;
use crate::codec::default_codepage;
use crate::codec::exact_utf8_decode;
use crate::codec::has_bom_prefix;
use crate::codec::raw_decode_result;
use crate::MarshalError;
use crate::UNSHARED_REFERENCE_COUNT;

verus! {

/// A string in the runtime's layout. `actual_string_size` counts every
/// byte of the buffer, the mandatory trailing null terminator included;
/// a reference count of `-1` marks the value as not reference counted,
/// which is the only kind this crate produces.
pub struct PascalAnsiString {
    codepage: u16,
    char_size: u16,
    reference_count: i64,
    actual_string_size: u64,
    actual_array_of_char: Vec<u8>,
}

impl PascalAnsiString {
    /// The stored code-page tag.
    pub closed spec fn spec_codepage(self) -> u16 {
        self.codepage
    }

    /// The stored character width in bytes.
    pub closed spec fn spec_char_size(self) -> u16 {
        self.char_size
    }

    /// The stored reference count.
    pub closed spec fn spec_reference_count(self) -> int {
        self.reference_count as int
    }

    /// The stored byte length, terminator included.
    pub closed spec fn spec_size(self) -> nat {
        self.actual_string_size as nat
    }

    /// The character buffer, terminator included.
    pub closed spec fn buffer(self) -> Seq<u8> {
        self.actual_array_of_char@
    }

    /// The stored length always equals the buffer as held, and the buffer
    /// always ends in the null terminator.
    pub open spec fn wf(self) -> bool {
        &&& self.spec_size() == self.buffer().len()
        &&& self.buffer().len() >= 1
        &&& self.buffer().last() == 0u8
    }

    /// Assembles a string from its raw parts. The parts must already obey
    /// the layout's invariant: the length counts exactly the buffer's
    /// bytes and the buffer carries its terminator.
    pub fn new(
        codepage: u16,
        char_size: u16,
        reference_count: i64,
        actual_string_size: u64,
        actual_array_of_char: Vec<u8>,
    ) -> (r: PascalAnsiString)
        requires
            actual_array_of_char@.len() == actual_string_size,
            actual_array_of_char@.len() >= 1,
            actual_array_of_char@.last() == 0u8,
        ensures
            r.wf(),
            r.spec_codepage() == codepage,
            r.spec_char_size() == char_size,
            r.spec_reference_count() == reference_count as int,
            r.spec_size() == actual_string_size,
            r.buffer() == actual_array_of_char@,
    {
        PascalAnsiString { codepage, char_size, reference_count, actual_string_size, actual_array_of_char }
    }

    /// Encodes a textual value for the boundary: the text's bytes in the
    /// default encoding, one appended null terminator, the default
    /// encoding's code-page tag, character width 1 and reference count
    /// `-1`. The tag lookup cannot fail for the fixed default encoding,
    /// so the result is always `Ok`.
    pub fn from_text(value: &str) -> (r: Result<PascalAnsiString, MarshalError>)
        ensures
            r matches Ok(s) ==> {
                &&& s.wf()
                &&& s.spec_codepage() == DEFAULT_CODEPAGE
                &&& s.spec_char_size() == 1
                &&& s.spec_reference_count() == UNSHARED_REFERENCE_COUNT as int
                &&& s.buffer() == encode_utf8(value@).push(0u8)
                &&& s.spec_size() == encode_utf8(value@).len() + 1
            },
            r is Ok,
    {
        match default_codepage() {
            Some(codepage) => {
                let mut actual_array_of_char = value.as_bytes_vec();
                actual_array_of_char.push(0u8);
                let actual_string_size = actual_array_of_char.len() as u64;
                Ok(
                    PascalAnsiString {
                        codepage,
                        char_size: 1,
                        reference_count: UNSHARED_REFERENCE_COUNT,
                        actual_string_size,
                        actual_array_of_char,
                    },
                )
            },
            None => Err(MarshalError::UnknownCodepage),
        }
    }

    /// Wraps a byte sequence already in the boundary representation: no
    /// encoding step, only the appended null terminator and the header
    /// fields, with the same tag, width and reference count as
    /// `from_text`. Always `Ok`, for the same reason.
    pub fn from_bytes(value: Vec<u8>) -> (r: Result<PascalAnsiString, MarshalError>)
        ensures
            r matches Ok(s) ==> {
                &&& s.wf()
                &&& s.spec_codepage() == DEFAULT_CODEPAGE
                &&& s.spec_char_size() == 1
                &&& s.spec_reference_count() == UNSHARED_REFERENCE_COUNT as int
                &&& s.buffer() == value@.push(0u8)
                &&& s.spec_size() == value@.len() + 1
            },
            r is Ok,
    {
        match default_codepage() {
            Some(codepage) => {
                let mut actual_array_of_char = value;
                actual_array_of_char.push(0u8);
                let actual_string_size = actual_array_of_char.len() as u64;
                Ok(
                    PascalAnsiString {
                        codepage,
                        char_size: 1,
                        reference_count: UNSHARED_REFERENCE_COUNT,
                        actual_string_size,
                        actual_array_of_char,
                    },
                )
            },
            None => Err(MarshalError::UnknownCodepage),
        }
    }

    /// Decodes the whole stored buffer — trailing terminator included,
    /// which decodes to a control character for the caller to trim — with
    /// the decoder of the stored code-page tag. Succeeds exactly when the
    /// tag is registered in the code-page table; a buffer under the
    /// default tag that is well-formed UTF-8 and starts with no byte-order
    /// mark decodes to precisely the text it encodes.
    pub fn into_text(&self) -> (r: Result<String, MarshalError>)
        requires
            self.wf(),
        ensures
            r is Ok <==> codepage_known(self.spec_codepage()),
            r matches Err(e) ==> e is UnknownCodepage,
            exact_utf8_decode(self.spec_codepage(), self.buffer()) ==> (r matches Ok(t) && t@ == decode_utf8(self.buffer())),
            codepage_known(self.spec_codepage()) && !exact_utf8_decode(self.spec_codepage(), self.buffer()) ==> (r matches Ok(t) && t@ == raw_decode_result(self.spec_codepage(), self.buffer())),
    {
        match decode_codepage(self.codepage, self.actual_array_of_char.as_slice()) {
            Some(text) => Ok(text),
            None => Err(MarshalError::UnknownCodepage),
        }
    }

    /// Copies out every stored byte verbatim, terminator included, with no
    /// decoding step.
    pub fn into_bytes(&self) -> (r: Vec<u8>)
        requires
            self.wf(),
        ensures
            r@ == self.buffer(),
    {
        let mut out: Vec<u8> = Vec::new();
        let mut i: usize = 0;
        while i < self.actual_array_of_char.len()
            invariant
                i <= self.actual_array_of_char@.len(),
                out@ == self.actual_array_of_char@.take(i as int),
            decreases self.actual_array_of_char@.len() - i,
        {
            out.push(self.actual_array_of_char[i]);
            i = i + 1;
            proof {
                assert(out@ =~= self.actual_array_of_char@.take(i as int));
            }
        }
        proof {
            assert(out@ =~= self.actual_array_of_char@);
        }
        out
    }

    /// The stored code-page tag.
    pub fn codepage(&self) -> (r: u16)
        ensures
            r == self.spec_codepage(),
    {
        self.codepage
    }

    /// The stored character width in bytes.
    pub fn char_size(&self) -> (r: u16)
        ensures
            r == self.spec_char_size(),
    {
        self.char_size
    }

    /// The stored reference count.
    pub fn reference_count(&self) -> (r: i64)
        ensures
            r as int == self.spec_reference_count(),
    {
        self.reference_count
    }

    /// The stored byte length, terminator included.
    pub fn actual_string_size(&self) -> (r: u64)
        ensures
            r as nat == self.spec_size(),
    {
        self.actual_string_size
    }
}

/// Byte round trip: the buffer `from_bytes` builds is exactly the given
/// bytes followed by the one appended terminator — no byte is altered,
/// none is added elsewhere — so `into_bytes`, which returns the buffer
/// verbatim by its contract, gives back the original bytes once the
/// trailing terminator is stripped.
pub proof fn lemma_bytes_round_trip(b: Seq<u8>)
    ensures
        b.push(0u8).len() == b.len() + 1,
        b.push(0u8).take(b.len() as int) == b,
        b.push(0u8)[b.len() as int] == 0u8,
{
    assert(b.push(0u8).take(b.len() as int) =~= b);
}

/// Appending one character to a text appends exactly that character's
/// encoding to the text's encoding.
proof fn lemma_encode_utf8_push(s: Seq<char>, c: char)
    ensures
        encode_utf8(s.push(c)) == encode_utf8(s) + encode_scalar(c as u32),
    decreases s.len(),
{
    if s.len() == 0 {
        assert(s.push(c)[0] == c);
        assert(s.push(c).drop_first() =~= Seq::<char>::empty());
        assert(encode_utf8(s.push(c).drop_first()) =~= Seq::<u8>::empty());
        assert(encode_utf8(s.push(c)) == encode_scalar(c as u32) + encode_utf8(
            s.push(c).drop_first(),
        ));
        assert(encode_utf8(s) =~= Seq::<u8>::empty());
        assert(encode_utf8(s.push(c)) =~= encode_utf8(s) + encode_scalar(c as u32));
    } else {
        assert(s.push(c)[0] == s[0]);
        assert(s.push(c).drop_first() =~= s.drop_first().push(c));
        lemma_encode_utf8_push(s.drop_first(), c);
        assert(encode_utf8(s.push(c)) == encode_scalar(s[0] as u32) + encode_utf8(
            s.drop_first().push(c),
        ));
        assert(encode_utf8(s) == encode_scalar(s[0] as u32) + encode_utf8(s.drop_first()));
        assert(encode_utf8(s.push(c)) =~= encode_utf8(s) + encode_scalar(c as u32));
    }
}

/// Text round trip: for any text whose first character is not the
/// byte-order mark, the buffer `from_text` builds — the text's encoding
/// plus the terminator — is well-formed UTF-8 with no byte-order-mark
/// prefix, and decodes to exactly the original text followed by the
/// decoded terminator. By `from_text`'s and `into_text`'s contracts,
/// `into_text` on a `from_text` result therefore succeeds and yields the
/// original text once the caller trims that one trailing character.
pub proof fn lemma_text_round_trip(s: Seq<char>)
    requires
        s.len() == 0 || s[0] != '\u{feff}',
    ensures
        valid_utf8(encode_utf8(s).push(0u8)),
        !has_bom_prefix(encode_utf8(s).push(0u8)),
        decode_utf8(encode_utf8(s).push(0u8)) == s.push('\u{0}'),
{
    let chars = s.push('\u{0}');
    let buf = encode_utf8(s).push(0u8);
    assert(('\u{0}' as u32) == 0);
    assert(encode_scalar('\u{0}' as u32) =~= seq![0u8]) by {
        assert((0u32 & 0x7f) as u8 == 0u8) by (bit_vector);
    }
    lemma_encode_utf8_push(s, '\u{0}');
    assert(buf =~= encode_utf8(chars));
    vstd::utf8::encode_utf8_valid_utf8(chars);
    vstd::utf8::encode_utf8_decode_utf8(chars);
    vstd::utf8::encode_utf8_first_scalar(chars);
    assert(!has_bom_prefix(buf)) by {
        if has_bom_prefix(buf) {
            if buf[0] == 0xffu8 || buf[0] == 0xfeu8 {
                assert(!vstd::utf8::valid_leading_and_continuation_bytes_first_codepoint(buf));
            } else {
                assert(buf.len() >= 3 && buf[0] == 0xefu8 && buf[1] == 0xbbu8 && buf[2] == 0xbfu8);
                assert(vstd::utf8::is_leading_byte_width_3(0xefu8));
                assert(vstd::utf8::decode_first_codepoint(buf) == vstd::utf8::codepoint_width_3(
                    0xefu8,
                    0xbbu8,
                    0xbfu8,
                ));
                assert(vstd::utf8::codepoint_width_3(0xefu8, 0xbbu8, 0xbfu8) == 0xfeffu32) by {
                    assert(((((0xefu8 & 0x0f) as u32) << 12) | (((0xbbu8 & 0x3f) as u32) << 6) | (
                    (0xbfu8 & 0x3f) as u32)) == 0xfeffu32) by (bit_vector);
                }
                assert(chars[0] as u32 == 0xfeffu32);
                vstd::utf8::char_u32_cast(chars[0], 0xfeffu32);
                assert(('\u{feff}' as u32) == 0xfeffu32);
                vstd::utf8::char_u32_cast('\u{feff}', 0xfeffu32);
                if s.len() == 0 {
                    assert(chars[0] == '\u{0}');
                    assert(('\u{0}' as u32) == 0);
                } else {
                    assert(chars[0] == s[0]);
                }
            }
        }
    }
}

} // verus!
