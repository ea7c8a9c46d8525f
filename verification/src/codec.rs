//! Code-page handling: the pure lookup between the default encoding and its
//! numeric tag, and decoding of a tagged byte buffer back to text.
//!
//! The two operations below are the only places this crate relies on the
//! outside encoding tables; everything said of them is held to those
//! crates' sources.

use vstd::prelude::*;

verus! {

/// The code-page tag of the default encoding (UTF-8), as the code-page
/// table registers it.
pub const DEFAULT_CODEPAGE: u16 = 65001;

/// Whether a code-page tag is registered in the code-page table, taken
/// verbatim from that table's 53 entries: exactly these tags resolve to a
/// decoder, every other tag resolves to nothing.
pub open spec fn codepage_known(cp: u16) -> bool {
    ||| cp == 65001
    ||| cp == 1200
    ||| cp == 1252
    ||| cp == 1251
    ||| cp == 936
    ||| cp == 932
    ||| cp == 949
    ||| cp == 1250
    ||| cp == 1256
    ||| cp == 1254
    ||| cp == 950
    ||| cp == 874
    ||| cp == 1255
    ||| cp == 1253
    ||| cp == 1257
    ||| cp == 1258
    ||| cp == 20932
    ||| cp == 28592
    ||| cp == 28605
    ||| cp == 28597
    ||| cp == 20866
    ||| cp == 54936
    ||| cp == 28595
    ||| cp == 38598
    ||| cp == 28594
    ||| cp == 28596
    ||| cp == 50221
    ||| cp == 21866
    ||| cp == 28603
    ||| cp == 28593
    ||| cp == 1201
    ||| cp == 866
    ||| cp == 28600
    ||| cp == 28598
    ||| cp == 10000
    ||| cp == 10017
    ||| cp == 28604
    ||| cp == 28606
    ||| cp == 951
    ||| cp == 10007
    ||| cp == 20936
    ||| cp == 20949
    ||| cp == 21010
    ||| cp == 28591
    ||| cp == 28599
    ||| cp == 28601
    ||| cp == 50220
    ||| cp == 50222
    ||| cp == 50225
    ||| cp == 50227
    ||| cp == 51936
    ||| cp == 51949
    ||| cp == 52936
}

/// Whether a buffer begins with one of the three byte-order marks the
/// decoder sniffs for before choosing a decoder: the UTF-8 mark or either
/// 16-bit mark.
pub open spec fn has_bom_prefix(bytes: Seq<u8>) -> bool {
    ||| (bytes.len() >= 3 && bytes[0] == 0xefu8 && bytes[1] == 0xbbu8 && bytes[2] == 0xbfu8)
    ||| (bytes.len() >= 2 && bytes[0] == 0xffu8 && bytes[1] == 0xfeu8)
    ||| (bytes.len() >= 2 && bytes[0] == 0xfeu8 && bytes[1] == 0xffu8)
}

/// What decoding a tagged buffer yields whenever the exact UTF-8 clause
/// below does not pin it: the text is a function of the tag and the bytes
/// alone, and nothing more is claimed of it.
pub uninterp spec fn raw_decode_result(cp: u16, bytes: Seq<u8>) -> Seq<char>;

/// The one case whose decode the contract below pins exactly: the default
/// tag over a well-formed UTF-8 buffer that begins with no byte-order mark.
pub open spec fn exact_utf8_decode(cp: u16, bytes: Seq<u8>) -> bool {
    cp == DEFAULT_CODEPAGE && vstd::utf8::valid_utf8(bytes) && !has_bom_prefix(bytes)
}

/// Relies on codepage::from_encoding: the preferred tag for the UTF-8
/// encoding is 65001, the first entry of the generated code-page table.
#[verifier::external_body]
pub(crate) fn default_codepage() -> (r: Option<u16>)
    ensures
        r == Some(DEFAULT_CODEPAGE),
{
    codepage::from_encoding(encoding_rs::UTF_8)
}

/// Relies on codepage::to_encoding and encoding_rs::Encoding::decode,
/// composed exactly as a decode of a tagged buffer: the tag resolves to a
/// decoder if and only if it stands in the code-page table; the decoder
/// first sniffs the buffer for a byte-order mark and then decodes, so a
/// well-formed UTF-8 buffer with no such mark under the UTF-8 tag decodes
/// to precisely the text it encodes; any other resolvable decode is a
/// function of the tag and the bytes alone. The two calls share one body
/// because the contract ties the decoded text to the tag, and the decoder
/// value passing between them has no name the contract could use.
#[verifier::external_body]
pub(crate) fn decode_codepage(cp: u16, bytes: &[u8]) -> (r: Option<String>)
    ensures
        r is Some <==> codepage_known(cp),
        exact_utf8_decode(cp, bytes@) ==> r is Some && (r->0)@ == vstd::utf8::decode_utf8(bytes@),
        codepage_known(cp) && !exact_utf8_decode(cp, bytes@) ==> r is Some && (r->0)@ == raw_decode_result(cp, bytes@),
{
    match codepage::to_encoding(cp) {
        Some(encoding) => {
            let (text, _, _) = encoding.decode(bytes);
            Some(text.into_owned())
        },
        None => None,
    }
}

} // verus!
