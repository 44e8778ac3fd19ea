//! Legacy text encodings, named by their Windows code page numbers.
//!
//! The tables and decoders themselves belong to the `codepage` and
//! `encoding_rs` crates. This module gives what they compute a name, so that
//! the interpreter's contracts can say exactly which run of bytes was decoded
//! under which code page.

use vstd::prelude::*;

verus! {

/// Whether `codepage::to_encoding` knows an encoding for this code page.
pub uninterp spec fn codepage_has_encoding(codepage: u16) -> bool;

/// The text that `encoding_rs::Encoding::decode` makes of a run of bytes under
/// the encoding of the given code page.
pub uninterp spec fn decoded_text(codepage: u16, bytes: Seq<u8>) -> Seq<char>;

/// The code page that control characters are written in, and the character
/// set of a document that declares none.
pub const WINDOWS_1252: u16 = 1252;

/// The longest run of bytes that one call decodes. The decoder sizes its
/// output buffer at a little over three times the input, and that size has to
/// stay within what the machine can allocate.
pub open spec fn max_run_len() -> int {
    (usize::MAX / 8) as int
}

/// Asks `codepage::to_encoding` whether it maps the code page to an encoding.
/// The answer is a fixed table's; Windows-1252 is in that table.
#[verifier::external_body]
fn lookup_codepage(codepage: u16) -> (known: bool)
    ensures
        known == codepage_has_encoding(codepage),
        codepage == WINDOWS_1252 ==> known,
{
    codepage::to_encoding(codepage).is_some()
}

/// Decodes a run of bytes with `encoding_rs::Encoding::decode`, under the
/// encoding that `codepage::to_encoding` gives for the code page. Malformed
/// sequences come out as replacement characters, so every run has a text.
#[verifier::external_body]
fn decode_with_codepage(codepage: u16, bytes: &[u8]) -> (text: String)
    requires
        codepage_has_encoding(codepage),
        bytes@.len() <= max_run_len(),
    ensures
        text@ == decoded_text(codepage, bytes@),
{
    codepage::to_encoding(codepage).unwrap().decode(bytes).0.into_owned()
}

/// A text encoding that is known to exist, held by its code page number.
#[derive(Clone, Copy, Debug, PartialEq, Eq)]
pub struct TextEncoding {
    codepage: u16,
}

impl TextEncoding {
    #[verifier::type_invariant]
    spec fn known(self) -> bool {
        codepage_has_encoding(self.codepage)
    }

    /// The code page number of this encoding.
    pub closed spec fn spec_codepage(self) -> u16 {
        self.codepage
    }

    /// The encoding of a code page, where there is one.
    pub fn from_codepage(codepage: u16) -> (encoding: Option<TextEncoding>)
        ensures
            encoding is Some <==> codepage_has_encoding(codepage),
            encoding matches Some(e) ==> e.spec_codepage() == codepage,
    {
        if lookup_codepage(codepage) {
            Some(TextEncoding { codepage })
        } else {
            None
        }
    }

    /// Windows-1252, the "ANSI" character set.
    pub fn windows_1252() -> (encoding: TextEncoding)
        ensures
            encoding.spec_codepage() == WINDOWS_1252,
    {
        let _known = lookup_codepage(WINDOWS_1252);
        TextEncoding { codepage: WINDOWS_1252 }
    }

    /// The code page number of this encoding.
    pub fn codepage(&self) -> (codepage: u16)
        ensures
            codepage == self.spec_codepage(),
            codepage_has_encoding(codepage),
    {
        proof {
            use_type_invariant(self);
        }
        self.codepage
    }

    /// The text of a run of bytes in this encoding.
    pub fn decode(&self, bytes: &[u8]) -> (text: String)
        requires
            bytes@.len() <= max_run_len(),
        ensures
            text@ == decoded_text(self.spec_codepage(), bytes@),
    {
        proof {
            use_type_invariant(self);
        }
        decode_with_codepage(self.codepage, bytes)
    }
}

/// The encoding that a code page selects: the code page itself where an
/// encoding is known for it, none otherwise.
pub open spec fn encoding_of(codepage: u16) -> Option<u16> {
    if codepage_has_encoding(codepage) {
        Some(codepage)
    } else {
        None
    }
}

/// The code page number of the encoding, if there is one.
pub open spec fn codepage_of(encoding: Option<TextEncoding>) -> Option<u16> {
    match encoding {
        Some(e) => Some(e.spec_codepage()),
        None => None,
    }
}

} // verus!
