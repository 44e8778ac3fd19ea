//! The bytes that a token stands for in plain text.
//!
//! Text stands for itself. A handful of control symbols and control words
//! stand for fixed bytes: line and paragraph breaks, tabs, spaces, dashes and
//! quotes in their legacy single-byte codes. The hex escape `\'hh` stands for
//! the one byte it spells. Everything else has no representation.

use vstd::prelude::*;

use crate::text::bytes_to_vec;
use crate::text::str_eq;
use crate::token::Token;
use crate::token::TokenView;

verus! {

/// The byte that a control symbol stands for, where it stands for one.
pub open spec fn symbol_repr_table(symbol: char) -> Option<u8> {
    if symbol == '~' {
        Some(0x20u8)  // non-breaking space
    } else if symbol == '_' {
        Some(0x2Du8)  // non-breaking hyphen
    } else if symbol == '\\' {
        Some(0x5Cu8)
    } else if symbol == '{' {
        Some(0x7Bu8)
    } else if symbol == '}' {
        Some(0x7Du8)
    } else if symbol == '\n' {
        Some(0x0Au8)
    } else if symbol == '\r' {
        Some(0x0Du8)
    } else {
        None
    }
}

/// The fixed bytes that a control word stands for, where it stands for any.
pub open spec fn word_repr_table(word: Seq<char>) -> Option<Seq<u8>> {
    if word == "line"@ {
        Some(seq![0x0Au8])
    } else if word == "par"@ {
        Some(seq![0x0Au8, 0x0Au8])
    } else if word == "sect"@ {
        Some(seq![0x0Au8, 0x0Au8, 0x0Au8])
    } else if word == "page"@ {
        Some(seq![0x0Au8, 0x0Au8, 0x0Au8, 0x0Au8])
    } else if word == "tab"@ {
        Some(seq![0x09u8])
    } else if word == "emdash"@ {
        Some(seq![0xD0u8])
    } else if word == "endash"@ {
        Some(seq![0xD1u8])
    } else if word == "bullet"@ {
        Some(seq![0xA5u8])
    } else if word == "lquote"@ {
        Some(seq![0xD4u8])
    } else if word == "rquote"@ {
        Some(seq![0xD5u8])
    } else if word == "ldblquote"@ {
        Some(seq![0xD2u8])
    } else if word == "rdblquote"@ {
        Some(seq![0xD3u8])
    } else if word == "emspace"@ {
        Some(seq![0x20u8, 0x20u8])
    } else if word == "enspace"@ {
        Some(seq![0x20u8])
    } else {
        None
    }
}

/// Whether the word is the hex escape, whose argument is the byte it spells.
pub open spec fn is_hex_escape(word: Seq<char>) -> bool {
    word == "'"@
}

/// The low eight bits of a number.
pub open spec fn low_byte(value: i32) -> u8 {
    (value & 0xFF) as u8
}

/// Whether a control symbol stands for bytes.
pub open spec fn symbol_has_repr(symbol: char) -> bool {
    symbol_repr_table(symbol) is Some
}

/// The bytes that a control symbol stands for; none where it stands for
/// nothing.
pub open spec fn symbol_repr(symbol: char) -> Seq<u8> {
    match symbol_repr_table(symbol) {
        Some(byte) => seq![byte],
        None => Seq::empty(),
    }
}

/// Whether a control word stands for bytes.
pub open spec fn word_has_repr(word: Seq<char>) -> bool {
    word_repr_table(word) is Some || is_hex_escape(word)
}

/// The bytes that a control word stands for; none where it stands for
/// nothing, or where a hex escape lacks its argument.
pub open spec fn word_repr(word: Seq<char>, arg: Option<i32>) -> Seq<u8> {
    match word_repr_table(word) {
        Some(bytes) => bytes,
        None => match arg {
            Some(value) if is_hex_escape(word) => seq![low_byte(value)],
            _ => Seq::empty(),
        },
    }
}

/// Whether a token stands for bytes.
pub open spec fn has_repr(token: TokenView) -> bool {
    match token {
        TokenView::ControlSymbol(symbol) => symbol_has_repr(symbol),
        TokenView::ControlWord { name, arg } => word_has_repr(name),
        TokenView::Text(_) => true,
        _ => false,
    }
}

/// The bytes that a token stands for.
pub open spec fn byte_repr(token: TokenView) -> Seq<u8> {
    match token {
        TokenView::ControlSymbol(symbol) => symbol_repr(symbol),
        TokenView::ControlWord { name, arg } => word_repr(name, arg),
        TokenView::Text(bytes) => bytes,
        _ => Seq::empty(),
    }
}

/// Whether a token stands for bytes.
pub fn token_has_repr(token: &Token) -> (has: bool)
    ensures
        has == has_repr(token@),
{
    match token {
        Token::ControlSymbol(c) => _symbol_has_repr(*c),
        Token::ControlWord { name, arg } => _word_has_repr(name.as_str(), *arg),
        Token::Text(_) => true,
        _ => false,
    }
}

/// Whether a control symbol stands for bytes.
pub fn _symbol_has_repr(symbol: char) -> (has: bool)
    ensures
        has == symbol_has_repr(symbol),
{
    symbol == '~'
        || symbol == '_'
        || symbol == '\\'
        || symbol == '{'
        || symbol == '}'
        || symbol == '\n'
        || symbol == '\r'
}

/// Whether a control word stands for bytes. The argument plays no part.
pub fn _word_has_repr(word: &str, _arg: Option<i32>) -> (has: bool)
    ensures
        has == word_has_repr(word@),
{
    str_eq(word, "line")
        || str_eq(word, "par")
        || str_eq(word, "sect")
        || str_eq(word, "page")
        || str_eq(word, "tab")
        || str_eq(word, "emdash")
        || str_eq(word, "endash")
        || str_eq(word, "bullet")
        || str_eq(word, "lquote")
        || str_eq(word, "rquote")
        || str_eq(word, "ldblquote")
        || str_eq(word, "rdblquote")
        || str_eq(word, "emspace")
        || str_eq(word, "enspace")
        || str_eq(word, "'")
}

/// The bytes that a token stands for.
pub fn token_to_byte_repr(token: &Token) -> (bytes: Vec<u8>)
    ensures
        bytes@ == byte_repr(token@),
{
    match token {
        Token::ControlSymbol(c) => _symbol_to_byte_repr(*c),
        Token::ControlWord { name, arg } => _word_to_byte_repr(name.as_str(), *arg),
        Token::Text(text) => bytes_to_vec(text.as_slice()),
        _ => Vec::new(),
    }
}

/// The bytes that a control symbol stands for.
pub fn _symbol_to_byte_repr(symbol: char) -> (bytes: Vec<u8>)
    ensures
        bytes@ == symbol_repr(symbol),
        bytes@.len() <= 1,
{
    if symbol == '~' {
        vec![0x20u8]
    } else if symbol == '_' {
        vec![0x2Du8]
    } else if symbol == '\\' {
        vec![0x5Cu8]
    } else if symbol == '{' {
        vec![0x7Bu8]
    } else if symbol == '}' {
        vec![0x7Du8]
    } else if symbol == '\n' {
        vec![0x0Au8]
    } else if symbol == '\r' {
        vec![0x0Du8]
    } else {
        Vec::new()
    }
}

/// The bytes that a control word stands for.
pub fn _word_to_byte_repr(word: &str, arg: Option<i32>) -> (bytes: Vec<u8>)
    ensures
        bytes@ == word_repr(word@, arg),
        bytes@.len() <= 4,
{
    if str_eq(word, "line") {
        vec![0x0Au8]
    } else if str_eq(word, "par") {
        vec![0x0Au8, 0x0Au8]
    } else if str_eq(word, "sect") {
        vec![0x0Au8, 0x0Au8, 0x0Au8]
    } else if str_eq(word, "page") {
        vec![0x0Au8, 0x0Au8, 0x0Au8, 0x0Au8]
    } else if str_eq(word, "tab") {
        vec![0x09u8]
    } else if str_eq(word, "emdash") {
        vec![0xD0u8]
    } else if str_eq(word, "endash") {
        vec![0xD1u8]
    } else if str_eq(word, "bullet") {
        vec![0xA5u8]
    } else if str_eq(word, "lquote") {
        vec![0xD4u8]
    } else if str_eq(word, "rquote") {
        vec![0xD5u8]
    } else if str_eq(word, "ldblquote") {
        vec![0xD2u8]
    } else if str_eq(word, "rdblquote") {
        vec![0xD3u8]
    } else if str_eq(word, "emspace") {
        vec![0x20u8, 0x20u8]
    } else if str_eq(word, "enspace") {
        vec![0x20u8]
    } else if str_eq(word, "'") {
        match arg {
            Some(value) => {
                let low: i32 = value & 0xFF;
                assert(0 <= low < 256) by (bit_vector)
                    requires
                        low == value & 0xFF,
                ;
                vec![low as u8]
            },
            None => Vec::new(),
        }
    } else {
        Vec::new()
    }
}

/// A run of text stands for itself: to take its bytes again as text changes
/// nothing.
pub proof fn lemma_text_stands_for_itself(bytes: Seq<u8>)
    ensures
        has_repr(TokenView::Text(bytes)),
        byte_repr(TokenView::Text(bytes)) == bytes,
        byte_repr(TokenView::Text(byte_repr(TokenView::Text(bytes)))) == bytes,
{
}

/// The low eight bits of a number are its remainder modulo 256.
pub proof fn lemma_low_byte_is_remainder(value: i32)
    ensures
        low_byte(value) == value % 256,
{
    assert((value & 0xFF) == value % 256) by (bit_vector);
}

} // verus!
