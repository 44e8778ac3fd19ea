use rtf2text::repr::_symbol_has_repr;
use rtf2text::repr::_symbol_to_byte_repr;
use rtf2text::repr::_word_has_repr;
use rtf2text::repr::_word_to_byte_repr;
use rtf2text::repr::token_has_repr;
use rtf2text::repr::token_to_byte_repr;
use rtf2text::text::bytes_to_vec;
use rtf2text::text::char_to_utf8;
use rtf2text::text::extend_bytes;
use rtf2text::text::str_eq;
use rtf2text::token::Token;

fn control_word(name: &str, arg: Option<i32>) -> Token {
    Token::ControlWord { name: name.to_string(), arg }
}

#[test]
fn symbols_with_a_representation() {
    assert_eq!(_symbol_to_byte_repr('~'), vec![0x20]);
    assert_eq!(_symbol_to_byte_repr('_'), vec![0x2D]);
    assert_eq!(_symbol_to_byte_repr('\\'), vec![0x5C]);
    assert_eq!(_symbol_to_byte_repr('{'), vec![0x7B]);
    assert_eq!(_symbol_to_byte_repr('}'), vec![0x7D]);
    assert_eq!(_symbol_to_byte_repr('\n'), vec![0x0A]);
    assert_eq!(_symbol_to_byte_repr('\r'), vec![0x0D]);
    for symbol in ['~', '_', '\\', '{', '}', '\n', '\r'] {
        assert!(_symbol_has_repr(symbol));
    }
}

#[test]
fn symbols_without_a_representation() {
    for symbol in ['*', '+', '.', '-', '|', ':', ' ', '\'', 'a', '\u{e9}'] {
        assert!(!_symbol_has_repr(symbol));
        assert_eq!(_symbol_to_byte_repr(symbol), Vec::<u8>::new());
    }
}

#[test]
fn words_with_a_fixed_representation() {
    assert_eq!(_word_to_byte_repr("line", None), b"\n");
    assert_eq!(_word_to_byte_repr("par", None), b"\n\n");
    assert_eq!(_word_to_byte_repr("sect", None), b"\n\n\n");
    assert_eq!(_word_to_byte_repr("page", None), b"\n\n\n\n");
    assert_eq!(_word_to_byte_repr("tab", None), b"\t");
    assert_eq!(_word_to_byte_repr("emdash", None), b"\xD0");
    assert_eq!(_word_to_byte_repr("endash", None), b"\xD1");
    assert_eq!(_word_to_byte_repr("bullet", None), b"\xA5");
    assert_eq!(_word_to_byte_repr("lquote", None), b"\xD4");
    assert_eq!(_word_to_byte_repr("rquote", None), b"\xD5");
    assert_eq!(_word_to_byte_repr("ldblquote", None), b"\xD2");
    assert_eq!(_word_to_byte_repr("rdblquote", None), b"\xD3");
    assert_eq!(_word_to_byte_repr("emspace", None), b"  ");
    assert_eq!(_word_to_byte_repr("enspace", None), b" ");
}

#[test]
fn fixed_representation_ignores_the_argument() {
    assert_eq!(_word_to_byte_repr("par", Some(7)), b"\n\n");
    assert_eq!(_word_to_byte_repr("tab", Some(-1)), b"\t");
}

#[test]
fn words_that_have_a_representation() {
    for word in [
        "line", "par", "sect", "page", "tab", "emdash", "endash", "bullet", "lquote", "rquote",
        "ldblquote", "rdblquote", "emspace", "enspace", "'",
    ] {
        assert!(_word_has_repr(word, None), "{}", word);
        assert!(_word_has_repr(word, Some(3)), "{}", word);
    }
}

#[test]
fn words_without_a_representation() {
    for word in ["", "rtf", "b", "Par", "par ", "parr", "pa", "lines", "''", "ansicpg"] {
        assert!(!_word_has_repr(word, None), "{}", word);
        assert_eq!(_word_to_byte_repr(word, Some(65)), Vec::<u8>::new(), "{}", word);
    }
}

#[test]
fn hex_escape_is_the_low_byte_of_its_argument() {
    assert_eq!(_word_to_byte_repr("'", Some(0xE9)), vec![0xE9]);
    assert_eq!(_word_to_byte_repr("'", Some(0)), vec![0]);
    assert_eq!(_word_to_byte_repr("'", Some(255)), vec![255]);
    assert_eq!(_word_to_byte_repr("'", Some(256)), vec![0]);
    assert_eq!(_word_to_byte_repr("'", Some(0x1234)), vec![0x34]);
    assert_eq!(_word_to_byte_repr("'", Some(-1)), vec![0xFF]);
    assert_eq!(_word_to_byte_repr("'", Some(-256)), vec![0]);
    assert_eq!(_word_to_byte_repr("'", Some(i32::MIN)), vec![0]);
    assert_eq!(_word_to_byte_repr("'", Some(i32::MAX)), vec![0xFF]);
}

#[test]
fn hex_escape_without_argument_is_empty() {
    assert!(_word_has_repr("'", None));
    assert_eq!(_word_to_byte_repr("'", None), Vec::<u8>::new());
}

#[test]
fn tokens_that_have_a_representation() {
    assert!(token_has_repr(&Token::ControlSymbol('~')));
    assert!(!token_has_repr(&Token::ControlSymbol('*')));
    assert!(token_has_repr(&control_word("par", None)));
    assert!(token_has_repr(&control_word("'", Some(1))));
    assert!(!token_has_repr(&control_word("rtf", Some(1))));
    assert!(token_has_repr(&Token::Text(b"abc".to_vec())));
    assert!(token_has_repr(&Token::Text(Vec::new())));
    assert!(!token_has_repr(&Token::ControlBin(b"abc".to_vec())));
    assert!(!token_has_repr(&Token::StartGroup));
    assert!(!token_has_repr(&Token::EndGroup));
    assert!(!token_has_repr(&Token::Newline));
}

#[test]
fn representation_of_each_kind_of_token() {
    assert_eq!(token_to_byte_repr(&Token::ControlSymbol('_')), b"-");
    assert_eq!(token_to_byte_repr(&Token::ControlSymbol('*')), b"");
    assert_eq!(token_to_byte_repr(&control_word("page", None)), b"\n\n\n\n");
    assert_eq!(token_to_byte_repr(&control_word("'", Some(0x41))), b"A");
    assert_eq!(token_to_byte_repr(&control_word("rtf", Some(1))), b"");
    assert_eq!(token_to_byte_repr(&Token::Text(b"abc".to_vec())), b"abc");
    assert_eq!(token_to_byte_repr(&Token::ControlBin(b"abc".to_vec())), b"");
    assert_eq!(token_to_byte_repr(&Token::StartGroup), b"");
    assert_eq!(token_to_byte_repr(&Token::EndGroup), b"");
    assert_eq!(token_to_byte_repr(&Token::Newline), b"");
}

#[test]
fn text_stands_for_itself() {
    let bytes = vec![0u8, 1, 0x7F, 0x80, 0xC3, 0xA9, 0xFF];
    let once = token_to_byte_repr(&Token::Text(bytes.clone()));
    assert_eq!(once, bytes);
    let twice = token_to_byte_repr(&Token::Text(once));
    assert_eq!(twice, bytes);
}

#[test]
fn string_equality() {
    assert!(str_eq("", ""));
    assert!(str_eq("par", "par"));
    assert!(str_eq("caf\u{e9}", "caf\u{e9}"));
    assert!(!str_eq("par", "pard"));
    assert!(!str_eq("pard", "par"));
    assert!(!str_eq("par", "pat"));
    assert!(!str_eq("a", "A"));
    assert!(!str_eq("", " "));
    assert!(!str_eq("e\u{301}", "\u{e9}"));
}

#[test]
fn utf8_of_a_character() {
    for c in [
        '\0', 'A', '\u{7F}', '\u{80}', '\u{e9}', '\u{7FF}', '\u{800}', '\u{20AC}', '\u{D7FF}',
        '\u{E000}', '\u{FFFF}', '\u{10000}', '\u{1F600}', '\u{10FFFF}',
    ] {
        let mut buffer = [0u8; 4];
        assert_eq!(char_to_utf8(c), c.encode_utf8(&mut buffer).as_bytes());
    }
    assert_eq!(char_to_utf8('+'), vec![0x2B]);
    assert_eq!(char_to_utf8('\u{e9}'), vec![0xC3, 0xA9]);
    assert_eq!(char_to_utf8('\u{20AC}'), vec![0xE2, 0x82, 0xAC]);
    assert_eq!(char_to_utf8('\u{1F600}'), vec![0xF0, 0x9F, 0x98, 0x80]);
}

#[test]
fn copies_and_appends_of_bytes() {
    assert_eq!(bytes_to_vec(b""), Vec::<u8>::new());
    assert_eq!(bytes_to_vec(b"abc"), b"abc".to_vec());
    let mut buffer = b"ab".to_vec();
    extend_bytes(&mut buffer, b"cd");
    assert_eq!(buffer, b"abcd");
    extend_bytes(&mut buffer, b"");
    assert_eq!(buffer, b"abcd");
}

#[test]
fn ordinary_tokens_fit_the_decoder() {
    assert!(Token::Text(Vec::new()).fits());
    assert!(Token::Text(vec![0x41; 100_000]).fits());
    assert!(Token::ControlBin(vec![0; 16]).fits());
    assert!(control_word("par", None).fits());
    assert!(Token::ControlSymbol('~').fits());
    assert!(Token::StartGroup.fits());
    assert!(Token::EndGroup.fits());
    assert!(Token::Newline.fits());
    assert!(rtf2text::token::token_stream_fits(&[]));
    assert!(rtf2text::token::token_stream_fits(&[
        Token::StartGroup,
        Token::Text(b"abc".to_vec()),
        Token::EndGroup,
    ]));
}
