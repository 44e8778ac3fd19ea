use rtf2text::destination::Destination;
use rtf2text::destination::DestinationRegistry;
use rtf2text::diagnostic::Diagnostic;
use rtf2text::diagnostic::Severity;
use rtf2text::encoding::TextEncoding;
use rtf2text::group::GroupState;
use rtf2text::rtf_control::lookup_control_symbol;
use rtf2text::rtf_control::lookup_destination;
use rtf2text::rtf_control::lookup_flag;
use rtf2text::rtf_control::lookup_symbol;
use rtf2text::rtf_control::lookup_toggle;
use rtf2text::rtf_control::lookup_value;
use rtf2text::rtf_control::lookup_word;
use rtf2text::rtf_control::Category;
use rtf2text::rtf_control::Handler;
use rtf2text::rtftotext::DocumentState;
use rtf2text::token::Token;

fn word(name: &str, arg: Option<i32>) -> Token {
    Token::ControlWord { name: name.to_string(), arg }
}

fn text(bytes: &[u8]) -> Token {
    Token::Text(bytes.to_vec())
}

fn codepage_of(encoding: Option<TextEncoding>) -> Option<u16> {
    encoding.map(|e| e.codepage())
}

#[test]
fn known_code_pages_have_an_encoding() {
    for codepage in [1252u16, 1251, 1250, 10000, 65001, 932, 28591] {
        let encoding = TextEncoding::from_codepage(codepage).expect("known code page");
        assert_eq!(encoding.codepage(), codepage);
    }
    assert_eq!(TextEncoding::windows_1252().codepage(), 1252);
}

#[test]
fn unknown_code_pages_have_no_encoding() {
    for codepage in [0u16, 1, 437, 850, 1259, 12345, 65535] {
        assert!(TextEncoding::from_codepage(codepage).is_none(), "{}", codepage);
    }
}

#[test]
fn decoding_follows_the_code_page() {
    let bytes = [0x41u8, 0xE9, 0x80];
    assert_eq!(TextEncoding::windows_1252().decode(&bytes), "A\u{e9}\u{20ac}");
    assert_eq!(TextEncoding::from_codepage(1251).unwrap().decode(&bytes), "A\u{439}\u{402}");
    assert_eq!(TextEncoding::from_codepage(10000).unwrap().decode(&bytes), "A\u{c8}\u{c4}");
    assert_eq!(TextEncoding::from_codepage(28591).unwrap().decode(&bytes), "A\u{e9}\u{20ac}");
}

#[test]
fn decoding_replaces_what_is_malformed() {
    let utf8 = TextEncoding::from_codepage(65001).unwrap();
    assert_eq!(utf8.decode("caf\u{e9}".as_bytes()), "caf\u{e9}");
    assert_eq!(utf8.decode(&[0x61, 0xFF, 0x62]), "a\u{FFFD}b");
    assert_eq!(utf8.decode(b""), "");
}

#[test]
fn destination_appends_and_reads_back() {
    let mut words = Destination::Text(String::from("caf"));
    words.append_text("\u{e9}");
    words.append_text("");
    assert_eq!(words.as_bytes(), "caf\u{e9}".as_bytes());
    let mut raw = Destination::Bytes(vec![1, 2]);
    raw.append_bytes(&[0xFF, 0]);
    raw.append_bytes(&[]);
    assert_eq!(raw.as_bytes(), &[1, 2, 0xFF, 0]);
}

#[test]
fn destination_copy_holds_the_same() {
    let words = Destination::Text(String::from("abc"));
    assert_eq!(words.clone().as_bytes(), b"abc");
    let raw = Destination::Bytes(vec![9, 8]);
    assert_eq!(raw.clone().as_bytes(), &[9, 8]);
}

#[test]
fn registry_makes_a_destination_on_first_selection() {
    let mut registry = DestinationRegistry::new();
    assert!(!registry.contains("rtf"));
    assert_eq!(registry.snapshot("rtf"), None);
    registry.select_or_create("rtf", true);
    assert!(registry.contains("rtf"));
    assert_eq!(registry.snapshot("rtf"), Some(Vec::new()));
    assert!(!registry.contains("pict"));
}

#[test]
fn registry_keeps_content_on_later_selection() {
    let mut registry = DestinationRegistry::new();
    registry.select_or_create("pict", false);
    assert_eq!(registry.write("pict", None, b"ab"), None);
    registry.select_or_create("pict", false);
    registry.select_or_create("rtf", true);
    assert_eq!(registry.snapshot("pict"), Some(b"ab".to_vec()));
    assert_eq!(registry.snapshot("rtf"), Some(Vec::new()));
}

#[test]
fn registry_decodes_into_text_destinations() {
    let mut registry = DestinationRegistry::new();
    registry.select_or_create("rtf", true);
    let ansi = TextEncoding::windows_1252();
    let cyrillic = TextEncoding::from_codepage(1251).unwrap();
    assert_eq!(registry.write("rtf", Some(ansi), &[0xE9]), None);
    assert_eq!(registry.write("rtf", Some(cyrillic), &[0xE9]), None);
    assert_eq!(registry.snapshot("rtf"), Some("\u{e9}\u{439}".as_bytes().to_vec()));
}

#[test]
fn registry_drops_text_without_encoding() {
    let mut registry = DestinationRegistry::new();
    registry.select_or_create("rtf", true);
    assert_eq!(registry.write("rtf", None, b"lost"), Some(Diagnostic::NoEncoding));
    assert_eq!(registry.snapshot("rtf"), Some(Vec::new()));
}

#[test]
fn registry_appends_raw_bytes_whatever_the_encoding() {
    let mut registry = DestinationRegistry::new();
    registry.select_or_create("pict", false);
    assert_eq!(registry.write("pict", None, &[0xE9]), None);
    assert_eq!(registry.write("pict", Some(TextEncoding::windows_1252()), &[0xE9]), None);
    assert_eq!(registry.snapshot("pict"), Some(vec![0xE9, 0xE9]));
}

#[test]
fn fresh_group_has_nothing_set() {
    let mut group = GroupState::new();
    assert_eq!(group.get_destination_name(), None);
    assert_eq!(codepage_of(group.get_encoding()), None);
    assert_eq!(group.get_value("b"), None);
    assert!(!group.get_and_clear_ignore_next_control());
}

#[test]
fn group_code_page() {
    let mut group = GroupState::new();
    group.set_codepage(1251);
    assert_eq!(codepage_of(group.get_encoding()), Some(1251));
    group.set_codepage(437);
    assert_eq!(codepage_of(group.get_encoding()), None);
    group.set_encoding(Some(TextEncoding::windows_1252()));
    assert_eq!(codepage_of(group.get_encoding()), Some(1252));
    group.set_encoding(None);
    assert_eq!(codepage_of(group.get_encoding()), None);
}

#[test]
fn group_optional_marker_is_used_up_by_reading() {
    let mut group = GroupState::new();
    group.set_opt_ignore_next_control();
    assert!(group.get_and_clear_ignore_next_control());
    assert!(!group.get_and_clear_ignore_next_control());
}

#[test]
fn group_values() {
    let mut group = GroupState::new();
    group.set_value("fs", Some(24));
    group.set_value("b", None);
    assert_eq!(group.get_value("fs"), Some(Some(24)));
    assert_eq!(group.get_value("b"), Some(None));
    assert_eq!(group.get_value("i"), None);
    group.set_value("fs", Some(-3));
    assert_eq!(group.get_value("fs"), Some(Some(-3)));
    assert_eq!(group.get_value("b"), Some(None));
}

#[test]
fn group_selects_and_writes() {
    let mut registry = DestinationRegistry::new();
    let mut group = GroupState::new();
    assert_eq!(group.write(&mut registry, b"lost"), Some(Diagnostic::TextOutsideGroup));
    group.set_destination(&mut registry, "rtf", true);
    assert_eq!(group.get_destination_name(), Some("rtf".to_string()));
    assert_eq!(group.write(&mut registry, b"lost"), Some(Diagnostic::NoEncoding));
    group.set_codepage(1252);
    assert_eq!(group.write(&mut registry, &[0x93, 0x41, 0x94]), None);
    group.set_destination(&mut registry, "pict", false);
    assert_eq!(group.write(&mut registry, &[0x93]), None);
    assert_eq!(registry.snapshot("rtf"), Some("\u{201c}A\u{201d}".as_bytes().to_vec()));
    assert_eq!(registry.snapshot("pict"), Some(vec![0x93]));
}

#[test]
fn group_copy_is_independent() {
    let mut registry = DestinationRegistry::new();
    let mut outer = GroupState::new();
    outer.set_destination(&mut registry, "rtf", true);
    outer.set_codepage(1252);
    outer.set_value("fs", Some(24));
    outer.set_opt_ignore_next_control();
    let mut inner = outer.clone();
    assert_eq!(inner.get_destination_name(), Some("rtf".to_string()));
    assert_eq!(codepage_of(inner.get_encoding()), Some(1252));
    assert_eq!(inner.get_value("fs"), Some(Some(24)));
    inner.set_value("fs", Some(12));
    inner.set_codepage(1251);
    inner.set_destination(&mut registry, "fonttbl", true);
    assert!(inner.get_and_clear_ignore_next_control());
    assert_eq!(outer.get_value("fs"), Some(Some(24)));
    assert_eq!(codepage_of(outer.get_encoding()), Some(1252));
    assert_eq!(outer.get_destination_name(), Some("rtf".to_string()));
    assert!(outer.get_and_clear_ignore_next_control());
}

#[test]
fn tables_of_control_words() {
    assert_eq!(lookup_destination("rtf"), Some(Handler::Body));
    assert_eq!(lookup_destination("fonttbl"), Some(Handler::Destination { uses_encoding: true }));
    assert_eq!(lookup_destination("pict"), Some(Handler::Destination { uses_encoding: false }));
    assert_eq!(lookup_destination("par"), None);
    assert_eq!(lookup_symbol("par"), Some(Handler::Symbol));
    assert_eq!(lookup_symbol("'"), Some(Handler::Symbol));
    assert_eq!(lookup_symbol("rtf"), None);
    assert_eq!(lookup_value("ansicpg"), Some(Handler::CodePage));
    assert_eq!(lookup_value("fs"), Some(Handler::Value));
    assert_eq!(lookup_value("b"), None);
    assert_eq!(lookup_flag("ansi"), Some(Handler::Charset { codepage: 1252 }));
    assert_eq!(lookup_flag("mac"), Some(Handler::Charset { codepage: 10000 }));
    assert_eq!(lookup_flag("pc"), Some(Handler::Charset { codepage: 437 }));
    assert_eq!(lookup_flag("pca"), Some(Handler::Charset { codepage: 850 }));
    assert_eq!(lookup_flag("pard"), Some(Handler::Flag));
    assert_eq!(lookup_flag("fs"), None);
    assert_eq!(lookup_toggle("b"), Some(Handler::Toggle));
    assert_eq!(lookup_toggle("ul"), Some(Handler::Toggle));
    assert_eq!(lookup_toggle("pard"), None);
}

#[test]
fn every_listed_word_is_found_in_its_table() {
    let destinations = [
        "rtf", "fonttbl", "colortbl", "stylesheet", "info", "title", "subject", "author",
        "keywords", "comment", "header", "footer", "footnote", "generator", "pict", "object",
        "objdata", "themedata", "datastore",
    ];
    let symbols = [
        "line", "par", "sect", "page", "tab", "emdash", "endash", "bullet", "lquote", "rquote",
        "ldblquote", "rdblquote", "emspace", "enspace", "'",
    ];
    let values = [
        "ansicpg", "uc", "deff", "deflang", "lang", "f", "fs", "cf", "cb", "li", "ri", "fi",
        "sa", "sb",
    ];
    let flags = [
        "ansi", "mac", "pc", "pca", "pard", "plain", "sectd", "ql", "qr", "qc", "qj",
        "widowctrl",
    ];
    let toggles = ["b", "i", "ul", "strike", "caps", "scaps", "v", "outl", "shad"];
    let category = |name: &str| lookup_word(name).map(|handler| handler.category());
    for name in destinations {
        assert_eq!(category(name), Some(Category::Destination), "{}", name);
    }
    for name in symbols {
        assert_eq!(category(name), Some(Category::Symbol), "{}", name);
    }
    for name in values {
        assert_eq!(category(name), Some(Category::Value), "{}", name);
    }
    for name in flags {
        assert_eq!(category(name), Some(Category::Flag), "{}", name);
    }
    for name in toggles {
        assert_eq!(category(name), Some(Category::Toggle), "{}", name);
    }
}

#[test]
fn each_listed_word_is_in_one_table_only() {
    let all = [
        "rtf", "fonttbl", "colortbl", "stylesheet", "info", "title", "subject", "author",
        "keywords", "comment", "header", "footer", "footnote", "generator", "pict", "object",
        "objdata", "themedata", "datastore", "line", "par", "sect", "page", "tab", "emdash",
        "endash", "bullet", "lquote", "rquote", "ldblquote", "rdblquote", "emspace", "enspace",
        "'", "ansicpg", "uc", "deff", "deflang", "lang", "f", "fs", "cf", "cb", "li", "ri", "fi",
        "sa", "sb", "ansi", "mac", "pc", "pca", "pard", "plain", "sectd", "ql", "qr", "qc", "qj",
        "widowctrl", "b", "i", "ul", "strike", "caps", "scaps", "v", "outl", "shad",
    ];
    for name in all {
        let holders = [
            lookup_destination(name).is_some(),
            lookup_symbol(name).is_some(),
            lookup_value(name).is_some(),
            lookup_flag(name).is_some(),
            lookup_toggle(name).is_some(),
        ];
        assert_eq!(holders.iter().filter(|held| **held).count(), 1, "{}", name);
    }
}

#[test]
fn words_that_are_not_understood() {
    for name in ["", "unknowncontrol", "RTF", "rtf1", "*", "~", "bold", "par "] {
        assert_eq!(lookup_word(name), None, "{}", name);
    }
}

#[test]
fn table_of_control_symbols() {
    assert_eq!(lookup_control_symbol('*'), Some(Handler::OptionalMarker));
    for symbol in ['~', '_', '\\', '{', '}', '\n', '\r'] {
        assert_eq!(lookup_control_symbol(symbol), Some(Handler::Symbol));
    }
    for symbol in ['+', '.', '-', '|', ':', '\''] {
        assert_eq!(lookup_control_symbol(symbol), None);
    }
}

#[test]
fn categories_of_handlers() {
    assert_eq!(Handler::Body.category(), Category::Destination);
    assert_eq!(Handler::Destination { uses_encoding: false }.category(), Category::Destination);
    assert_eq!(Handler::Symbol.category(), Category::Symbol);
    assert_eq!(Handler::OptionalMarker.category(), Category::Symbol);
    assert_eq!(Handler::Value.category(), Category::Value);
    assert_eq!(Handler::CodePage.category(), Category::Value);
    assert_eq!(Handler::Flag.category(), Category::Flag);
    assert_eq!(Handler::Charset { codepage: 1252 }.category(), Category::Flag);
    assert_eq!(Handler::Toggle.category(), Category::Toggle);
}

#[test]
fn handlers_set_values_flags_and_toggles() {
    let mut registry = DestinationRegistry::new();
    let mut group = GroupState::new();
    assert_eq!(Handler::Value.handle_word(&mut group, &mut registry, "fs", Some(24)), None);
    assert_eq!(group.get_value("fs"), Some(Some(24)));
    Handler::Value.handle_word(&mut group, &mut registry, "fs", None);
    assert_eq!(group.get_value("fs"), Some(None));
    Handler::Flag.handle_word(&mut group, &mut registry, "pard", Some(9));
    assert_eq!(group.get_value("pard"), Some(Some(1)));
    Handler::Toggle.handle_word(&mut group, &mut registry, "b", None);
    assert_eq!(group.get_value("b"), Some(Some(1)));
    Handler::Toggle.handle_word(&mut group, &mut registry, "b", Some(0));
    assert_eq!(group.get_value("b"), Some(Some(0)));
    Handler::Toggle.handle_word(&mut group, &mut registry, "b", Some(5));
    assert_eq!(group.get_value("b"), Some(Some(1)));
    Handler::Toggle.handle_word(&mut group, &mut registry, "b", Some(-1));
    assert_eq!(group.get_value("b"), Some(Some(1)));
}

#[test]
fn handlers_set_the_encoding() {
    let mut registry = DestinationRegistry::new();
    let mut group = GroupState::new();
    Handler::CodePage.handle_word(&mut group, &mut registry, "ansicpg", Some(1251));
    assert_eq!(codepage_of(group.get_encoding()), Some(1251));
    assert_eq!(group.get_value("ansicpg"), Some(Some(1251)));
    Handler::CodePage.handle_word(&mut group, &mut registry, "ansicpg", None);
    assert_eq!(codepage_of(group.get_encoding()), Some(1251));
    Handler::CodePage.handle_word(&mut group, &mut registry, "ansicpg", Some(65536 + 1252));
    assert_eq!(codepage_of(group.get_encoding()), Some(1251));
    Handler::CodePage.handle_word(&mut group, &mut registry, "ansicpg", Some(65535));
    assert_eq!(codepage_of(group.get_encoding()), None);
    Handler::Charset { codepage: 10000 }.handle_word(&mut group, &mut registry, "mac", None);
    assert_eq!(codepage_of(group.get_encoding()), Some(10000));
    assert_eq!(group.get_value("mac"), Some(Some(1)));
    Handler::Charset { codepage: 437 }.handle_word(&mut group, &mut registry, "pc", None);
    assert_eq!(codepage_of(group.get_encoding()), None);
}

#[test]
fn body_handler_turns_on_the_default_character_set() {
    let mut registry = DestinationRegistry::new();
    let mut group = GroupState::new();
    Handler::Body.handle_word(&mut group, &mut registry, "rtf", Some(1));
    assert_eq!(group.get_destination_name(), Some("rtf".to_string()));
    assert_eq!(codepage_of(group.get_encoding()), Some(1252));
    assert_eq!(registry.snapshot("rtf"), Some(Vec::new()));
    let mut other = GroupState::new();
    other.set_codepage(1251);
    Handler::Body.handle_word(&mut other, &mut registry, "rtf", Some(1));
    assert_eq!(codepage_of(other.get_encoding()), Some(1251));
}

#[test]
fn symbol_handler_leaves_the_encoding_as_it_was() {
    let mut registry = DestinationRegistry::new();
    let mut group = GroupState::new();
    group.set_destination(&mut registry, "rtf", true);
    assert_eq!(Handler::Symbol.handle_word(&mut group, &mut registry, "bullet", None), None);
    assert_eq!(codepage_of(group.get_encoding()), None);
    group.set_codepage(1251);
    assert_eq!(Handler::Symbol.handle_symbol(&mut group, &mut registry, '~'), None);
    assert_eq!(codepage_of(group.get_encoding()), Some(1251));
    assert_eq!(Handler::Symbol.handle_word(&mut group, &mut registry, "'", Some(0xE9)), None);
    assert_eq!(codepage_of(group.get_encoding()), Some(1251));
    assert_eq!(group.write(&mut registry, &[0xE9]), None);
    assert_eq!(registry.snapshot("rtf"), Some("\u{a5} \u{e9}\u{439}".as_bytes().to_vec()));
}

#[test]
fn symbol_handler_without_destination_reports() {
    let mut registry = DestinationRegistry::new();
    let mut group = GroupState::new();
    assert_eq!(
        Handler::Symbol.handle_word(&mut group, &mut registry, "par", None),
        Some(Diagnostic::TextOutsideGroup)
    );
    assert_eq!(
        Handler::Symbol.handle_word(&mut group, &mut registry, "'", Some(65)),
        Some(Diagnostic::TextOutsideGroup)
    );
    assert_eq!(
        Handler::Symbol.handle_symbol(&mut group, &mut registry, '~'),
        Some(Diagnostic::TextOutsideGroup)
    );
    group.set_destination(&mut registry, "rtf", true);
    assert_eq!(Handler::Symbol.handle_word(&mut group, &mut registry, "'", Some(65)), None);
    assert_eq!(registry.snapshot("rtf"), Some(b"A".to_vec()));
}

#[test]
fn optional_marker_handler_sets_the_marker() {
    let mut registry = DestinationRegistry::new();
    let mut group = GroupState::new();
    assert_eq!(Handler::OptionalMarker.handle_symbol(&mut group, &mut registry, '*'), None);
    assert!(group.get_and_clear_ignore_next_control());
}

#[test]
fn severity_of_each_diagnostic() {
    assert_eq!(Diagnostic::OptionalSymbolSkipped.severity(), Severity::Info);
    assert_eq!(Diagnostic::OptionalWordSkipped.severity(), Severity::Info);
    for diagnostic in [
        Diagnostic::UnmatchedEndGroup,
        Diagnostic::TextOutsideGroup,
        Diagnostic::ControlSymbolOutsideGroup,
        Diagnostic::ControlWordOutsideGroup,
        Diagnostic::UnsupportedSymbol,
        Diagnostic::UnsupportedWord,
        Diagnostic::NoEncoding,
    ] {
        assert_eq!(diagnostic.severity(), Severity::Warning);
    }
}

#[test]
fn interpreter_follows_the_stack_of_groups() {
    let mut state = DocumentState::new();
    assert_eq!(state.depth(), 0);
    assert!(state.get_last_group().is_none());
    state.process_token(&Token::StartGroup);
    assert_eq!(state.depth(), 1);
    assert_eq!(state.get_last_group().unwrap().get_destination_name(), None);
    state.process_token(&word("rtf", Some(1)));
    state.process_token(&word("fs", Some(24)));
    state.process_token(&Token::StartGroup);
    assert_eq!(state.depth(), 2);
    let inner = state.get_last_group().unwrap();
    assert_eq!(inner.get_destination_name(), Some("rtf".to_string()));
    assert_eq!(inner.get_value("fs"), Some(Some(24)));
    state.process_token(&word("fs", Some(12)));
    assert_eq!(state.get_last_group().unwrap().get_value("fs"), Some(Some(12)));
    state.process_token(&Token::EndGroup);
    assert_eq!(state.depth(), 1);
    assert_eq!(state.get_last_group().unwrap().get_value("fs"), Some(Some(24)));
    state.process_token(&Token::EndGroup);
    assert_eq!(state.depth(), 0);
    state.process_token(&Token::EndGroup);
    assert_eq!(state.depth(), 0);
    assert_eq!(state.diagnostics(), &vec![Diagnostic::UnmatchedEndGroup]);
}

#[test]
fn interpreter_takes_each_kind_of_token() {
    let mut state = DocumentState::new();
    state.start_group();
    state.do_control_word("rtf", Some(1), false);
    state.write_to_current_destination(b"a");
    state.do_control_symbol('~', false);
    state.do_control_bin(b"ignored", false);
    state.do_control_word("nonsense", None, true);
    state.do_control_symbol('+', true);
    state.do_control_word("nonsense", None, false);
    state.do_control_symbol('+', false);
    state.end_group();
    state.end_group();
    assert_eq!(state.snapshot("rtf"), Some(b"a +".to_vec()));
    assert_eq!(state.snapshot("fonttbl"), None);
    assert_eq!(
        state.diagnostics(),
        &vec![
            Diagnostic::OptionalWordSkipped,
            Diagnostic::OptionalSymbolSkipped,
            Diagnostic::UnsupportedWord,
            Diagnostic::UnsupportedSymbol,
            Diagnostic::UnmatchedEndGroup,
        ]
    );
    let out = state.finish();
    assert_eq!(out.body, Some(b"a +".to_vec()));
    assert_eq!(out.open_groups, 0);
}

#[test]
fn unsupported_symbol_echo_can_itself_be_dropped() {
    let mut state = DocumentState::new();
    state.process_token(&Token::StartGroup);
    state.process_token(&Token::ControlSymbol('+'));
    state.process_token(&word("fonttbl", None));
    state.process_token(&Token::ControlSymbol('+'));
    assert_eq!(
        state.diagnostics(),
        &vec![
            Diagnostic::UnsupportedSymbol,
            Diagnostic::TextOutsideGroup,
            Diagnostic::UnsupportedSymbol,
            Diagnostic::NoEncoding,
        ]
    );
}

#[test]
fn marker_is_kept_across_text_and_groups() {
    let mut state = DocumentState::new();
    state.process_token(&Token::StartGroup);
    state.process_token(&word("rtf", Some(1)));
    state.process_token(&Token::ControlSymbol('*'));
    state.process_token(&text(b"x"));
    state.process_token(&Token::ControlBin(vec![1]));
    state.process_token(&Token::Newline);
    state.process_token(&Token::StartGroup);
    state.process_token(&word("nonsense", None));
    state.process_token(&Token::EndGroup);
    state.process_token(&word("nonsense", None));
    state.process_token(&word("nonsense", None));
    assert_eq!(
        state.diagnostics(),
        &vec![
            Diagnostic::OptionalWordSkipped,
            Diagnostic::OptionalWordSkipped,
            Diagnostic::UnsupportedWord,
        ]
    );
}

#[test]
fn interpreter_module_offers_its_types() {
    let mut registry = DestinationRegistry::new();
    let mut group = rtf2text::rtftotext::GroupState::new();
    group.set_destination(&mut registry, "pict", false);
    assert_eq!(group.write(&mut registry, &[1, 2]), None);
    let mut buffer = rtf2text::rtftotext::Destination::Bytes(vec![0]);
    buffer.append_bytes(&registry.snapshot("pict").unwrap());
    assert_eq!(buffer.as_bytes(), &[0, 1, 2]);
    let out = rtf2text::rtftotext::write_plaintext(&[rtf2text::rtftotext::Token::StartGroup]);
    assert_eq!(out.open_groups, 1);
}
