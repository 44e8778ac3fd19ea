//! The control words and control symbols that the interpreter understands.
//!
//! There are five tables, one for each thing a control can do: select a
//! destination, produce a literal symbol, set a value, set a flag, or switch
//! a toggle. Each entry names the handler that carries the control out on
//! the state of the group it occurs in. A name is looked up in the tables in
//! that order, and the first table that holds it wins.

use vstd::prelude::*;

use crate::destination::selected;
use crate::destination::Content;
use crate::destination::DestinationRegistry;
use crate::diagnostic::Diagnostic;
use crate::encoding::encoding_of;
use crate::encoding::TextEncoding;
use crate::encoding::WINDOWS_1252;
use crate::group::GroupState;
use crate::group::GroupView;
use crate::repr::_symbol_has_repr;
use crate::repr::_symbol_to_byte_repr;
use crate::repr::_word_has_repr;
use crate::repr::_word_to_byte_repr;
use crate::repr::symbol_has_repr;
use crate::repr::symbol_repr;
use crate::repr::word_has_repr;
use crate::repr::word_repr;
use crate::text::str_eq;

verus! {

/// The five things a control can do.
#[derive(Clone, Copy, Debug, PartialEq, Eq, Structural)]
pub enum Category {
    /// Selects the destination that text goes to.
    Destination,
    /// Produces fixed bytes in the current destination.
    Symbol,
    /// Sets an attribute to the control's argument.
    Value,
    /// Sets an attribute that is either there or not.
    Flag,
    /// Switches an attribute on, or off with the argument 0.
    Toggle,
}

/// What carries a control out.
#[derive(Clone, Copy, Debug, PartialEq, Eq, Structural)]
pub enum Handler {
    /// Selects the destination named like the control word: a text buffer if
    /// `uses_encoding`, else raw bytes.
    Destination { uses_encoding: bool },
    /// Selects the text destination named like the control word, which is
    /// the document body, and puts Windows-1252, the default character set
    /// of the format, in force where the group has no encoding yet.
    Body,
    /// Writes the bytes that the control stands for: control characters, or
    /// the byte that a hex escape spells. They are written as Windows-1252,
    /// whatever encoding is in force.
    Symbol,
    /// Lets the next control be skipped if it is not understood.
    OptionalMarker,
    /// Remembers the argument under the control word's name.
    Value,
    /// Remembers the argument, and puts the code page it names in force.
    CodePage,
    /// Remembers that the control word occurred.
    Flag,
    /// Remembers that the control word occurred, and puts the character set
    /// it names in force.
    Charset { codepage: u16 },
    /// Remembers the control word as on, or as off where its argument is 0.
    Toggle,
}

impl Handler {
    /// The table that a handler belongs to.
    pub open spec fn spec_category(self) -> Category {
        match self {
            Handler::Destination { .. } | Handler::Body => Category::Destination,
            Handler::Symbol | Handler::OptionalMarker => Category::Symbol,
            Handler::Value | Handler::CodePage => Category::Value,
            Handler::Flag | Handler::Charset { .. } => Category::Flag,
            Handler::Toggle => Category::Toggle,
        }
    }

    /// The table that a handler belongs to.
    pub fn category(&self) -> (category: Category)
        ensures
            category == self.spec_category(),
    {
        match self {
            Handler::Destination { .. } | Handler::Body => Category::Destination,
            Handler::Symbol | Handler::OptionalMarker => Category::Symbol,
            Handler::Value | Handler::CodePage => Category::Value,
            Handler::Flag | Handler::Charset { .. } => Category::Flag,
            Handler::Toggle => Category::Toggle,
        }
    }

    /// The kind of destination that a handler selects, if it selects one:
    /// `true` for a text buffer, `false` for raw bytes.
    pub open spec fn selects(self) -> Option<bool> {
        match self {
            Handler::Destination { uses_encoding } => Some(uses_encoding),
            Handler::Body => Some(true),
            _ => None,
        }
    }
}

/// The name of the destination that is the document body.
pub open spec fn body_name() -> Seq<char> {
    "rtf"@
}

/// Whether the name selects a destination that holds text.
pub open spec fn is_text_destination(name: Seq<char>) -> bool {
    ||| name == "fonttbl"@
    ||| name == "colortbl"@
    ||| name == "stylesheet"@
    ||| name == "info"@
    ||| name == "title"@
    ||| name == "subject"@
    ||| name == "author"@
    ||| name == "keywords"@
    ||| name == "comment"@
    ||| name == "header"@
    ||| name == "footer"@
    ||| name == "footnote"@
    ||| name == "generator"@
}

/// Whether the name selects a destination that holds raw bytes.
pub open spec fn is_binary_destination(name: Seq<char>) -> bool {
    ||| name == "pict"@
    ||| name == "object"@
    ||| name == "objdata"@
    ||| name == "themedata"@
    ||| name == "datastore"@
}

/// Whether the name sets a plain value.
pub open spec fn is_plain_value(name: Seq<char>) -> bool {
    ||| name == "uc"@
    ||| name == "deff"@
    ||| name == "deflang"@
    ||| name == "lang"@
    ||| name == "f"@
    ||| name == "fs"@
    ||| name == "cf"@
    ||| name == "cb"@
    ||| name == "li"@
    ||| name == "ri"@
    ||| name == "fi"@
    ||| name == "sa"@
    ||| name == "sb"@
}

/// Whether the name sets a plain flag.
pub open spec fn is_plain_flag(name: Seq<char>) -> bool {
    ||| name == "pard"@
    ||| name == "plain"@
    ||| name == "sectd"@
    ||| name == "ql"@
    ||| name == "qr"@
    ||| name == "qc"@
    ||| name == "qj"@
    ||| name == "widowctrl"@
}

/// Whether the name switches a toggle.
pub open spec fn is_toggle(name: Seq<char>) -> bool {
    ||| name == "b"@
    ||| name == "i"@
    ||| name == "ul"@
    ||| name == "strike"@
    ||| name == "caps"@
    ||| name == "scaps"@
    ||| name == "v"@
    ||| name == "outl"@
    ||| name == "shad"@
}

/// The table of destination selectors.
pub open spec fn destination_table(name: Seq<char>) -> Option<Handler> {
    if name == body_name() {
        Some(Handler::Body)
    } else if is_text_destination(name) {
        Some(Handler::Destination { uses_encoding: true })
    } else if is_binary_destination(name) {
        Some(Handler::Destination { uses_encoding: false })
    } else {
        None
    }
}

/// The table of literal symbols, for control words: it holds the words
/// that stand for bytes.
pub open spec fn symbol_table(name: Seq<char>) -> Option<Handler> {
    if word_has_repr(name) {
        Some(Handler::Symbol)
    } else {
        None
    }
}

/// The table of value setters.
pub open spec fn value_table(name: Seq<char>) -> Option<Handler> {
    if name == "ansicpg"@ {
        Some(Handler::CodePage)
    } else if is_plain_value(name) {
        Some(Handler::Value)
    } else {
        None
    }
}

/// The table of flag setters. The four character sets of the format are
/// flags that also name a code page.
pub open spec fn flag_table(name: Seq<char>) -> Option<Handler> {
    if name == "ansi"@ {
        Some(Handler::Charset { codepage: 1252 })
    } else if name == "mac"@ {
        Some(Handler::Charset { codepage: 10000 })
    } else if name == "pc"@ {
        Some(Handler::Charset { codepage: 437 })
    } else if name == "pca"@ {
        Some(Handler::Charset { codepage: 850 })
    } else if is_plain_flag(name) {
        Some(Handler::Flag)
    } else {
        None
    }
}

/// The table of toggles.
pub open spec fn toggle_table(name: Seq<char>) -> Option<Handler> {
    if is_toggle(name) {
        Some(Handler::Toggle)
    } else {
        None
    }
}

/// The handler of a control word: that of the first table that holds the
/// name, taking the tables as destinations, symbols, values, flags, toggles.
pub open spec fn word_handler(name: Seq<char>) -> Option<Handler> {
    if destination_table(name) is Some {
        destination_table(name)
    } else if symbol_table(name) is Some {
        symbol_table(name)
    } else if value_table(name) is Some {
        value_table(name)
    } else if flag_table(name) is Some {
        flag_table(name)
    } else {
        toggle_table(name)
    }
}

/// The handler of a control symbol, from the table of literal symbols.
pub open spec fn symbol_handler(symbol: char) -> Option<Handler> {
    if symbol == '*' {
        Some(Handler::OptionalMarker)
    } else if symbol_has_repr(symbol) {
        Some(Handler::Symbol)
    } else {
        None
    }
}

/// Looks a name up in the table of destination selectors.
pub fn lookup_destination(name: &str) -> (handler: Option<Handler>)
    ensures
        handler == destination_table(name@),
{
    if str_eq(name, "rtf") {
        Some(Handler::Body)
    } else if str_eq(name, "fonttbl")
        || str_eq(name, "colortbl")
        || str_eq(name, "stylesheet")
        || str_eq(name, "info")
        || str_eq(name, "title")
        || str_eq(name, "subject")
        || str_eq(name, "author")
        || str_eq(name, "keywords")
        || str_eq(name, "comment")
        || str_eq(name, "header")
        || str_eq(name, "footer")
        || str_eq(name, "footnote")
        || str_eq(name, "generator")
    {
        Some(Handler::Destination { uses_encoding: true })
    } else if str_eq(name, "pict")
        || str_eq(name, "object")
        || str_eq(name, "objdata")
        || str_eq(name, "themedata")
        || str_eq(name, "datastore")
    {
        Some(Handler::Destination { uses_encoding: false })
    } else {
        None
    }
}

/// Looks a control word up in the table of literal symbols.
pub fn lookup_symbol(name: &str) -> (handler: Option<Handler>)
    ensures
        handler == symbol_table(name@),
{
    if _word_has_repr(name, None) {
        Some(Handler::Symbol)
    } else {
        None
    }
}

/// Looks a name up in the table of value setters.
pub fn lookup_value(name: &str) -> (handler: Option<Handler>)
    ensures
        handler == value_table(name@),
{
    if str_eq(name, "ansicpg") {
        Some(Handler::CodePage)
    } else if str_eq(name, "uc")
        || str_eq(name, "deff")
        || str_eq(name, "deflang")
        || str_eq(name, "lang")
        || str_eq(name, "f")
        || str_eq(name, "fs")
        || str_eq(name, "cf")
        || str_eq(name, "cb")
        || str_eq(name, "li")
        || str_eq(name, "ri")
        || str_eq(name, "fi")
        || str_eq(name, "sa")
        || str_eq(name, "sb")
    {
        Some(Handler::Value)
    } else {
        None
    }
}

/// Looks a name up in the table of flag setters.
pub fn lookup_flag(name: &str) -> (handler: Option<Handler>)
    ensures
        handler == flag_table(name@),
{
    if str_eq(name, "ansi") {
        Some(Handler::Charset { codepage: 1252 })
    } else if str_eq(name, "mac") {
        Some(Handler::Charset { codepage: 10000 })
    } else if str_eq(name, "pc") {
        Some(Handler::Charset { codepage: 437 })
    } else if str_eq(name, "pca") {
        Some(Handler::Charset { codepage: 850 })
    } else if str_eq(name, "pard")
        || str_eq(name, "plain")
        || str_eq(name, "sectd")
        || str_eq(name, "ql")
        || str_eq(name, "qr")
        || str_eq(name, "qc")
        || str_eq(name, "qj")
        || str_eq(name, "widowctrl")
    {
        Some(Handler::Flag)
    } else {
        None
    }
}

/// Looks a name up in the table of toggles.
pub fn lookup_toggle(name: &str) -> (handler: Option<Handler>)
    ensures
        handler == toggle_table(name@),
{
    if str_eq(name, "b")
        || str_eq(name, "i")
        || str_eq(name, "ul")
        || str_eq(name, "strike")
        || str_eq(name, "caps")
        || str_eq(name, "scaps")
        || str_eq(name, "v")
        || str_eq(name, "outl")
        || str_eq(name, "shad")
    {
        Some(Handler::Toggle)
    } else {
        None
    }
}

/// The handler of a control word, if the word is understood.
pub fn lookup_word(name: &str) -> (handler: Option<Handler>)
    ensures
        handler == word_handler(name@),
{
    if let Some(handler) = lookup_destination(name) {
        Some(handler)
    } else if let Some(handler) = lookup_symbol(name) {
        Some(handler)
    } else if let Some(handler) = lookup_value(name) {
        Some(handler)
    } else if let Some(handler) = lookup_flag(name) {
        Some(handler)
    } else {
        lookup_toggle(name)
    }
}

/// The handler of a control symbol, if the symbol is understood.
pub fn lookup_control_symbol(symbol: char) -> (handler: Option<Handler>)
    ensures
        handler == symbol_handler(symbol),
{
    if symbol == '*' {
        Some(Handler::OptionalMarker)
    } else if _symbol_has_repr(symbol) {
        Some(Handler::Symbol)
    } else {
        None
    }
}

/// What a handler leaves behind: the group's state, the destinations, and
/// what there is to report.
#[verifier::ext_equal]
pub struct Effect {
    pub group: GroupView,
    pub destinations: Map<Seq<char>, Content>,
    pub diagnostic: Option<Diagnostic>,
}

/// The code page that an argument names, where it is in range for one.
pub open spec fn codepage_of_arg(arg: Option<i32>) -> Option<u16> {
    match arg {
        Some(value) if 0 <= value <= u16::MAX => Some(value as u16),
        _ => None,
    }
}

/// The state of a toggle after a control word with this argument: off for
/// the argument 0, on otherwise.
pub open spec fn toggle_state(arg: Option<i32>) -> Option<i32> {
    if arg == Some(0i32) {
        Some(0i32)
    } else {
        Some(1i32)
    }
}

/// The effect of writing the bytes of a symbol: they go to the group's
/// destination as Windows-1252, and the group is as it was.
pub open spec fn symbol_written(
    bytes: Seq<u8>,
    group: GroupView,
    destinations: Map<Seq<char>, Content>,
) -> Effect {
    let writer = GroupView { encoding: Some(WINDOWS_1252), ..group };
    Effect {
        group,
        destinations: writer.write(destinations, bytes),
        diagnostic: writer.write_diagnostic(destinations),
    }
}

/// The effect of a handler on a group and the destinations, for the control
/// word of the given name and argument.
pub open spec fn word_effect(
    handler: Handler,
    name: Seq<char>,
    arg: Option<i32>,
    group: GroupView,
    destinations: Map<Seq<char>, Content>,
) -> Effect {
    match handler {
        Handler::Destination { uses_encoding } => Effect {
            group: GroupView { destination: Some(name), ..group },
            destinations: selected(destinations, name, uses_encoding),
            diagnostic: None,
        },
        Handler::Body => Effect {
            group: GroupView {
                destination: Some(name),
                encoding: if group.encoding is None {
                    Some(WINDOWS_1252)
                } else {
                    group.encoding
                },
                ..group
            },
            destinations: selected(destinations, name, true),
            diagnostic: None,
        },
        Handler::Symbol => symbol_written(word_repr(name, arg), group, destinations),
        Handler::OptionalMarker => Effect {
            group: GroupView { ignore_next_control: true, ..group },
            destinations,
            diagnostic: None,
        },
        Handler::Value => Effect {
            group: GroupView { values: group.values.insert(name, arg), ..group },
            destinations,
            diagnostic: None,
        },
        Handler::CodePage => Effect {
            group: GroupView {
                values: group.values.insert(name, arg),
                encoding: match codepage_of_arg(arg) {
                    Some(codepage) => encoding_of(codepage),
                    None => group.encoding,
                },
                ..group
            },
            destinations,
            diagnostic: None,
        },
        Handler::Flag => Effect {
            group: GroupView { values: group.values.insert(name, Some(1i32)), ..group },
            destinations,
            diagnostic: None,
        },
        Handler::Charset { codepage } => Effect {
            group: GroupView {
                values: group.values.insert(name, Some(1i32)),
                encoding: encoding_of(codepage),
                ..group
            },
            destinations,
            diagnostic: None,
        },
        Handler::Toggle => Effect {
            group: GroupView { values: group.values.insert(name, toggle_state(arg)), ..group },
            destinations,
            diagnostic: None,
        },
    }
}

/// The effect of a handler on a group and the destinations, for a control
/// symbol. Only the handlers of the symbol table do anything here.
pub open spec fn symbol_effect(
    handler: Handler,
    symbol: char,
    group: GroupView,
    destinations: Map<Seq<char>, Content>,
) -> Effect {
    match handler {
        Handler::Symbol => symbol_written(symbol_repr(symbol), group, destinations),
        Handler::OptionalMarker => Effect {
            group: GroupView { ignore_next_control: true, ..group },
            destinations,
            diagnostic: None,
        },
        _ => Effect { group, destinations, diagnostic: None },
    }
}

/// Whether a handler can run for the given name: a destination that it
/// selects, if it exists already, is of the kind the handler selects.
pub open spec fn can_select(
    handler: Handler,
    name: Seq<char>,
    destinations: Map<Seq<char>, Content>,
) -> bool {
    handler.selects() matches Some(uses_encoding) ==> (destinations.contains_key(name)
        ==> (destinations[name] is Text <==> uses_encoding))
}

/// Writes the bytes of a symbol to the group's destination: as Windows-1252,
/// whatever encoding is in force, which is in force again afterwards.
fn write_symbol(
    group: &mut GroupState,
    destinations: &mut DestinationRegistry,
    bytes: &[u8],
) -> (diagnostic: Option<Diagnostic>)
    requires
        old(group).wf(),
        old(destinations).wf(),
        old(group)@.destination_exists(old(destinations)@),
        bytes@.len() <= 4,
    ensures
        final(group).wf(),
        final(destinations).wf(),
        (Effect { group: final(group)@, destinations: final(destinations)@, diagnostic })
            == symbol_written(bytes@, old(group)@, old(destinations)@),
{
    let encoding = group.get_encoding();
    group.set_encoding(Some(TextEncoding::windows_1252()));
    let diagnostic = group.write(destinations, bytes);
    group.set_encoding(encoding);
    diagnostic
}

impl Handler {
    /// Carries out the control word of the given name and argument on a
    /// group and the destinations.
    pub fn handle_word(
        &self,
        group: &mut GroupState,
        destinations: &mut DestinationRegistry,
        name: &str,
        arg: Option<i32>,
    ) -> (diagnostic: Option<Diagnostic>)
        requires
            old(group).wf(),
            old(destinations).wf(),
            old(group)@.destination_exists(old(destinations)@),
            can_select(*self, name@, old(destinations)@),
        ensures
            final(group).wf(),
            final(destinations).wf(),
            final(group)@.destination_exists(final(destinations)@),
            (Effect { group: final(group)@, destinations: final(destinations)@, diagnostic })
                == word_effect(*self, name@, arg, old(group)@, old(destinations)@),
    {
        match self {
            Handler::Destination { uses_encoding } => {
                group.set_destination(destinations, name, *uses_encoding);
                None
            },
            Handler::Body => {
                group.set_destination(destinations, name, true);
                if group.get_encoding().is_none() {
                    group.set_encoding(Some(TextEncoding::windows_1252()));
                }
                None
            },
            Handler::Symbol => {
                let bytes = _word_to_byte_repr(name, arg);
                write_symbol(group, destinations, bytes.as_slice())
            },
            Handler::OptionalMarker => {
                group.set_opt_ignore_next_control();
                None
            },
            Handler::Value => {
                group.set_value(name, arg);
                None
            },
            Handler::CodePage => {
                group.set_value(name, arg);
                match arg {
                    Some(value) => {
                        if 0 <= value && value <= 0xFFFF {
                            group.set_codepage(value as u16);
                        }
                    },
                    None => {},
                }
                None
            },
            Handler::Flag => {
                group.set_value(name, Some(1));
                None
            },
            Handler::Charset { codepage } => {
                group.set_value(name, Some(1));
                group.set_codepage(*codepage);
                None
            },
            Handler::Toggle => {
                let on: i32 = match arg {
                    Some(0) => 0,
                    _ => 1,
                };
                group.set_value(name, Some(on));
                None
            },
        }
    }

    /// Carries out a control symbol on a group and the destinations.
    pub fn handle_symbol(
        &self,
        group: &mut GroupState,
        destinations: &mut DestinationRegistry,
        symbol: char,
    ) -> (diagnostic: Option<Diagnostic>)
        requires
            old(group).wf(),
            old(destinations).wf(),
            old(group)@.destination_exists(old(destinations)@),
        ensures
            final(group).wf(),
            final(destinations).wf(),
            final(group)@.destination_exists(final(destinations)@),
            (Effect { group: final(group)@, destinations: final(destinations)@, diagnostic })
                == symbol_effect(*self, symbol, old(group)@, old(destinations)@),
    {
        match self {
            Handler::Symbol => {
                let bytes = _symbol_to_byte_repr(symbol);
                write_symbol(group, destinations, bytes.as_slice())
            },
            Handler::OptionalMarker => {
                group.set_opt_ignore_next_control();
                None
            },
            _ => None,
        }
    }
}

} // verus!
