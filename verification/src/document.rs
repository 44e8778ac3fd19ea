//! What each token does to the state of a conversion.
//!
//! The state is laid down here as mathematical values: the content of every
//! destination, the open groups, and the diagnostics reported so far. Each
//! kind of token is a function from state to state, and a document is the
//! composition of the functions of its tokens. The interpreter is proved to
//! compute exactly this.

use vstd::prelude::*;
use vstd::utf8::encode_utf8;

use crate::destination::Content;
use crate::diagnostic::Diagnostic;
use crate::group::GroupView;
use crate::rtf_control::body_name;
use crate::rtf_control::can_select;
use crate::rtf_control::destination_table;
use crate::rtf_control::symbol_effect;
use crate::rtf_control::symbol_handler;
use crate::rtf_control::word_effect;
use crate::rtf_control::word_handler;
use crate::rtf_control::Effect;
use crate::token::TokenView;

verus! {

/// The state of a conversion, as mathematical values.
#[verifier::ext_equal]
pub struct DocumentView {
    /// The content of every destination made so far, by name.
    pub destinations: Map<Seq<char>, Content>,
    /// The open groups, the innermost last.
    pub groups: Seq<GroupView>,
    /// What was reported so far, in order.
    pub diagnostics: Seq<Diagnostic>,
}

/// Whether a destination holds the kind of content that the table of
/// destination selectors declares for its name.
pub open spec fn typed_as_declared(name: Seq<char>, content: Content) -> bool {
    destination_table(name) matches Some(handler) && (content is Text <==> handler.selects()
        == Some(true))
}

impl DocumentView {
    /// The state before the first token: no destinations, no open group,
    /// nothing reported.
    pub open spec fn initial() -> DocumentView {
        DocumentView { destinations: Map::empty(), groups: Seq::empty(), diagnostics: Seq::empty() }
    }

    /// The number of open groups.
    pub open spec fn depth(self) -> nat {
        self.groups.len()
    }

    /// The state with one more diagnostic reported, if there is one.
    pub open spec fn report(self, diagnostic: Option<Diagnostic>) -> DocumentView {
        match diagnostic {
            Some(d) => DocumentView { diagnostics: self.diagnostics.push(d), ..self },
            None => self,
        }
    }

    /// The state after a handler's effect on the innermost group.
    pub open spec fn apply(self, effect: Effect) -> DocumentView {
        DocumentView {
            destinations: effect.destinations,
            groups: self.groups.update(self.groups.len() - 1, effect.group),
            diagnostics: self.diagnostics,
        }.report(effect.diagnostic)
    }

    /// Whether the innermost group lets the next control be skipped.
    pub open spec fn optional(self) -> bool {
        self.groups.len() > 0 && self.groups.last().ignore_next_control
    }

    /// The state with that permission used up.
    pub open spec fn clear_optional(self) -> DocumentView {
        if self.groups.len() > 0 {
            DocumentView {
                groups: self.groups.update(
                    self.groups.len() - 1,
                    GroupView { ignore_next_control: false, ..self.groups.last() },
                ),
                ..self
            }
        } else {
            self
        }
    }

    /// An opening brace: the innermost group is copied for the new group; the
    /// outermost group starts fresh.
    pub open spec fn start_group(self) -> DocumentView {
        DocumentView {
            groups: self.groups.push(
                if self.groups.len() > 0 {
                    self.groups.last()
                } else {
                    GroupView::fresh()
                },
            ),
            ..self
        }
    }

    /// A closing brace: the innermost group ends. Where no group is open,
    /// that is reported and nothing else happens.
    pub open spec fn end_group(self) -> DocumentView {
        if self.groups.len() > 0 {
            DocumentView { groups: self.groups.drop_last(), ..self }
        } else {
            self.report(Some(Diagnostic::UnmatchedEndGroup))
        }
    }

    /// A run of text: the innermost group writes it. Where no group is open,
    /// that is reported and the text is dropped.
    pub open spec fn text(self, bytes: Seq<u8>) -> DocumentView {
        if self.groups.len() > 0 {
            DocumentView {
                destinations: self.groups.last().write(self.destinations, bytes),
                ..self
            }.report(self.groups.last().write_diagnostic(self.destinations))
        } else {
            self.report(Some(Diagnostic::TextOutsideGroup))
        }
    }

    /// A control symbol. One that the symbol table holds is carried out by
    /// its handler. One that is not understood is skipped where the document
    /// marked it optional; otherwise it is reported and written out as text.
    /// Where no group is open, that is reported and nothing else happens.
    pub open spec fn control_symbol(self, symbol: char, word_is_optional: bool) -> DocumentView {
        if self.groups.len() == 0 {
            self.report(Some(Diagnostic::ControlSymbolOutsideGroup))
        } else {
            match symbol_handler(symbol) {
                Some(handler) => self.apply(
                    symbol_effect(handler, symbol, self.groups.last(), self.destinations),
                ),
                None => if word_is_optional {
                    self.report(Some(Diagnostic::OptionalSymbolSkipped))
                } else {
                    self.report(Some(Diagnostic::UnsupportedSymbol)).text(encode_utf8(seq![symbol]))
                },
            }
        }
    }

    /// A control word. One that a table holds is carried out by its handler.
    /// One that is not understood is skipped where the document marked it
    /// optional, and reported and dropped otherwise. Where no group is open,
    /// that is reported and nothing else happens.
    pub open spec fn control_word(
        self,
        name: Seq<char>,
        arg: Option<i32>,
        word_is_optional: bool,
    ) -> DocumentView {
        if self.groups.len() == 0 {
            self.report(Some(Diagnostic::ControlWordOutsideGroup))
        } else {
            match word_handler(name) {
                Some(handler) => self.apply(
                    word_effect(handler, name, arg, self.groups.last(), self.destinations),
                ),
                None => self.report(
                    Some(
                        if word_is_optional {
                            Diagnostic::OptionalWordSkipped
                        } else {
                            Diagnostic::UnsupportedWord
                        },
                    ),
                ),
            }
        }
    }

    /// The state after one more token. A control symbol or control word
    /// first uses up the innermost group's permission to skip. Binary data
    /// and line breaks do nothing.
    pub open spec fn step(self, token: TokenView) -> DocumentView {
        match token {
            TokenView::ControlSymbol(symbol) => self.clear_optional().control_symbol(
                symbol,
                self.optional(),
            ),
            TokenView::ControlWord { name, arg } => self.clear_optional().control_word(
                name,
                arg,
                self.optional(),
            ),
            TokenView::ControlBin(_) => self,
            TokenView::Text(bytes) => self.text(bytes),
            TokenView::StartGroup => self.start_group(),
            TokenView::EndGroup => self.end_group(),
            TokenView::Newline => self,
        }
    }

    /// The state after a sequence of tokens, taken in order.
    pub open spec fn run(self, tokens: Seq<TokenView>) -> DocumentView
        decreases tokens.len(),
    {
        if tokens.len() == 0 {
            self
        } else {
            self.run(tokens.drop_last()).step(tokens.last())
        }
    }

    /// The content of the document body as bytes, where the body was ever
    /// selected.
    pub open spec fn body(self) -> Option<Seq<u8>> {
        if self.destinations.contains_key(body_name()) {
            Some(self.destinations[body_name()].bytes())
        } else {
            None
        }
    }

    /// What holds of every state that the interpreter reaches: each group's
    /// destination exists, and each destination holds the kind of content
    /// that the table of destination selectors declares for its name.
    pub open spec fn consistent(self) -> bool {
        &&& forall|i: int|
            0 <= i < self.groups.len() ==> (#[trigger] self.groups[i]).destination_exists(
                self.destinations,
            )
        &&& forall|name: Seq<char>| #[trigger]
            self.destinations.contains_key(name) ==> typed_as_declared(
                name,
                self.destinations[name],
            )
    }
}

/// A handler that the tables give for a name can run in every consistent
/// state: where it selects a destination that exists, the kinds agree.
pub proof fn lemma_handler_can_select(doc: DocumentView, name: Seq<char>)
    requires
        doc.consistent(),
        word_handler(name) is Some,
    ensures
        can_select(word_handler(name)->0, name, doc.destinations),
{
}

/// Using up the permission to skip leaves a consistent state consistent.
pub proof fn lemma_clear_optional_consistent(doc: DocumentView)
    requires
        doc.consistent(),
    ensures
        doc.clear_optional().consistent(),
{
}

/// Reporting a diagnostic leaves a consistent state consistent.
pub proof fn lemma_report_consistent(doc: DocumentView, diagnostic: Option<Diagnostic>)
    requires
        doc.consistent(),
    ensures
        doc.report(diagnostic).consistent(),
{
}

/// A handler's effect on the innermost group of a consistent state leaves a
/// consistent state.
pub proof fn lemma_word_effect_consistent(doc: DocumentView, name: Seq<char>, arg: Option<i32>)
    requires
        doc.consistent(),
        doc.groups.len() > 0,
        word_handler(name) is Some,
    ensures
        doc.apply(
            word_effect(word_handler(name)->0, name, arg, doc.groups.last(), doc.destinations),
        ).consistent(),
{
    lemma_handler_can_select(doc, name);
}

/// The same for a control symbol.
pub proof fn lemma_symbol_effect_consistent(doc: DocumentView, symbol: char)
    requires
        doc.consistent(),
        doc.groups.len() > 0,
        symbol_handler(symbol) is Some,
    ensures
        doc.apply(
            symbol_effect(symbol_handler(symbol)->0, symbol, doc.groups.last(), doc.destinations),
        ).consistent(),
{
}

/// Writing a run of text in a consistent state leaves a consistent state.
pub proof fn lemma_text_consistent(doc: DocumentView, bytes: Seq<u8>)
    requires
        doc.consistent(),
    ensures
        doc.text(bytes).consistent(),
{
}

/// Opening a group in a consistent state leaves a consistent state.
pub proof fn lemma_start_group_consistent(doc: DocumentView)
    requires
        doc.consistent(),
    ensures
        doc.start_group().consistent(),
{
}

/// Closing a group in a consistent state leaves a consistent state.
pub proof fn lemma_end_group_consistent(doc: DocumentView)
    requires
        doc.consistent(),
    ensures
        doc.end_group().consistent(),
{
}

/// Every token takes a consistent state to a consistent state.
pub proof fn lemma_step_consistent(doc: DocumentView, token: TokenView)
    requires
        doc.consistent(),
    ensures
        doc.step(token).consistent(),
{
}

/// Every state that the interpreter reaches from a consistent state, and so
/// from the initial state, is consistent.
pub proof fn lemma_run_consistent(doc: DocumentView, tokens: Seq<TokenView>)
    requires
        doc.consistent(),
    ensures
        doc.run(tokens).consistent(),
    decreases tokens.len(),
{
    if tokens.len() > 0 {
        lemma_run_consistent(doc, tokens.drop_last());
        lemma_step_consistent(doc.run(tokens.drop_last()), tokens.last());
    }
}

} // verus!
