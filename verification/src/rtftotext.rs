//! The interpreter: from a stream of tokens to the text of a document.
//!
//! The interpreter keeps a stack of group states, one for each brace that is
//! open, and one registry of destinations that all of them write to. It takes
//! the tokens one at a time and in order. Nothing is handed back before the
//! last token is done; then the content of the document body is the result.

use vstd::prelude::*;

pub use crate::destination::Destination;
pub use crate::group::GroupState;
pub use crate::token::Token;

use crate::destination::DestinationRegistry;
use crate::diagnostic::Diagnostic;
use crate::document::lemma_clear_optional_consistent;
use crate::document::lemma_end_group_consistent;
use crate::document::lemma_handler_can_select;
use crate::document::lemma_report_consistent;
use crate::document::lemma_start_group_consistent;
use crate::document::lemma_symbol_effect_consistent;
use crate::document::lemma_text_consistent;
use crate::document::lemma_word_effect_consistent;
use crate::document::DocumentView;
use crate::encoding::max_run_len;
use crate::error::Cause;
use crate::error::Error;
use crate::error::ErrorKind;
use crate::rtf_control::lookup_control_symbol;
use crate::rtf_control::lookup_word;
use crate::text::char_to_utf8;
use crate::token::lexed;
use crate::token::parse_tokens;
use crate::token::token_fits;
use crate::token::token_views;
use crate::token::tokens_fit;

verus! {

/// The state of a conversion: the destinations, the stack of open groups,
/// and what was reported so far.
pub struct DocumentState {
    destinations: DestinationRegistry,
    group_stack: Vec<GroupState>,
    diagnostics: Vec<Diagnostic>,
}

impl View for DocumentState {
    type V = DocumentView;

    closed spec fn view(&self) -> DocumentView {
        DocumentView {
            destinations: self.destinations@,
            groups: self.group_stack@.map_values(|group: GroupState| group@),
            diagnostics: self.diagnostics@,
        }
    }
}

impl DocumentState {
    /// The parts are well formed, and the state is consistent.
    pub closed spec fn wf(&self) -> bool {
        &&& self.destinations.wf()
        &&& forall|i: int|
            0 <= i < self.group_stack@.len() ==> (#[trigger] self.group_stack@[i]).wf()
        &&& self@.consistent()
    }

    /// A well-formed state is consistent.
    pub proof fn lemma_wf_consistent(&self)
        requires
            self.wf(),
        ensures
            self@.consistent(),
    {
    }

    /// The state before the first token.
    pub fn new() -> (state: DocumentState)
        ensures
            state.wf(),
            state@ == DocumentView::initial(),
    {
        let state = DocumentState {
            destinations: DestinationRegistry::new(),
            group_stack: Vec::new(),
            diagnostics: Vec::new(),
        };
        state
    }

    /// Adds a diagnostic to what was reported, if there is one.
    fn report(&mut self, diagnostic: Option<Diagnostic>)
        requires
            old(self).wf(),
        ensures
            final(self).wf(),
            final(self)@ == old(self)@.report(diagnostic),
    {
        proof {
            lemma_report_consistent(self@, diagnostic);
        }
        match diagnostic {
            Some(d) => {
                self.diagnostics.push(d);
            },
            None => {},
        }
    }

    /// Reads the innermost group's permission to skip, and uses it up.
    fn take_optional(&mut self) -> (optional: bool)
        requires
            old(self).wf(),
        ensures
            final(self).wf(),
            optional == old(self)@.optional(),
            final(self)@ == old(self)@.clear_optional(),
    {
        let n = self.group_stack.len();
        if n > 0 {
            proof {
                lemma_clear_optional_consistent(self@);
            }
            let optional = self.group_stack[n - 1].get_and_clear_ignore_next_control();
            assert(self@.groups =~= old(self)@.clear_optional().groups);
            optional
        } else {
            false
        }
    }

    /// A run of binary data: it is not reproduced, and nothing happens.
    pub fn do_control_bin(&mut self, _data: &[u8], _word_is_optional: bool)
        ensures
            final(self)@ == old(self)@,
            final(self).wf() == old(self).wf(),
    {
    }

    /// A control symbol, after the permission to skip it was read.
    pub fn do_control_symbol(&mut self, symbol: char, word_is_optional: bool)
        requires
            old(self).wf(),
        ensures
            final(self).wf(),
            final(self)@ == old(self)@.control_symbol(symbol, word_is_optional),
    {
        let n = self.group_stack.len();
        if n == 0 {
            self.report(Some(Diagnostic::ControlSymbolOutsideGroup));
        } else {
            match lookup_control_symbol(symbol) {
                Some(handler) => {
                    proof {
                        lemma_symbol_effect_consistent(self@, symbol);
                    }
                    let diagnostic = handler.handle_symbol(
                        &mut self.group_stack[n - 1],
                        &mut self.destinations,
                        symbol,
                    );
                    assert(self@.groups =~= old(self)@.groups.update(
                        n - 1,
                        self.group_stack@[n - 1]@,
                    ));
                    self.report(diagnostic);
                },
                None => {
                    if word_is_optional {
                        self.report(Some(Diagnostic::OptionalSymbolSkipped));
                    } else {
                        self.report(Some(Diagnostic::UnsupportedSymbol));
                        let bytes = char_to_utf8(symbol);
                        self.write_to_current_destination(bytes.as_slice());
                    }
                },
            }
        }
    }

    /// A control word, after the permission to skip it was read.
    pub fn do_control_word(&mut self, name: &str, arg: Option<i32>, word_is_optional: bool)
        requires
            old(self).wf(),
        ensures
            final(self).wf(),
            final(self)@ == old(self)@.control_word(name@, arg, word_is_optional),
    {
        let n = self.group_stack.len();
        if n == 0 {
            self.report(Some(Diagnostic::ControlWordOutsideGroup));
        } else {
            match lookup_word(name) {
                Some(handler) => {
                    proof {
                        lemma_handler_can_select(self@, name@);
                        lemma_word_effect_consistent(self@, name@, arg);
                    }
                    let diagnostic = handler.handle_word(
                        &mut self.group_stack[n - 1],
                        &mut self.destinations,
                        name,
                        arg,
                    );
                    assert(self@.groups =~= old(self)@.groups.update(
                        n - 1,
                        self.group_stack@[n - 1]@,
                    ));
                    self.report(diagnostic);
                },
                None => {
                    if word_is_optional {
                        self.report(Some(Diagnostic::OptionalWordSkipped));
                    } else {
                        self.report(Some(Diagnostic::UnsupportedWord));
                    }
                },
            }
        }
    }

    /// A run of text: the innermost group writes it to its destination.
    pub fn write_to_current_destination(&mut self, bytes: &[u8])
        requires
            old(self).wf(),
            bytes@.len() <= max_run_len(),
        ensures
            final(self).wf(),
            final(self)@ == old(self)@.text(bytes@),
    {
        proof {
            lemma_text_consistent(self@, bytes@);
        }
        let n = self.group_stack.len();
        if n > 0 {
            let diagnostic = self.group_stack[n - 1].write(&mut self.destinations, bytes);
            assert(self@.groups =~= old(self)@.groups);
            self.report(diagnostic);
        } else {
            // Text outside of the outermost group breaks the format.
            self.report(Some(Diagnostic::TextOutsideGroup));
        }
    }

    /// An opening brace.
    pub fn start_group(&mut self)
        requires
            old(self).wf(),
        ensures
            final(self).wf(),
            final(self)@ == old(self)@.start_group(),
    {
        proof {
            lemma_start_group_consistent(self@);
        }
        let group = match self.get_last_group() {
            Some(last_group) => last_group.clone(),
            None => GroupState::new(),
        };
        self.group_stack.push(group);
        assert(self@.groups =~= old(self)@.start_group().groups);
    }

    /// A closing brace.
    pub fn end_group(&mut self)
        requires
            old(self).wf(),
        ensures
            final(self).wf(),
            final(self)@ == old(self)@.end_group(),
    {
        proof {
            lemma_end_group_consistent(self@);
        }
        match self.group_stack.pop() {
            Some(_group) => {
                assert(self@.groups =~= old(self)@.groups.drop_last());
            },
            None => {
                self.report(Some(Diagnostic::UnmatchedEndGroup));
            },
        }
    }

    /// The innermost open group, if any group is open.
    pub fn get_last_group(&self) -> (group: Option<&GroupState>)
        ensures
            match group {
                Some(last) => self@.depth() > 0 && last@ == self@.groups.last() && (self.wf()
                    ==> last.wf()),
                None => self@.depth() == 0,
            },
    {
        let n = self.group_stack.len();
        if n > 0 {
            Some(&self.group_stack[n - 1])
        } else {
            None
        }
    }

    /// Takes one token.
    pub fn process_token(&mut self, token: &Token)
        requires
            old(self).wf(),
            token_fits(token@),
        ensures
            final(self).wf(),
            final(self)@ == old(self)@.step(token@),
    {
        match token {
            Token::ControlSymbol(c) => {
                let word_is_optional = self.take_optional();
                self.do_control_symbol(*c, word_is_optional)
            },
            Token::ControlWord { name, arg } => {
                let word_is_optional = self.take_optional();
                self.do_control_word(name.as_str(), *arg, word_is_optional)
            },
            Token::ControlBin(data) => self.do_control_bin(data.as_slice(), false),
            Token::Text(bytes) => self.write_to_current_destination(bytes.as_slice()),
            Token::StartGroup => self.start_group(),
            Token::EndGroup => self.end_group(),
            Token::Newline => {},
        }
    }

    /// The number of open groups.
    pub fn depth(&self) -> (depth: usize)
        ensures
            depth == self@.depth(),
    {
        self.group_stack.len()
    }

    /// What was reported so far, in order.
    pub fn diagnostics(&self) -> (diagnostics: &Vec<Diagnostic>)
        ensures
            diagnostics@ == self@.diagnostics,
    {
        &self.diagnostics
    }

    /// The content of the destination of the given name as bytes, where the
    /// destination was ever selected.
    pub fn snapshot(&self, name: &str) -> (content: Option<Vec<u8>>)
        requires
            self.wf(),
        ensures
            match content {
                Some(bytes) => self@.destinations.contains_key(name@) && bytes@
                    == self@.destinations[name@].bytes(),
                None => !self@.destinations.contains_key(name@),
            },
    {
        self.destinations.snapshot(name)
    }

    /// Ends the conversion: the content of the document body, where there is
    /// one, with what was reported and the number of groups left open.
    pub fn finish(self) -> (out: Plaintext)
        requires
            self.wf(),
        ensures
            out.is_result_of(self@),
    {
        let body = self.destinations.snapshot("rtf");
        let open_groups = self.group_stack.len();
        Plaintext { body, diagnostics: self.diagnostics, open_groups }
    }
}

/// What a conversion hands back.
#[derive(Debug)]
pub struct Plaintext {
    /// The content of the document body, to be written out in one piece; or
    /// nothing to write, where the document never selected its body.
    pub body: Option<Vec<u8>>,
    /// What the interpreter reported, in order.
    pub diagnostics: Vec<Diagnostic>,
    /// The number of groups that the document left open.
    pub open_groups: usize,
}

impl Plaintext {
    /// Whether this is what the given final state hands back.
    pub open spec fn is_result_of(self, state: DocumentView) -> bool {
        &&& match self.body {
            Some(bytes) => state.body() == Some(bytes@),
            None => state.body() is None,
        }
        &&& self.diagnostics@ == state.diagnostics
        &&& self.open_groups == state.depth()
    }
}

/// Splits a document into its tokens.
///
/// Succeeds exactly where the tokenizer accepts the document, with the
/// tokens it read. Otherwise the failure is of kind `Parse`, has no message,
/// and carries the tokenizer's error as its cause.
pub fn tokenize(data: &[u8]) -> (result: Result<Vec<Token>, Error>)
    ensures
        match result {
            Ok(tokens) => {
                &&& lexed(data@) == Some(token_views(tokens@))
                &&& data@.len() <= max_run_len() ==> tokens_fit(token_views(tokens@))
            },
            Err(error) => {
                &&& lexed(data@) is None
                &&& error.spec_kind() == ErrorKind::Parse
                &&& error.spec_message() is None
                &&& error.spec_source() matches Some(Cause::Parse(_))
            },
        },
{
    match parse_tokens(data) {
        Ok(tokens) => {
            assert(data@.len() <= max_run_len() ==> tokens_fit(token_views(tokens@))) by {
                assert forall|i: int| 0 <= i < tokens@.len() implies #[trigger] token_views(
                    tokens@,
                )[i] == tokens@[i]@ by {}
            }
            Ok(tokens)
        },
        Err(cause) => Err(Error::from_parse_error(cause)),
    }
}

/// Interprets a token stream from the initial state, and assembles the one
/// write that carries the document body.
///
/// The body is there exactly where the stream selected it, and holds what
/// the tokens, taken in order, wrote to it. Nothing is handed back before
/// the last token is done.
pub fn write_plaintext(token_stream: &[Token]) -> (out: Plaintext)
    requires
        tokens_fit(token_views(token_stream@)),
    ensures
        out.is_result_of(DocumentView::initial().run(token_views(token_stream@))),
{
    let mut state = DocumentState::new();
    let mut i: usize = 0;
    while i < token_stream.len()
        invariant
            i <= token_stream@.len(),
            tokens_fit(token_views(token_stream@)),
            state.wf(),
            state@ == DocumentView::initial().run(token_views(token_stream@.take(i as int))),
        decreases token_stream@.len() - i,
    {
        let token = &token_stream[i];
        proof {
            // One more token done: the tokens so far are those before it,
            // and it is the last of them.
            let done = token_views(token_stream@.take(i as int));
            let next = token_views(token_stream@.take(i + 1));
            assert(token_views(token_stream@)[i as int] == token@);
            assert(next.drop_last() =~= done);
        }
        match token {
            Token::Newline => {},
            _ => {
                state.process_token(token);
            },
        }
        i += 1;
    }
    assert(token_stream@.take(i as int) =~= token_stream@);
    state.finish()
}

/// Converts a document to plain text.
///
/// Fails exactly where the tokenizer rejects the document, with a failure of
/// kind `Parse`. Otherwise the result is that of interpreting the tokens
/// that the tokenizer read.
pub fn convert(data: &[u8]) -> (result: Result<Plaintext, Error>)
    requires
        data@.len() <= max_run_len(),
    ensures
        match result {
            Ok(out) => lexed(data@) matches Some(tokens) && out.is_result_of(
                DocumentView::initial().run(tokens),
            ),
            Err(error) => {
                &&& lexed(data@) is None
                &&& error.spec_kind() == ErrorKind::Parse
                &&& error.spec_message() is None
                &&& error.spec_source() matches Some(Cause::Parse(_))
            },
        },
{
    match tokenize(data) {
        Ok(tokens) => Ok(write_plaintext(tokens.as_slice())),
        Err(error) => Err(error),
    }
}

} // verus!
