//! Braces: how the number of open groups follows the tokens, and when a
//! closing brace is reported as unmatched.

use vstd::prelude::*;
use vstd::utf8::encode_utf8;

use crate::diagnostic::Diagnostic;
use crate::document::DocumentView;
use crate::rtf_control::symbol_effect;
use crate::rtf_control::symbol_handler;
use crate::rtf_control::word_effect;
use crate::rtf_control::word_handler;
use crate::token::TokenView;

verus! {

/// By how much a token changes the number of open groups, where the group it
/// closes is open.
pub open spec fn depth_change(token: TokenView) -> int {
    match token {
        TokenView::StartGroup => 1,
        TokenView::EndGroup => -1,
        _ => 0,
    }
}

/// The number of groups that a sequence of tokens opens and does not close.
/// It is negative where the sequence closes more groups than it opens.
pub open spec fn nesting(tokens: Seq<TokenView>) -> int
    decreases tokens.len(),
{
    if tokens.len() == 0 {
        0
    } else {
        nesting(tokens.drop_last()) + depth_change(tokens.last())
    }
}

/// No token of the sequence closes a group that is not open, counting
/// `depth` groups as open at the start.
pub open spec fn closes_only_open_groups(tokens: Seq<TokenView>, depth: nat) -> bool {
    forall|k: int| 0 <= k <= tokens.len() ==> depth + nesting(#[trigger] tokens.take(k)) >= 0
}

/// The braces of the sequence match: none closes a group that is not open,
/// and none is left open at the end.
pub open spec fn well_nested(tokens: Seq<TokenView>) -> bool {
    closes_only_open_groups(tokens, 0) && nesting(tokens) == 0
}

/// How often a diagnostic occurs among those reported.
pub open spec fn occurrences(diagnostics: Seq<Diagnostic>, which: Diagnostic) -> nat
    decreases diagnostics.len(),
{
    if diagnostics.len() == 0 {
        0
    } else {
        occurrences(diagnostics.drop_last(), which) + if diagnostics.last() == which {
            1nat
        } else {
            0nat
        }
    }
}

/// How often a closing brace without its opening brace was reported.
pub open spec fn unmatched_reports(doc: DocumentView) -> nat {
    occurrences(doc.diagnostics, Diagnostic::UnmatchedEndGroup)
}

/// Whether the token is a closing brace that arrives while no group is open.
pub open spec fn closes_nothing(doc: DocumentView, token: TokenView) -> bool {
    token is EndGroup && doc.depth() == 0
}

/// How many closing braces of the sequence arrive while no group is open.
pub open spec fn unmatched_closings(doc: DocumentView, tokens: Seq<TokenView>) -> nat
    decreases tokens.len(),
{
    if tokens.len() == 0 {
        0
    } else {
        unmatched_closings(doc, tokens.drop_last()) + if closes_nothing(
            doc.run(tokens.drop_last()),
            tokens.last(),
        ) {
            1nat
        } else {
            0nat
        }
    }
}

/// A diagnostic that occurs no times is not among those reported, and the
/// other way round.
pub proof fn lemma_occurs_never(diagnostics: Seq<Diagnostic>, which: Diagnostic)
    ensures
        occurrences(diagnostics, which) == 0 <==> !diagnostics.contains(which),
    decreases diagnostics.len(),
{
    if diagnostics.len() > 0 {
        let before = diagnostics.drop_last();
        lemma_occurs_never(before, which);
        if diagnostics.contains(which) {
            let i = choose|i: int| 0 <= i < diagnostics.len() && diagnostics[i] == which;
            if i < before.len() {
                assert(before[i] == which);
            }
        }
    }
}

/// Reporting adds the one diagnostic it is given, and no other.
proof fn lemma_report_occurrences(doc: DocumentView, diagnostic: Option<Diagnostic>)
    ensures
        unmatched_reports(doc.report(diagnostic)) == unmatched_reports(doc) + if diagnostic
            == Some(Diagnostic::UnmatchedEndGroup) {
            1nat
        } else {
            0nat
        },
{
    if let Some(d) = diagnostic {
        assert(doc.diagnostics.push(d).drop_last() =~= doc.diagnostics);
    }
}

/// A run of text opens and closes nothing, and reports no unmatched brace.
proof fn lemma_text_nesting(doc: DocumentView, bytes: Seq<u8>)
    ensures
        doc.text(bytes).depth() == doc.depth(),
        unmatched_reports(doc.text(bytes)) == unmatched_reports(doc),
{
    if doc.groups.len() > 0 {
        let wrote = DocumentView {
            destinations: doc.groups.last().write(doc.destinations, bytes),
            ..doc
        };
        lemma_report_occurrences(wrote, doc.groups.last().write_diagnostic(doc.destinations));
    } else {
        lemma_report_occurrences(doc, Some(Diagnostic::TextOutsideGroup));
    }
}

/// One token changes the number of open groups by what it opens or closes,
/// and an unmatched closing brace is reported once, and only then, when a
/// closing brace arrives while no group is open.
pub proof fn lemma_step_nesting(doc: DocumentView, token: TokenView)
    ensures
        closes_nothing(doc, token) ==> doc.step(token).depth() == 0,
        !closes_nothing(doc, token) ==> doc.step(token).depth() == doc.depth() + depth_change(
            token,
        ),
        unmatched_reports(doc.step(token)) == unmatched_reports(doc) + if closes_nothing(
            doc,
            token,
        ) {
            1nat
        } else {
            0nat
        },
{
    let cleared = doc.clear_optional();
    match token {
        TokenView::ControlSymbol(symbol) => {
            if cleared.groups.len() == 0 {
                lemma_report_occurrences(cleared, Some(Diagnostic::ControlSymbolOutsideGroup));
            } else {
                match symbol_handler(symbol) {
                    Some(handler) => {
                        let effect = symbol_effect(
                            handler,
                            symbol,
                            cleared.groups.last(),
                            cleared.destinations,
                        );
                        let applied = DocumentView {
                            destinations: effect.destinations,
                            groups: cleared.groups.update(cleared.groups.len() - 1, effect.group),
                            diagnostics: cleared.diagnostics,
                        };
                        lemma_report_occurrences(applied, effect.diagnostic);
                    },
                    None => {
                        if doc.optional() {
                            lemma_report_occurrences(
                                cleared,
                                Some(Diagnostic::OptionalSymbolSkipped),
                            );
                        } else {
                            let reported = cleared.report(Some(Diagnostic::UnsupportedSymbol));
                            lemma_report_occurrences(
                                cleared,
                                Some(Diagnostic::UnsupportedSymbol),
                            );
                            lemma_text_nesting(reported, encode_utf8(seq![symbol]));
                        }
                    },
                }
            }
        },
        TokenView::ControlWord { name, arg } => {
            if cleared.groups.len() == 0 {
                lemma_report_occurrences(cleared, Some(Diagnostic::ControlWordOutsideGroup));
            } else {
                match word_handler(name) {
                    Some(handler) => {
                        let effect = word_effect(
                            handler,
                            name,
                            arg,
                            cleared.groups.last(),
                            cleared.destinations,
                        );
                        let applied = DocumentView {
                            destinations: effect.destinations,
                            groups: cleared.groups.update(cleared.groups.len() - 1, effect.group),
                            diagnostics: cleared.diagnostics,
                        };
                        lemma_report_occurrences(applied, effect.diagnostic);
                    },
                    None => {
                        lemma_report_occurrences(cleared, Some(Diagnostic::OptionalWordSkipped));
                        lemma_report_occurrences(cleared, Some(Diagnostic::UnsupportedWord));
                    },
                }
            }
        },
        TokenView::Text(bytes) => {
            lemma_text_nesting(doc, bytes);
        },
        TokenView::EndGroup => {
            if doc.groups.len() == 0 {
                lemma_report_occurrences(doc, Some(Diagnostic::UnmatchedEndGroup));
            }
        },
        _ => {},
    }
}

/// An unmatched closing brace is reported exactly once for every closing
/// brace that arrives while no group is open.
pub proof fn lemma_run_unmatched(doc: DocumentView, tokens: Seq<TokenView>)
    ensures
        unmatched_reports(doc.run(tokens)) == unmatched_reports(doc) + unmatched_closings(
            doc,
            tokens,
        ),
    decreases tokens.len(),
{
    if tokens.len() > 0 {
        lemma_run_unmatched(doc, tokens.drop_last());
        lemma_step_nesting(doc.run(tokens.drop_last()), tokens.last());
    }
}

/// Tokens that close only open groups change the number of open groups by
/// their nesting, and none of their closing braces arrives while no group is
/// open.
pub proof fn lemma_run_nesting(doc: DocumentView, tokens: Seq<TokenView>)
    requires
        closes_only_open_groups(tokens, doc.depth()),
    ensures
        doc.run(tokens).depth() == doc.depth() + nesting(tokens),
        unmatched_closings(doc, tokens) == 0,
    decreases tokens.len(),
{
    if tokens.len() > 0 {
        let before = tokens.drop_last();
        assert forall|k: int| 0 <= k <= before.len() implies doc.depth() + nesting(
            #[trigger] before.take(k),
        ) >= 0 by {
            assert(before.take(k) =~= tokens.take(k));
        }
        lemma_run_nesting(doc, before);
        assert(tokens.take(tokens.len() as int) =~= tokens);
        lemma_step_nesting(doc.run(before), tokens.last());
    }
}

/// After a document whose braces match, no group is open, and no unmatched
/// closing brace was reported.
pub proof fn lemma_well_nested_ends_closed(tokens: Seq<TokenView>)
    requires
        well_nested(tokens),
    ensures
        DocumentView::initial().run(tokens).depth() == 0,
        !DocumentView::initial().run(tokens).diagnostics.contains(Diagnostic::UnmatchedEndGroup),
{
    let start = DocumentView::initial();
    lemma_run_nesting(start, tokens);
    lemma_run_unmatched(start, tokens);
    lemma_occurs_never(start.run(tokens).diagnostics, Diagnostic::UnmatchedEndGroup);
}

} // verus!
