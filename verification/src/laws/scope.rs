//! Scope: what a group sets ends with the group, and the permission to skip
//! a control lasts for one control.

use vstd::prelude::*;

use crate::document::DocumentView;
use crate::laws::nesting::closes_only_open_groups;
use crate::laws::nesting::lemma_run_nesting;
use crate::laws::nesting::lemma_step_nesting;
use crate::laws::nesting::nesting;
use crate::laws::nesting::well_nested;
use crate::token::TokenView;

verus! {

/// Taking two sequences of tokens one after the other is taking their
/// concatenation.
pub proof fn lemma_run_concat(doc: DocumentView, first: Seq<TokenView>, second: Seq<TokenView>)
    ensures
        doc.run(first + second) == doc.run(first).run(second),
    decreases second.len(),
{
    if second.len() > 0 {
        assert((first + second).drop_last() =~= first + second.drop_last());
        lemma_run_concat(doc, first, second.drop_last());
    }
}

/// One token leaves alone every group but the innermost, unless it closes
/// the innermost.
pub proof fn lemma_step_keeps_outer_groups(doc: DocumentView, token: TokenView)
    requires
        doc.depth() > 0,
    ensures
        doc.step(token).depth() >= doc.depth() - 1,
        doc.step(token).groups.take(doc.depth() - 1) == doc.groups.take(doc.depth() - 1),
{
    lemma_step_nesting(doc, token);
}

/// Tokens that close only groups which they opened leave alone every group
/// but the innermost of those that were open before them.
pub proof fn lemma_run_keeps_outer_groups(doc: DocumentView, tokens: Seq<TokenView>)
    requires
        doc.depth() > 0,
        closes_only_open_groups(tokens, 0),
    ensures
        doc.run(tokens).groups.take(doc.depth() - 1) == doc.groups.take(doc.depth() - 1),
    decreases tokens.len(),
{
    if tokens.len() > 0 {
        let before = tokens.drop_last();
        assert forall|k: int| 0 <= k <= before.len() implies nesting(#[trigger] before.take(k))
            >= 0 by {
            assert(before.take(k) =~= tokens.take(k));
        }
        lemma_run_keeps_outer_groups(doc, before);
        // The tokens so far closed none of the groups that were open, so the
        // last token can reach the innermost of them at most.
        lemma_run_nesting(doc, before);
        lemma_step_keeps_outer_groups(doc.run(before), tokens.last());
    }
}

/// What a group sets ends with the group: after an opening brace, tokens
/// whose braces match, and the closing brace, the open groups are as they
/// were before, whatever the tokens between the braces did.
pub proof fn lemma_group_ends_with_its_context(doc: DocumentView, inner: Seq<TokenView>)
    requires
        well_nested(inner),
    ensures
        doc.run(seq![TokenView::StartGroup] + inner + seq![TokenView::EndGroup]).groups
            == doc.groups,
{
    let open = seq![TokenView::StartGroup];
    let close = seq![TokenView::EndGroup];
    let opened = doc.start_group();
    let inside = opened.run(inner);
    // The whole sequence: open, then what is inside, then close.
    lemma_run_concat(doc, open, inner);
    lemma_run_concat(doc, open + inner, close);
    assert(doc.run(open) == opened) by {
        reveal_with_fuel(DocumentView::run, 2);
    }
    assert(inside.run(close) == inside.end_group()) by {
        reveal_with_fuel(DocumentView::run, 2);
    }
    // What is inside leaves the new group open and the others alone.
    lemma_run_nesting(opened, inner);
    lemma_run_keeps_outer_groups(opened, inner);
}

/// The permission to skip lasts for one control: after a control symbol or
/// control word it is there exactly where that control was the marker
/// itself, with a group open to hold it.
pub proof fn lemma_marker_lasts_one_control(doc: DocumentView, token: TokenView)
    requires
        token is ControlSymbol || token is ControlWord,
    ensures
        doc.step(token).optional() <==> doc.depth() > 0 && token == TokenView::ControlSymbol('*'),
{
}

} // verus!
