//! Content: what is written stays written, and what the body holds in the
//! end.

use vstd::prelude::*;
use vstd::utf8::decode_utf8;
use vstd::utf8::encode_utf8;
use vstd::utf8::encode_utf8_decode_utf8;
use vstd::utf8::encode_utf8_valid_utf8;
use vstd::utf8::valid_utf8;

use crate::destination::Content;
use crate::document::lemma_run_consistent;
use crate::document::DocumentView;
use crate::repr::byte_repr;
use crate::rtf_control::body_name;
use crate::token::TokenView;

verus! {

/// Whether a destination's content still begins with what it held before,
/// and is still of the same kind.
pub open spec fn extends(before: Content, after: Content) -> bool {
    match before {
        Content::Text(text) => after matches Content::Text(more) && text.is_prefix_of(more),
        Content::Bytes(bytes) => after matches Content::Bytes(more) && bytes.is_prefix_of(more),
    }
}

/// Whether every destination of the earlier state is there in the later
/// state, of the same kind, with its content kept and at most added to.
pub open spec fn keeps_destinations(before: DocumentView, after: DocumentView) -> bool {
    forall|name: Seq<char>| #[trigger]
        before.destinations.contains_key(name) ==> after.destinations.contains_key(name)
            && extends(before.destinations[name], after.destinations[name])
}

/// What is written stays: no token removes a destination, changes its kind,
/// or takes back content that it holds.
pub proof fn lemma_step_keeps_destinations(doc: DocumentView, token: TokenView)
    ensures
        keeps_destinations(doc, doc.step(token)),
{
}

/// The same for a whole sequence of tokens.
pub proof fn lemma_run_keeps_destinations(doc: DocumentView, tokens: Seq<TokenView>)
    ensures
        keeps_destinations(doc, doc.run(tokens)),
    decreases tokens.len(),
{
    if tokens.len() > 0 {
        lemma_run_keeps_destinations(doc, tokens.drop_last());
        lemma_step_keeps_destinations(doc.run(tokens.drop_last()), tokens.last());
    }
}

/// No token takes back a diagnostic: what was reported stays reported, in
/// order, and one token adds two diagnostics at most.
pub proof fn lemma_step_keeps_diagnostics(doc: DocumentView, token: TokenView)
    ensures
        doc.diagnostics.is_prefix_of(doc.step(token).diagnostics),
        doc.step(token).diagnostics.len() <= doc.diagnostics.len() + 2,
{
}

/// The same for a whole sequence of tokens.
pub proof fn lemma_run_keeps_diagnostics(doc: DocumentView, tokens: Seq<TokenView>)
    ensures
        doc.diagnostics.is_prefix_of(doc.run(tokens).diagnostics),
        doc.run(tokens).diagnostics.len() <= doc.diagnostics.len() + 2 * tokens.len(),
    decreases tokens.len(),
{
    if tokens.len() > 0 {
        lemma_run_keeps_diagnostics(doc, tokens.drop_last());
        lemma_step_keeps_diagnostics(doc.run(tokens.drop_last()), tokens.last());
    }
}

/// Whether the token is the control word that selects the document body.
pub open spec fn is_body_word(token: TokenView) -> bool {
    token matches TokenView::ControlWord { name, .. } && name == body_name()
}

/// One token makes the document body exactly where it is the body's control
/// word and a group is open; no token unmakes it.
pub proof fn lemma_step_selects_body(doc: DocumentView, token: TokenView)
    ensures
        doc.step(token).body() is Some <==> doc.body() is Some || (doc.depth() > 0
            && is_body_word(token)),
{
    lemma_step_keeps_destinations(doc, token);
}

/// Whether the token at the given place selects the document body: it is the
/// body's control word, and a group is open when it arrives.
pub open spec fn selects_body(tokens: Seq<TokenView>, i: int) -> bool {
    &&& 0 <= i < tokens.len()
    &&& is_body_word(tokens[i])
    &&& DocumentView::initial().run(tokens.take(i)).depth() > 0
}

/// A conversion has a body to write exactly where some token selected it;
/// otherwise there is nothing to write.
pub proof fn lemma_body_exists_iff_selected(tokens: Seq<TokenView>)
    ensures
        DocumentView::initial().run(tokens).body() is Some <==> exists|i: int|
            selects_body(tokens, i),
    decreases tokens.len(),
{
    let start = DocumentView::initial();
    if tokens.len() == 0 {
        assert(!start.destinations.contains_key(body_name()));
    } else {
        let before = tokens.drop_last();
        let last = tokens.len() - 1;
        lemma_body_exists_iff_selected(before);
        lemma_step_selects_body(start.run(before), tokens.last());
        assert(tokens.take(last) =~= before);
        assert forall|i: int| 0 <= i < last implies (selects_body(before, i) <==> selects_body(
            tokens,
            i,
        )) by {
            assert(before.take(i) =~= tokens.take(i));
        }
        if exists|i: int| selects_body(before, i) {
            let i = choose|i: int| selects_body(before, i);
            assert(selects_body(tokens, i));
        }
        if exists|i: int| selects_body(tokens, i) {
            let i = choose|i: int| selects_body(tokens, i);
            if i < last {
                assert(selects_body(before, i));
            }
        }
        if selects_body(tokens, last) {
            assert(start.run(tokens).body() is Some);
        }
    }
}

/// The body that a conversion hands back is plain text in UTF-8: to read it
/// as text and write it out again gives the same bytes, and as a run of text
/// it stands for itself.
pub proof fn lemma_output_is_plain_text(tokens: Seq<TokenView>)
    ensures
        DocumentView::initial().run(tokens).body() matches Some(bytes) ==> {
            &&& valid_utf8(bytes)
            &&& encode_utf8(decode_utf8(bytes)) == bytes
            &&& byte_repr(TokenView::Text(bytes)) == bytes
        },
{
    let end = DocumentView::initial().run(tokens);
    lemma_run_consistent(DocumentView::initial(), tokens);
    if end.destinations.contains_key(body_name()) {
        let text = end.destinations[body_name()]->Text_0;
        encode_utf8_valid_utf8(text);
        encode_utf8_decode_utf8(text);
    }
}

} // verus!
