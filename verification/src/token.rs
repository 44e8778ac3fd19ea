//! The lexical tokens of a document, and the tokenizer that produces them.
//!
//! The tokenizer itself belongs to the `rtf_grimoire` crate. What it reads
//! from a document has a name here, [`lexed`], so that the contracts of a
//! conversion can speak of the tokens of a document.

use rtf_grimoire::tokenizer::Token as RawToken;
use vstd::prelude::*;

use crate::encoding::max_run_len;

verus! {

/// One lexical token of a document.
#[derive(Debug, PartialEq, Eq)]
pub enum Token {
    /// A backslash followed by one character that is no letter.
    ControlSymbol(char),
    /// A backslash, a name made of letters, and an optional number.
    ControlWord { name: String, arg: Option<i32> },
    /// A run of raw binary data.
    ControlBin(Vec<u8>),
    /// A run of text, in whatever encoding the document is in.
    Text(Vec<u8>),
    /// An opening brace.
    StartGroup,
    /// A closing brace.
    EndGroup,
    /// A line break in the source, which carries no meaning.
    Newline,
}

/// What a token holds, as mathematical values.
pub enum TokenView {
    ControlSymbol(char),
    ControlWord { name: Seq<char>, arg: Option<i32> },
    ControlBin(Seq<u8>),
    Text(Seq<u8>),
    StartGroup,
    EndGroup,
    Newline,
}

impl View for Token {
    type V = TokenView;

    open spec fn view(&self) -> TokenView {
        match self {
            Token::ControlSymbol(c) => TokenView::ControlSymbol(*c),
            Token::ControlWord { name, arg } => TokenView::ControlWord { name: name@, arg: *arg },
            Token::ControlBin(data) => TokenView::ControlBin(data@),
            Token::Text(data) => TokenView::Text(data@),
            Token::StartGroup => TokenView::StartGroup,
            Token::EndGroup => TokenView::EndGroup,
            Token::Newline => TokenView::Newline,
        }
    }
}

/// What a sequence of tokens holds.
pub open spec fn token_views(tokens: Seq<Token>) -> Seq<TokenView> {
    tokens.map_values(|t: Token| t@)
}

/// Whether a token's text, if it is a run of text, is short enough to decode
/// in one piece.
pub open spec fn token_fits(token: TokenView) -> bool {
    token matches TokenView::Text(bytes) ==> bytes.len() <= max_run_len()
}

/// Whether every run of text in a sequence is short enough to decode.
pub open spec fn tokens_fit(tokens: Seq<TokenView>) -> bool {
    forall|i: int| 0 <= i < tokens.len() ==> token_fits(#[trigger] tokens[i])
}

impl Token {
    /// Whether the token's text, if it is a run of text, is short enough to
    /// decode in one piece.
    pub fn fits(&self) -> (fits: bool)
        ensures
            fits == token_fits(self@),
    {
        match self {
            Token::Text(bytes) => bytes.len() <= usize::MAX / 8,
            _ => true,
        }
    }
}

/// Whether every run of text in a token stream is short enough to decode.
pub fn token_stream_fits(token_stream: &[Token]) -> (fits: bool)
    ensures
        fits == tokens_fit(token_views(token_stream@)),
{
    let mut i: usize = 0;
    while i < token_stream.len()
        invariant
            i <= token_stream@.len(),
            forall|k: int| 0 <= k < i ==> token_fits(#[trigger] token_views(token_stream@)[k]),
        decreases token_stream@.len() - i,
    {
        if !token_stream[i].fits() {
            assert(!token_fits(token_views(token_stream@)[i as int]));
            return false;
        }
        i += 1;
    }
    true
}

/// The token sequence that `rtf_grimoire::tokenizer::parse` reads from a
/// document, or `None` where it rejects the document.
pub uninterp spec fn lexed(bytes: Seq<u8>) -> Option<Seq<TokenView>>;

/// Runs `rtf_grimoire::tokenizer::parse` on a whole document and hands its
/// tokens over one for one. The result depends on the bytes alone. A run of
/// text is a piece of the input, so it is never longer than the input.
#[verifier::external_body]
pub(crate) fn parse_tokens(data: &[u8]) -> (parsed: Result<Vec<Token>, rtf_grimoire::tokenizer::ParseError>)
    ensures
        match parsed {
            Ok(tokens) => {
                &&& lexed(data@) == Some(token_views(tokens@))
                &&& forall|i: int|
                    0 <= i < tokens@.len() ==> (#[trigger] tokens@[i]@ matches TokenView::Text(run)
                        ==> run.len() <= data@.len())
            },
            Err(_) => lexed(data@) is None,
        },
{
    let raw = rtf_grimoire::tokenizer::parse(data)?;
    Ok(raw.into_iter().map(|token| match token {
        RawToken::ControlSymbol(c) => Token::ControlSymbol(c),
        RawToken::ControlWord { name, arg } => Token::ControlWord { name, arg },
        RawToken::ControlBin(data) => Token::ControlBin(data),
        RawToken::Text(data) => Token::Text(data),
        RawToken::StartGroup => Token::StartGroup,
        RawToken::EndGroup => Token::EndGroup,
        RawToken::Newline => Token::Newline,
    }).collect())
}

} // verus!
