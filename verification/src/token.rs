//! A flat token model for the source text that the attribute reads and
//! writes.
//!
//! Delimiters appear as explicit open/close tokens, so nesting depth is a
//! property of a token sequence rather than of a tree.  Every contract in
//! this crate speaks about `Seq<TokenView>`, the mathematical value of a
//! token sequence, in which identifier and literal text is a `Seq<char>`.

use vstd::prelude::*;

verus! {

/// The kind of bracket a delimiter token opens or closes.
#[derive(Clone, Copy, Debug, PartialEq, Eq, Structural)]
pub enum Delim {
    /// `(` ... `)`
    Paren,
    /// `[` ... `]`
    Bracket,
    /// `{` ... `}`
    Brace,
}

/// One token of source text.
///
/// Identifier tokens also carry keywords (`fn`, `let`, `match`, ...) and the
/// wildcard `_`.  A punctuation token carries a full spelling such as `::`
/// or `=>`.  `Lit` carries a literal verbatim as it was spelt; `LitStr`
/// carries the contents of a string literal, without quotes or escapes.
#[derive(Debug, PartialEq, Eq)]
pub enum Token {
    /// An opening delimiter.
    Open(Delim),
    /// A closing delimiter.
    Close(Delim),
    /// A `,` token.
    Comma,
    /// A `;` token.
    Semi,
    /// An identifier or keyword.
    Ident(String),
    /// Punctuation, spelt out in full.
    Punct(String),
    /// Any literal, spelt verbatim.
    Lit(String),
    /// A string literal, carried as its contents.
    LitStr(String),
}

/// The mathematical value of a token: text becomes a character sequence.
pub enum TokenView {
    /// An opening delimiter.
    Open(Delim),
    /// A closing delimiter.
    Close(Delim),
    /// A `,` token.
    Comma,
    /// A `;` token.
    Semi,
    /// An identifier or keyword.
    Ident(Seq<char>),
    /// Punctuation, spelt out in full.
    Punct(Seq<char>),
    /// Any literal, spelt verbatim.
    Lit(Seq<char>),
    /// A string literal, carried as its contents.
    LitStr(Seq<char>),
}

impl View for Token {
    type V = TokenView;

    open spec fn view(&self) -> TokenView {
        match self {
            Token::Open(d) => TokenView::Open(*d),
            Token::Close(d) => TokenView::Close(*d),
            Token::Comma => TokenView::Comma,
            Token::Semi => TokenView::Semi,
            Token::Ident(s) => TokenView::Ident(s@),
            Token::Punct(s) => TokenView::Punct(s@),
            Token::Lit(s) => TokenView::Lit(s@),
            Token::LitStr(s) => TokenView::LitStr(s@),
        }
    }
}

impl DeepView for Token {
    type V = TokenView;

    open spec fn deep_view(&self) -> TokenView {
        self.view()
    }
}

/// The value of a token sequence.
pub open spec fn deep(s: Seq<Token>) -> Seq<TokenView> {
    Seq::new(s.len(), |i: int| s[i]@)
}

/// The value of a sequence of token sequences.
pub open spec fn deep2(s: Seq<Vec<Token>>) -> Seq<Seq<TokenView>> {
    Seq::new(s.len(), |i: int| deep(s[i]@))
}

impl Clone for Token {
    /// Copies the token.
    fn clone(&self) -> (r: Token)
        ensures
            r == *self,
    {
        match self {
            Token::Open(d) => Token::Open(*d),
            Token::Close(d) => Token::Close(*d),
            Token::Comma => Token::Comma,
            Token::Semi => Token::Semi,
            Token::Ident(s) => Token::Ident(s.clone()),
            Token::Punct(s) => Token::Punct(s.clone()),
            Token::Lit(s) => Token::Lit(s.clone()),
            Token::LitStr(s) => Token::LitStr(s.clone()),
        }
    }
}

/// Copies a token sequence.
pub fn dup_tokens(ts: &Vec<Token>) -> (r: Vec<Token>)
    ensures
        r@ == ts@,
{
    let mut r: Vec<Token> = Vec::new();
    let mut i: usize = 0;
    while i < ts.len()
        invariant
            i <= ts.len(),
            r@ == ts@.take(i as int),
        decreases ts.len() - i,
    {
        r.push(ts[i].clone());
        proof {
            assert(r@ =~= ts@.take(i + 1));
        }
        i += 1;
    }
    proof {
        assert(ts@.take(ts@.len() as int) =~= ts@);
    }
    r
}

/// Appends a copy of `src` to `out`.
pub fn extend_tokens(out: &mut Vec<Token>, src: &Vec<Token>)
    ensures
        final(out)@ == old(out)@ + src@,
{
    let mut i: usize = 0;
    while i < src.len()
        invariant
            i <= src.len(),
            out@ == old(out)@ + src@.take(i as int),
        decreases src.len() - i,
    {
        out.push(src[i].clone());
        proof {
            assert(old(out)@ + src@.take(i + 1) =~= (old(out)@ + src@.take(i as int)).push(src@[i as int]));
        }
        i += 1;
    }
    proof {
        assert(old(out)@ + src@.take(src@.len() as int) =~= old(out)@ + src@);
    }
}

/// Pushes one token.
pub fn push_tok(out: &mut Vec<Token>, t: Token)
    ensures
        deep(final(out)@) == deep(old(out)@).push(t@),
{
    let ghost tv = t@;
    out.push(t);
    proof {
        assert(deep(out@) =~= deep(old(out)@).push(tv));
    }
}

/// Pushes an identifier token spelling `s`.
pub fn push_ident(out: &mut Vec<Token>, s: &str)
    ensures
        deep(final(out)@) == deep(old(out)@).push(TokenView::Ident(s@)),
{
    out.push(Token::Ident(s.to_owned()));
    proof {
        assert(deep(out@) =~= deep(old(out)@).push(TokenView::Ident(s@)));
    }
}

/// Pushes a punctuation token spelling `s`.
pub fn push_punct(out: &mut Vec<Token>, s: &str)
    ensures
        deep(final(out)@) == deep(old(out)@).push(TokenView::Punct(s@)),
{
    out.push(Token::Punct(s.to_owned()));
    proof {
        assert(deep(out@) =~= deep(old(out)@).push(TokenView::Punct(s@)));
    }
}

} // verus!
