//! The model of the decorated item that the transformation reads.
//!
//! A function is carried as the parts the rewrite needs: attribute token
//! runs, visibility tokens, name, generic tokens, the declared parameters,
//! return tokens and the body statements.  Everything else a host parser
//! may know about the function is not read by the transformation and so is
//! not modelled.

use vstd::prelude::*;

use crate::token::deep;
use crate::token::deep2;
use crate::token::Token;
use crate::token::TokenView;

verus! {

/// One declared parameter: its identifier and its declared type, the type
/// as a token run.
#[derive(Debug)]
pub struct Param {
    /// The parameter's identifier.
    pub name: String,
    /// The declared type, as tokens.
    pub ty: Vec<Token>,
}

/// The mathematical value of a parameter.
pub struct ParamView {
    /// The parameter's identifier.
    pub name: Seq<char>,
    /// The declared type, as token values.
    pub ty: Seq<TokenView>,
}

impl View for Param {
    type V = ParamView;

    open spec fn view(&self) -> ParamView {
        ParamView { name: self.name@, ty: deep(self.ty@) }
    }
}

/// The value of a parameter list.
pub open spec fn params_view(s: Seq<Param>) -> Seq<ParamView> {
    Seq::new(s.len(), |i: int| s[i]@)
}

/// One statement of a function body: its tokens, without any trailing
/// semicolon, and whether it is terminated (renders with a semicolon) or a
/// bare trailing expression.
#[derive(Debug)]
pub struct Stmt {
    /// The statement's tokens, without a trailing semicolon.
    pub toks: Vec<Token>,
    /// Whether the statement renders with a trailing semicolon.
    pub terminated: bool,
}

/// The mathematical value of a statement.
pub struct StmtView {
    /// The statement's tokens, without a trailing semicolon.
    pub toks: Seq<TokenView>,
    /// Whether the statement renders with a trailing semicolon.
    pub terminated: bool,
}

impl View for Stmt {
    type V = StmtView;

    open spec fn view(&self) -> StmtView {
        StmtView { toks: deep(self.toks@), terminated: self.terminated }
    }
}

/// The value of a statement list.
pub open spec fn stmts_view(s: Seq<Stmt>) -> Seq<StmtView> {
    Seq::new(s.len(), |i: int| s[i]@)
}

/// A decorated function, reduced to the parts the rewrite reads.
#[derive(Debug)]
pub struct FnItem {
    /// The function's attributes, each one a complete token run.
    pub attrs: Vec<Vec<Token>>,
    /// The visibility tokens, empty for a private function.
    pub vis: Vec<Token>,
    /// The function's identifier.
    pub name: String,
    /// The generic parameter tokens, empty when there are none.
    pub generics: Vec<Token>,
    /// The declared parameters, in declaration order.
    pub params: Vec<Param>,
    /// The return tokens (`->` included), empty when there are none.
    pub ret: Vec<Token>,
    /// The body's statements, in order.
    pub body: Vec<Stmt>,
}

/// The mathematical value of a decorated function.
pub struct FnItemView {
    /// The function's attributes, each one a complete token run.
    pub attrs: Seq<Seq<TokenView>>,
    /// The visibility tokens, empty for a private function.
    pub vis: Seq<TokenView>,
    /// The function's identifier.
    pub name: Seq<char>,
    /// The generic parameter tokens, empty when there are none.
    pub generics: Seq<TokenView>,
    /// The declared parameters, in declaration order.
    pub params: Seq<ParamView>,
    /// The return tokens (`->` included), empty when there are none.
    pub ret: Seq<TokenView>,
    /// The body's statements, in order.
    pub body: Seq<StmtView>,
}

impl View for FnItem {
    type V = FnItemView;

    open spec fn view(&self) -> FnItemView {
        FnItemView {
            attrs: deep2(self.attrs@),
            vis: deep(self.vis@),
            name: self.name@,
            generics: deep(self.generics@),
            params: params_view(self.params@),
            ret: deep(self.ret@),
            body: stmts_view(self.body@),
        }
    }
}

/// The decorated item: a function definition, or anything else.
#[derive(Debug)]
pub enum Item {
    /// A function definition.
    Func(FnItem),
    /// Any other item; the attribute rejects it.
    Other,
}

/// A compile-time diagnostic that replaces the decorated item.
#[derive(Debug, PartialEq, Eq)]
pub enum Diag {
    /// The attribute was put on something that is not a function.
    NotAFunction,
    /// Strategies were supplied, but their count differs from the
    /// parameter count.
    StrategyCountMismatch {
        /// How many parameters the function declares.
        params: usize,
        /// How many strategy expressions the attribute supplied.
        strategies: usize,
    },
}

impl Diag {
    /// The diagnostic's message.
    pub open spec fn message_view(&self) -> Seq<char> {
        match self {
            Diag::NotAFunction => "#[proptest] is only supported on functions"@,
            Diag::StrategyCountMismatch { .. } => "#[proptest] takes either no strategies or exactly one strategy per parameter"@,
        }
    }

    /// Renders the diagnostic's message.
    pub fn message(&self) -> (m: String)
        ensures
            m@ == self.message_view(),
    {
        match self {
            Diag::NotAFunction => "#[proptest] is only supported on functions".to_owned(),
            Diag::StrategyCountMismatch { .. } => "#[proptest] takes either no strategies or exactly one strategy per parameter".to_owned(),
        }
    }
}

} // verus!
