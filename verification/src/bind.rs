//! The strategy binder: pairs each declared parameter with the expression
//! that generates its value.
//!
//! With no supplied strategies, every parameter draws an arbitrary value of
//! its declared type.  With supplied strategies their count must equal the
//! parameter count; binding is strictly positional and each group's tokens
//! become the strategy verbatim.  Any other count is rejected, never
//! truncated.

use vstd::prelude::*;

use crate::ast::Diag;
use crate::ast::Param;
use crate::ast::ParamView;
use crate::ast::params_view;
use crate::token::deep;
use crate::token::deep2;
use crate::token::push_ident;
use crate::token::push_punct;
use crate::token::Token;
use crate::token::TokenView;

verus! {

/// One parameter paired with the expression that generates its value.
#[derive(Debug)]
pub struct Binding {
    /// The parameter's identifier.
    pub name: String,
    /// The generator expression, as tokens.
    pub strategy: Vec<Token>,
}

/// The mathematical value of a binding.
pub struct BindingView {
    /// The parameter's identifier.
    pub name: Seq<char>,
    /// The generator expression, as token values.
    pub strategy: Seq<TokenView>,
}

impl View for Binding {
    type V = BindingView;

    open spec fn view(&self) -> BindingView {
        BindingView { name: self.name@, strategy: deep(self.strategy@) }
    }
}

/// The value of a binding list.
pub open spec fn bindings_view(s: Seq<Binding>) -> Seq<BindingView> {
    Seq::new(s.len(), |i: int| s[i]@)
}

/// The default strategy for a parameter of type `ty`: an arbitrary value
/// of that type, `::proptest::arbitrary::any::<ty>()`.
pub open spec fn default_strategy_view(ty: Seq<TokenView>) -> Seq<TokenView> {
    seq![
        TokenView::Punct("::"@),
        TokenView::Ident("proptest"@),
        TokenView::Punct("::"@),
        TokenView::Ident("arbitrary"@),
        TokenView::Punct("::"@),
        TokenView::Ident("any"@),
        TokenView::Punct("::"@),
        TokenView::Punct("<"@),
    ] + ty + seq![
        TokenView::Punct(">"@),
        TokenView::Open(crate::token::Delim::Paren),
        TokenView::Close(crate::token::Delim::Paren),
    ]
}

/// What the binder yields for `params` and the split strategy groups `gs`:
/// with no groups every parameter gets the default strategy of its declared
/// type, otherwise the i-th group, verbatim, binds the i-th parameter.
/// Meaningful when `gs` is empty or of the parameters' length.
pub open spec fn bound_views(params: Seq<ParamView>, gs: Seq<Seq<TokenView>>) -> Seq<BindingView> {
    if gs.len() == 0 {
        Seq::new(
            params.len(),
            |i: int|
                BindingView {
                    name: params[i].name,
                    strategy: default_strategy_view(params[i].ty),
                },
        )
    } else {
        Seq::new(params.len(), |i: int| BindingView { name: params[i].name, strategy: gs[i] })
    }
}

/// Builds the default strategy tokens for one declared type.
pub fn default_strategy(ty: Vec<Token>) -> (r: Vec<Token>)
    ensures
        deep(r@) == default_strategy_view(deep(ty@)),
{
    let ghost tyv = deep(ty@);
    let mut ty = ty;
    let mut r: Vec<Token> = Vec::new();
    push_punct(&mut r, "::");
    push_ident(&mut r, "proptest");
    push_punct(&mut r, "::");
    push_ident(&mut r, "arbitrary");
    push_punct(&mut r, "::");
    push_ident(&mut r, "any");
    push_punct(&mut r, "::");
    push_punct(&mut r, "<");
    let ghost head = deep(r@);
    proof {
        assert(head =~= seq![
            TokenView::Punct("::"@),
            TokenView::Ident("proptest"@),
            TokenView::Punct("::"@),
            TokenView::Ident("arbitrary"@),
            TokenView::Punct("::"@),
            TokenView::Ident("any"@),
            TokenView::Punct("::"@),
            TokenView::Punct("<"@),
        ]);
    }
    r.append(&mut ty);
    proof {
        assert(deep(r@) =~= head + tyv);
    }
    push_punct(&mut r, ">");
    let ghost mid = deep(r@);
    r.push(Token::Open(crate::token::Delim::Paren));
    proof {
        assert(deep(r@) =~= mid.push(TokenView::Open(crate::token::Delim::Paren)));
    }
    let ghost mid2 = deep(r@);
    r.push(Token::Close(crate::token::Delim::Paren));
    proof {
        assert(deep(r@) =~= mid2.push(TokenView::Close(crate::token::Delim::Paren)));
        assert(deep(r@) =~= default_strategy_view(tyv));
    }
    r
}

/// Pairs each parameter with its generator expression: the supplied groups
/// positionally when there are any, the default strategy of each declared
/// type otherwise.  A non-zero group count that differs from the parameter
/// count is rejected.
pub fn bind_strategies(params: Vec<Param>, groups: Vec<Vec<Token>>) -> (r: Result<
    Vec<Binding>,
    Diag,
>)
    ensures
        match r {
            Ok(bs) => (groups@.len() == 0 || groups@.len() == params@.len()) && bindings_view(
                bs@,
            ) == bound_views(params_view(params@), deep2(groups@)),
            Err(d) => groups@.len() != 0 && groups@.len() != params@.len() && d
                == (Diag::StrategyCountMismatch {
                params: params@.len() as usize,
                strategies: groups@.len() as usize,
            }),
        },
{
    let ghost pv = params_view(params@);
    let ghost gv = deep2(groups@);
    let mut params = params;
    let mut groups = groups;
    if groups.len() != 0 && groups.len() != params.len() {
        return Err(
            Diag::StrategyCountMismatch { params: params.len(), strategies: groups.len() },
        );
    }
    let use_groups = groups.len() != 0;
    let n = params.len();
    let mut out: Vec<Binding> = Vec::new();
    let mut i: usize = 0;
    while i < n
        invariant
            i <= n,
            n == pv.len(),
            params_view(params@) =~= pv.skip(i as int),
            use_groups ==> deep2(groups@) =~= gv.skip(i as int) && gv.len() == n,
            !use_groups ==> gv.len() == 0 && groups@.len() == 0,
            bindings_view(out@) =~= bound_views(pv, gv).take(i as int),
        decreases n - i,
    {
        proof {
            assert(params@.len() == params_view(params@).len());
            assert(pv.skip(i as int).len() == pv.len() - i);
            if use_groups {
                assert(groups@.len() == deep2(groups@).len());
                assert(gv.skip(i as int).len() == gv.len() - i);
            }
        }
        let ghost ppre = params@;
        let p = params.remove(0);
        let ghost pview = p@;
        proof {
            assert(pview == params_view(ppre)[0]);
            assert(pview == pv.skip(i as int)[0]);
            assert(pview == pv[i as int]);
            assert(params@ =~= ppre.skip(1));
            assert forall|j: int| 0 <= j < params@.len() implies params_view(params@)[j] == pv.skip(
                i as int + 1,
            )[j] by {
                assert(params@[j] == ppre[j + 1]);
                assert(params_view(ppre)[j + 1] == pv.skip(i as int)[j + 1]);
            }
            assert(params_view(params@) =~= pv.skip(i as int + 1));
        }
        let Param { name: pname, ty: pty } = p;
        let ghost gpre = groups@;
        let strategy: Vec<Token> = if use_groups {
            groups.remove(0)
        } else {
            default_strategy(pty)
        };
        proof {
            if use_groups {
                assert(deep(strategy@) == deep2(gpre)[0]);
                assert(deep(strategy@) == gv[i as int]);
                assert(groups@ =~= gpre.skip(1));
                assert forall|j: int| 0 <= j < groups@.len() implies deep2(groups@)[j] == gv.skip(
                    i as int + 1,
                )[j] by {
                    assert(groups@[j] == gpre[j + 1]);
                    assert(deep2(gpre)[j + 1] == gv.skip(i as int)[j + 1]);
                }
                assert(deep2(groups@) =~= gv.skip(i as int + 1));
            }
        }
        let b = Binding { name: pname, strategy };
        let ghost o0 = out@;
        out.push(b);
        proof {
            assert(b@ == BindingView { name: pview.name, strategy: b@.strategy });
            assert(b@ == bound_views(pv, gv)[i as int]);
            assert(bindings_view(out@) =~= bindings_view(o0).push(b@));
            assert(bindings_view(out@) =~= bound_views(pv, gv).take(i as int + 1));
        }
        i += 1;
    }
    proof {
        assert(bound_views(pv, gv).take(n as int) =~= bound_views(pv, gv));
    }
    Ok(out)
}

} // verus!
