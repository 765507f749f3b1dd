//! The whole expansion: one total mapping from the decorated item and the
//! attribute's argument tokens to the rewritten function's tokens or to a
//! compile-time diagnostic.
//!
//! The phases run in order — split the arguments, check the item is a
//! function, bind the strategies, synthesize and render — and the contract
//! below pins the outcome of each: a non-function is always rejected with
//! the one fixed message, a strategy count that is neither zero nor the
//! parameter count is always rejected and never truncated, and everything
//! else expands to exactly the rendering that `expansion_view` states.

use vstd::prelude::*;

use crate::args::split_args;
use crate::args::split_groups;
use crate::ast::Diag;
use crate::ast::FnItem;
use crate::ast::Item;
use crate::ast::ParamView;
use crate::bind::bind_strategies;
use crate::bind::bindings_view;
use crate::bind::bound_views;
use crate::bind::default_strategy_view;
use crate::bind::BindingView;
use crate::synth::expansion_view;
use crate::synth::run_arms_view;
use crate::synth::run_view;
use crate::synth::strategy_elems;
use crate::synth::synthesize;
use crate::synth::zero_run_head_view;
use crate::token::deep;
use crate::token::Token;
use crate::token::TokenView;

verus! {

/// Whether a supplied strategy count fits a parameter count: none at all,
/// or exactly one per parameter.
pub open spec fn strategy_count_ok(params: nat, strategies: nat) -> bool {
    strategies == 0 || strategies == params
}

/// Rewrites the decorated item.
///
/// A function expands to the rewritten test function whenever the attribute
/// supplied no strategies or exactly one per parameter; a wrong count gives
/// the count diagnostic, and anything that is not a function gives the
/// only-functions diagnostic.  No other outcome exists.
pub fn expand(item: Item, args: Vec<Token>) -> (r: Result<Vec<Token>, Diag>)
    ensures
        match item {
            Item::Other => r == Err::<Vec<Token>, Diag>(Diag::NotAFunction),
            Item::Func(f) => {
                let gs = split_groups(deep(args@));
                if strategy_count_ok(f@.params.len(), gs.len()) {
                    &&& r is Ok
                    &&& deep(r->Ok_0@) == expansion_view(f@, bound_views(f@.params, gs))
                } else {
                    r == Err::<Vec<Token>, Diag>(
                        Diag::StrategyCountMismatch {
                            params: f@.params.len() as usize,
                            strategies: gs.len() as usize,
                        },
                    )
                }
            },
        },
{
    match item {
        Item::Other => Err(Diag::NotAFunction),
        Item::Func(f) => {
            let ghost fv = f@;
            let groups = split_args(&args);
            let ghost gs = split_groups(deep(args@));
            let FnItem { attrs, vis, name, generics, params, ret, body } = f;
            match bind_strategies(params, groups) {
                Ok(bindings) => {
                    let ghost bvs = bindings_view(bindings@);
                    let stripped = FnItem {
                        attrs,
                        vis,
                        name,
                        generics,
                        params: Vec::new(),
                        ret,
                        body,
                    };
                    proof {
                        assert(bvs == bound_views(fv.params, gs));
                    }
                    let out = synthesize(stripped, bindings);
                    proof {
                        assert(expansion_view(stripped@, bvs) == expansion_view(fv, bvs));
                    }
                    Ok(out)
                },
                Err(d) => Err(d),
            }
        },
    }
}

/// With no declared parameters and no attribute arguments, expansion is
/// owed: the strategy count fits, nothing is bound, and the synthesized run
/// is the degenerate one — the body, rendered as `body_toks`, against the
/// single-value generator of the unit value, so a trial draws no generated
/// inputs and the engine has nothing to pair or to tag.  With no bindings
/// `expansion_view` also pins the runner to a single case
/// (`runner_init_view(name, true)` emits `config.cases = 1;`), so the body
/// is evaluated exactly once per test execution.
pub proof fn lemma_no_params_no_args(
    params: Seq<ParamView>,
    args: Seq<TokenView>,
    body_toks: Seq<TokenView>,
)
    requires
        params.len() == 0,
        args.len() == 0,
    ensures
        strategy_count_ok(params.len(), split_groups(args).len()),
        bound_views(params, split_groups(args)) == Seq::<BindingView>::empty(),
        run_view(bound_views(params, split_groups(args)), body_toks) == zero_run_head_view()
            + body_toks + run_arms_view(),
{
    assert(bound_views(params, split_groups(args)) =~= Seq::<BindingView>::empty());
}

/// With declared parameters and no attribute arguments, every parameter is
/// bound to the arbitrary-value strategy of its own declared type.
pub proof fn lemma_defaults_bind_every_param(params: Seq<ParamView>, args: Seq<TokenView>)
    requires
        args.len() == 0,
    ensures
        strategy_count_ok(params.len(), split_groups(args).len()),
        bound_views(params, split_groups(args)).len() == params.len(),
        forall|i: int|
            0 <= i < params.len() ==> #[trigger] bound_views(params, split_groups(args))[i]
                == (BindingView {
                name: params[i].name,
                strategy: default_strategy_view(params[i].ty),
            }),
{
}

/// With exactly one strategy group per parameter, binding is positional
/// and verbatim: the i-th group's tokens, unchanged, generate the i-th
/// parameter's values, and no other group reaches that parameter.
pub proof fn lemma_positional_verbatim(params: Seq<ParamView>, gs: Seq<Seq<TokenView>>)
    requires
        gs.len() == params.len(),
        gs.len() > 0,
    ensures
        bound_views(params, gs).len() == params.len(),
        forall|i: int|
            0 <= i < params.len() ==> (#[trigger] bound_views(params, gs)[i]).strategy == gs[i],
        forall|i: int|
            0 <= i < params.len() ==> (#[trigger] bound_views(params, gs)[i]).name
                == params[i].name,
        strategy_elems(bound_views(params, gs)) == gs,
{
    assert(strategy_elems(bound_views(params, gs)) =~= gs);
}

/// A non-zero strategy count that differs from the parameter count never
/// fits: expansion rejects it outright instead of truncating or wrapping.
pub proof fn lemma_count_mismatch_rejected(params: nat, strategies: nat)
    requires
        strategies != 0,
        strategies != params,
    ensures
        !strategy_count_ok(params, strategies),
{
}

} // verus!
