//! The body synthesizer and emitter: builds the rewritten function.
//!
//! The rewritten function keeps the original's attributes (a test marker
//! prepended), visibility, name, generics and return tokens, loses its
//! parameters, and gets a body that runs the property engine: it combines
//! every bound strategy into one generator of a right-nested tuple, tags it
//! with the parameter names, and runs the original body once per drawn
//! combination, with the tuple destructured back into the parameter names.
//! A function with no parameters gets the degenerate run instead: its body
//! against the single-value generator of the unit value, with the engine
//! pinned to a single case, since there is nothing to draw and the engine
//! pairs and tags values only from one binding up.
//! A bare trailing expression of the original body is first terminated, and
//! an explicit success result appended, so the body fits the engine's
//! closure without changing what it evaluates.

use vstd::prelude::*;

use crate::ast::FnItemView;
use crate::ast::FnItem;
use crate::ast::Stmt;
use crate::ast::StmtView;
use crate::ast::stmts_view;
use crate::bind::Binding;
use crate::bind::BindingView;
use crate::bind::bindings_view;
use crate::token::deep;
use crate::token::deep2;
use crate::token::dup_tokens;
use crate::token::extend_tokens;
use crate::token::push_ident;
use crate::token::push_punct;
use crate::token::push_tok;
use crate::token::Delim;
use crate::token::Token;
use crate::token::TokenView;

verus! {

/// The right-nested tuple rendering of an ordered list of token runs:
/// nothing for none, the run itself for one, `(e0, (e1, ...))` otherwise.
pub open spec fn nested_tuple(elems: Seq<Seq<TokenView>>) -> Seq<TokenView>
    decreases elems.len(),
{
    if elems.len() == 0 {
        Seq::empty()
    } else if elems.len() == 1 {
        elems[0]
    } else {
        seq![TokenView::Open(Delim::Paren)] + elems[0] + seq![TokenView::Comma] + nested_tuple(
            elems.drop_first(),
        ) + seq![TokenView::Close(Delim::Paren)]
    }
}

/// An ordered list of token runs that renders as a right-nested tuple, so
/// an arbitrary number of parameters can ride through the engine's
/// fixed-arity pairing of generated values.
pub struct TupleList {
    /// The token runs, in order.
    pub elems: Vec<Vec<Token>>,
}

impl View for TupleList {
    type V = Seq<Seq<TokenView>>;

    open spec fn view(&self) -> Seq<Seq<TokenView>> {
        deep2(self.elems@)
    }
}

impl TupleList {
    /// An empty list.
    pub fn new() -> (r: TupleList)
        ensures
            r@ == Seq::<Seq<TokenView>>::empty(),
    {
        let r = TupleList { elems: Vec::new() };
        proof {
            assert(r@ =~= Seq::<Seq<TokenView>>::empty());
        }
        r
    }

    /// Appends one token run.
    pub fn push(&mut self, value: Vec<Token>)
        ensures
            final(self)@ == old(self)@.push(deep(value@)),
    {
        let ghost e0 = self.elems@;
        self.elems.push(value);
        proof {
            assert(deep2(self.elems@) =~= deep2(e0).push(deep(value@)));
        }
    }

    /// Appends the right-nested tuple rendering of the list to `tokens`.
    pub fn to_tokens(&self, tokens: &mut Vec<Token>)
        ensures
            deep(final(tokens)@) == deep(old(tokens)@) + nested_tuple(self@),
    {
        let n = self.elems.len();
        if n == 0 {
            proof {
                assert(deep(tokens@) =~= deep(tokens@) + nested_tuple(self@));
            }
            return ;
        }
        let mut result = dup_tokens(&self.elems[n - 1]);
        proof {
            assert(deep(result@) == self@[n - 1]);
            assert(self@.skip(n - 1).len() == 1);
            assert(self@.skip(n - 1)[0] == self@[n - 1]);
            assert(deep(result@) == nested_tuple(self@.skip(n - 1)));
        }
        let mut i: usize = n - 1;
        while i > 0
            invariant
                i < n,
                n == self.elems.len(),
                deep(result@) == nested_tuple(self@.skip(i as int)),
            decreases i,
        {
            i = i - 1;
            result = wrap_pair(&self.elems[i], result);
            proof {
                assert(self@.skip(i as int).drop_first() =~= self@.skip(i as int + 1));
                assert(self@.skip(i as int)[0] == self@[i as int]);
                assert(self@.skip(i as int).len() >= 2);
                assert(deep(result@) == nested_tuple(self@.skip(i as int)));
            }
        }
        let ghost t0 = deep(tokens@);
        extend_tokens(tokens, &result);
        proof {
            assert(self@.skip(0) =~= self@);
            assert(deep(tokens@) =~= t0 + deep(result@));
        }
    }
}

/// Renders the pair `(first, rest)`.
fn wrap_pair(first: &Vec<Token>, rest: Vec<Token>) -> (r: Vec<Token>)
    ensures
        deep(r@) == seq![TokenView::Open(Delim::Paren)] + deep(first@) + seq![TokenView::Comma]
            + deep(rest@) + seq![TokenView::Close(Delim::Paren)],
{
    let ghost restv = deep(rest@);
    let mut rest = rest;
    let mut r: Vec<Token> = Vec::new();
    r.push(Token::Open(Delim::Paren));
    extend_tokens(&mut r, first);
    r.push(Token::Comma);
    r.append(&mut rest);
    r.push(Token::Close(Delim::Paren));
    proof {
        assert(deep(r@) =~= seq![TokenView::Open(Delim::Paren)] + deep(first@) + seq![
            TokenView::Comma,
        ] + restv + seq![TokenView::Close(Delim::Paren)]);
    }
    r
}

/// The statement appended to the original body: `return Ok(());`, spelt
/// without its terminator, which `terminated` adds.
pub open spec fn success_stmt_view() -> StmtView {
    StmtView {
        toks: seq![
            TokenView::Ident("return"@),
            TokenView::Ident("Ok"@),
            TokenView::Open(Delim::Paren),
            TokenView::Open(Delim::Paren),
            TokenView::Close(Delim::Paren),
            TokenView::Close(Delim::Paren),
        ],
        terminated: true,
    }
}

/// The original body made fit for the engine's closure: a bare trailing
/// expression becomes a terminated statement, so it is still evaluated but
/// its value is dropped, and an explicit success result follows it.
pub open spec fn normalized_body(body: Seq<StmtView>) -> Seq<StmtView> {
    let terminated = if body.len() == 0 {
        body
    } else {
        body.update(body.len() - 1, StmtView { toks: body.last().toks, terminated: true })
    };
    terminated.push(success_stmt_view())
}

/// A bare trailing expression survives normalization: its tokens stay, as
/// the now-terminated last original statement, every earlier statement is
/// untouched, and only the appended success statement follows it.
pub proof fn lemma_trailing_expression_kept(body: Seq<StmtView>)
    requires
        body.len() > 0,
        !body.last().terminated,
    ensures
        normalized_body(body).len() == body.len() + 1,
        normalized_body(body)[body.len() - 1].toks == body.last().toks,
        normalized_body(body)[body.len() - 1].terminated,
        normalized_body(body).last() == success_stmt_view(),
        forall|i: int| 0 <= i < body.len() - 1 ==> #[trigger] normalized_body(body)[i] == body[i],
{
}

/// Terminates a bare trailing expression and appends the success result.
pub fn normalize_body(body: &mut Vec<Stmt>)
    ensures
        stmts_view(final(body)@) == normalized_body(stmts_view(old(body)@)),
{
    let ghost b0 = stmts_view(body@);
    if body.len() > 0 {
        match body.pop() {
            Some(last) => {
                let mut last = last;
                last.terminated = true;
                body.push(last);
                proof {
                    assert(stmts_view(body@) =~= b0.update(
                        b0.len() - 1,
                        StmtView { toks: b0.last().toks, terminated: true },
                    ));
                }
            },
            None => {
                proof {
                    assert(false);
                }
            },
        }
    }
    let ghost b1 = stmts_view(body@);
    let mut st: Vec<Token> = Vec::new();
    push_ident(&mut st, "return");
    push_ident(&mut st, "Ok");
    push_tok(&mut st, Token::Open(Delim::Paren));
    push_tok(&mut st, Token::Open(Delim::Paren));
    push_tok(&mut st, Token::Close(Delim::Paren));
    push_tok(&mut st, Token::Close(Delim::Paren));
    proof {
        assert(deep(st@) =~= success_stmt_view().toks);
    }
    body.push(Stmt { toks: st, terminated: true });
    proof {
        assert(stmts_view(body@) =~= b1.push(success_stmt_view()));
        assert(stmts_view(body@) =~= normalized_body(b0));
    }
}

/// The test-marker attribute `#[test]` prepended to the output.
pub open spec fn test_attr_view() -> Seq<TokenView> {
    seq![
        TokenView::Punct("#"@),
        TokenView::Open(Delim::Bracket),
        TokenView::Ident("test"@),
        TokenView::Close(Delim::Bracket),
    ]
}

/// The attribute token runs, one after another.
pub open spec fn flatten_runs(gs: Seq<Seq<TokenView>>) -> Seq<TokenView>
    decreases gs.len(),
{
    if gs.len() == 0 {
        Seq::empty()
    } else {
        gs[0] + flatten_runs(gs.drop_first())
    }
}

/// A path into the engine's crate: `::proptest::<m>::<item>`.
pub open spec fn proptest_path_view(m: Seq<char>, item: Seq<char>) -> Seq<TokenView> {
    seq![
        TokenView::Punct("::"@),
        TokenView::Ident("proptest"@),
        TokenView::Punct("::"@),
        TokenView::Ident(m),
        TokenView::Punct("::"@),
        TokenView::Ident(item),
    ]
}

/// The statement that pins the engine to a single case, emitted for a
/// function with no parameters so its body is evaluated exactly once per
/// test execution: `config.cases = 1;`
pub open spec fn cases_one_view() -> Seq<TokenView> {
    seq![
        TokenView::Ident("config"@),
        TokenView::Punct("."@),
        TokenView::Ident("cases"@),
        TokenView::Punct("="@),
        TokenView::Lit("1"@),
        TokenView::Semi,
    ]
}

/// The statements that make the engine's runner: a default configuration,
/// named after the module path and the rewritten function and pointing at
/// the enclosing source file for its reports, pinned to a single case when
/// `single_case` holds, and the runner built from it:
/// ```text
/// let mut config = ::proptest::test_runner::Config::default();
/// config.test_name = Some(concat!(module_path!(), "::", stringify!(<name>)));
/// config.source_file = Some(file!());
/// config.cases = 1;  // only when single_case
/// let mut runner = ::proptest::test_runner::TestRunner::new(config);
/// ```
pub open spec fn runner_init_view(name: Seq<char>, single_case: bool) -> Seq<TokenView> {
    seq![
        TokenView::Ident("let"@),
        TokenView::Ident("mut"@),
        TokenView::Ident("config"@),
        TokenView::Punct("="@),
    ] + proptest_path_view("test_runner"@, "Config"@) + seq![
        TokenView::Punct("::"@),
        TokenView::Ident("default"@),
        TokenView::Open(Delim::Paren),
        TokenView::Close(Delim::Paren),
        TokenView::Semi,
        TokenView::Ident("config"@),
        TokenView::Punct("."@),
        TokenView::Ident("test_name"@),
        TokenView::Punct("="@),
        TokenView::Ident("Some"@),
        TokenView::Open(Delim::Paren),
        TokenView::Ident("concat"@),
        TokenView::Punct("!"@),
        TokenView::Open(Delim::Paren),
        TokenView::Ident("module_path"@),
        TokenView::Punct("!"@),
        TokenView::Open(Delim::Paren),
        TokenView::Close(Delim::Paren),
        TokenView::Comma,
        TokenView::LitStr("::"@),
        TokenView::Comma,
        TokenView::Ident("stringify"@),
        TokenView::Punct("!"@),
        TokenView::Open(Delim::Paren),
        TokenView::Ident(name),
        TokenView::Close(Delim::Paren),
        TokenView::Close(Delim::Paren),
        TokenView::Close(Delim::Paren),
        TokenView::Semi,
        TokenView::Ident("config"@),
        TokenView::Punct("."@),
        TokenView::Ident("source_file"@),
        TokenView::Punct("="@),
        TokenView::Ident("Some"@),
        TokenView::Open(Delim::Paren),
        TokenView::Ident("file"@),
        TokenView::Punct("!"@),
        TokenView::Open(Delim::Paren),
        TokenView::Close(Delim::Paren),
        TokenView::Close(Delim::Paren),
        TokenView::Semi,
    ] + (if single_case {
        cases_one_view()
    } else {
        Seq::<TokenView>::empty()
    }) + seq![
        TokenView::Ident("let"@),
        TokenView::Ident("mut"@),
        TokenView::Ident("runner"@),
        TokenView::Punct("="@),
    ] + proptest_path_view("test_runner"@, "TestRunner"@) + seq![
        TokenView::Punct("::"@),
        TokenView::Ident("new"@),
        TokenView::Open(Delim::Paren),
        TokenView::Ident("config"@),
        TokenView::Close(Delim::Paren),
        TokenView::Semi,
    ]
}

/// Each parameter's name as a string literal, for the engine's failure
/// reports.
pub open spec fn name_elems(bs: Seq<BindingView>) -> Seq<Seq<TokenView>> {
    Seq::new(bs.len(), |i: int| seq![TokenView::LitStr(bs[i].name)])
}

/// Each parameter's name as the identifier the closure binds.
pub open spec fn formal_elems(bs: Seq<BindingView>) -> Seq<Seq<TokenView>> {
    Seq::new(bs.len(), |i: int| seq![TokenView::Ident(bs[i].name)])
}

/// Each parameter's bound generator expression.
pub open spec fn strategy_elems(bs: Seq<BindingView>) -> Seq<Seq<TokenView>> {
    Seq::new(bs.len(), |i: int| bs[i].strategy)
}

/// The statement that tags the combined generator with the parameter
/// names: `let names = <names tuple>;`
pub open spec fn names_stmt_view(bs: Seq<BindingView>) -> Seq<TokenView> {
    seq![TokenView::Ident("let"@), TokenView::Ident("names"@), TokenView::Punct("="@)]
        + nested_tuple(name_elems(bs)) + seq![TokenView::Semi]
}

/// A statement's rendering: its tokens, a semicolon after them when it is
/// terminated.
pub open spec fn stmt_tokens_view(st: StmtView) -> Seq<TokenView> {
    if st.terminated {
        st.toks + seq![TokenView::Semi]
    } else {
        st.toks
    }
}

/// A body's rendering, statement after statement.
pub open spec fn body_tokens_view(body: Seq<StmtView>) -> Seq<TokenView>
    decreases body.len(),
{
    if body.len() == 0 {
        Seq::empty()
    } else {
        stmt_tokens_view(body[0]) + body_tokens_view(body.drop_first())
    }
}

/// The head of the match over the engine's run, up to the combined
/// generator: `match runner.run(&::proptest::strategy::Strategy::prop_map(`
pub open spec fn run_head_view() -> Seq<TokenView> {
    seq![
        TokenView::Ident("match"@),
        TokenView::Ident("runner"@),
        TokenView::Punct("."@),
        TokenView::Ident("run"@),
        TokenView::Open(Delim::Paren),
        TokenView::Punct("&"@),
    ] + proptest_path_view("strategy"@, "Strategy"@) + seq![
        TokenView::Punct("::"@),
        TokenView::Ident("prop_map"@),
        TokenView::Open(Delim::Paren),
    ]
}

/// Between the combined generator and the formals tuple: the closure that
/// tags drawn values with the parameter names, and the head of the closure
/// that rebinds them,
/// `, |values| ::proptest::sugar::NamedArguments(names, values)), |::proptest::sugar::NamedArguments(_,`
pub open spec fn map_closure_view() -> Seq<TokenView> {
    seq![
        TokenView::Comma,
        TokenView::Punct("|"@),
        TokenView::Ident("values"@),
        TokenView::Punct("|"@),
    ] + proptest_path_view("sugar"@, "NamedArguments"@) + seq![
        TokenView::Open(Delim::Paren),
        TokenView::Ident("names"@),
        TokenView::Comma,
        TokenView::Ident("values"@),
        TokenView::Close(Delim::Paren),
        TokenView::Close(Delim::Paren),
        TokenView::Comma,
        TokenView::Punct("|"@),
    ] + proptest_path_view("sugar"@, "NamedArguments"@) + seq![
        TokenView::Open(Delim::Paren),
        TokenView::Ident("_"@),
        TokenView::Comma,
    ]
}

/// Between the formals tuple and the rendered body: `)| {`
pub open spec fn closure_open_view() -> Seq<TokenView> {
    seq![
        TokenView::Close(Delim::Paren),
        TokenView::Punct("|"@),
        TokenView::Open(Delim::Brace),
    ]
}

/// The tail of the match: the closing of the run call and the two arms,
/// success doing nothing and failure surfacing the engine's report as a
/// fatal test failure,
/// `}) { Ok(_) => (), Err(e) => panic!("{}\n{}", e, runner), }`
pub open spec fn run_arms_view() -> Seq<TokenView> {
    seq![
        TokenView::Close(Delim::Brace),
        TokenView::Close(Delim::Paren),
        TokenView::Open(Delim::Brace),
        TokenView::Ident("Ok"@),
        TokenView::Open(Delim::Paren),
        TokenView::Ident("_"@),
        TokenView::Close(Delim::Paren),
        TokenView::Punct("=>"@),
        TokenView::Open(Delim::Paren),
        TokenView::Close(Delim::Paren),
        TokenView::Comma,
        TokenView::Ident("Err"@),
        TokenView::Open(Delim::Paren),
        TokenView::Ident("e"@),
        TokenView::Close(Delim::Paren),
        TokenView::Punct("=>"@),
        TokenView::Ident("panic"@),
        TokenView::Punct("!"@),
        TokenView::Open(Delim::Paren),
        TokenView::LitStr("{}\n{}"@),
        TokenView::Comma,
        TokenView::Ident("e"@),
        TokenView::Comma,
        TokenView::Ident("runner"@),
        TokenView::Close(Delim::Paren),
        TokenView::Comma,
        TokenView::Close(Delim::Brace),
    ]
}

/// The match over the engine's run: the combined generator is mapped into
/// a named-arguments value, the closure destructures it back into the
/// original parameter names around the rendered normalized body
/// `body_toks`, and a failure report is surfaced as a fatal test failure.
pub open spec fn run_match_view(bs: Seq<BindingView>, body_toks: Seq<TokenView>) -> Seq<
    TokenView,
> {
    run_head_view() + nested_tuple(strategy_elems(bs)) + map_closure_view() + nested_tuple(
        formal_elems(bs),
    ) + closure_open_view() + body_toks + run_arms_view()
}

/// The head of the degenerate run emitted for a function with no
/// parameters: the engine has pairing and name-tagging impls only from one
/// value up, so the combined generator is the single-value generator of the
/// unit value and the closure ignores it,
/// `match runner.run(&::proptest::strategy::Just(()), |_| {`
pub open spec fn zero_run_head_view() -> Seq<TokenView> {
    seq![
        TokenView::Ident("match"@),
        TokenView::Ident("runner"@),
        TokenView::Punct("."@),
        TokenView::Ident("run"@),
        TokenView::Open(Delim::Paren),
        TokenView::Punct("&"@),
    ] + proptest_path_view("strategy"@, "Just"@) + seq![
        TokenView::Open(Delim::Paren),
        TokenView::Open(Delim::Paren),
        TokenView::Close(Delim::Paren),
        TokenView::Close(Delim::Paren),
        TokenView::Comma,
        TokenView::Punct("|"@),
        TokenView::Ident("_"@),
        TokenView::Punct("|"@),
        TokenView::Open(Delim::Brace),
    ]
}

/// The run of the synthesized body: with no bindings, one degenerate run of
/// the body against the single unit value; with bindings, the names tuple
/// and the match over the engine's run of the combined generator.
pub open spec fn run_view(bs: Seq<BindingView>, body_toks: Seq<TokenView>) -> Seq<TokenView> {
    if bs.len() == 0 {
        zero_run_head_view() + body_toks + run_arms_view()
    } else {
        names_stmt_view(bs) + run_match_view(bs, body_toks)
    }
}

/// The whole rewritten function: the test marker, the original attributes,
/// visibility, name, generics, an empty parameter list, the original
/// return tokens, and the synthesized body.
pub open spec fn expansion_view(f: FnItemView, bs: Seq<BindingView>) -> Seq<TokenView> {
    test_attr_view() + flatten_runs(f.attrs) + f.vis + seq![
        TokenView::Ident("fn"@),
        TokenView::Ident(f.name),
    ] + f.generics + seq![TokenView::Open(Delim::Paren), TokenView::Close(Delim::Paren)] + f.ret
        + seq![TokenView::Open(Delim::Brace)] + runner_init_view(f.name, bs.len() == 0) + run_view(
        bs,
        body_tokens_view(normalized_body(f.body)),
    ) + seq![TokenView::Close(Delim::Brace)]
}

/// Appends `::proptest::<m>::<item>`.
fn push_proptest_path(out: &mut Vec<Token>, m: &str, item: &str)
    ensures
        deep(final(out)@) == deep(old(out)@) + proptest_path_view(m@, item@),
{
    push_punct(out, "::");
    push_ident(out, "proptest");
    push_punct(out, "::");
    push_ident(out, m);
    push_punct(out, "::");
    push_ident(out, item);
    proof {
        assert(deep(out@) =~= deep(old(out)@) + proptest_path_view(m@, item@));
    }
}

/// Appends the test marker `#[test]`.
fn emit_test_attr(out: &mut Vec<Token>)
    ensures
        deep(final(out)@) == deep(old(out)@) + test_attr_view(),
{
    push_punct(out, "#");
    push_tok(out, Token::Open(Delim::Bracket));
    push_ident(out, "test");
    push_tok(out, Token::Close(Delim::Bracket));
    proof {
        assert(deep(out@) =~= deep(old(out)@) + test_attr_view());
    }
}

/// Appends the original attributes, one run after another.
fn emit_attr_runs(out: &mut Vec<Token>, attrs: &Vec<Vec<Token>>)
    ensures
        deep(final(out)@) == deep(old(out)@) + flatten_runs(deep2(attrs@)),
{
    let mut i: usize = 0;
    while i < attrs.len()
        invariant
            i <= attrs.len(),
            deep(out@) == deep(old(out)@) + flatten_runs(deep2(attrs@).take(i as int)),
        decreases attrs.len() - i,
    {
        let ghost o0 = deep(out@);
        extend_tokens(out, &attrs[i]);
        proof {
            assert(deep(out@) =~= o0 + deep2(attrs@)[i as int]);
            lemma_flatten_runs_snoc(deep2(attrs@), i as int);
            assert(deep(out@) =~= deep(old(out)@) + flatten_runs(deep2(attrs@).take(i as int + 1)));
        }
        i += 1;
    }
    proof {
        assert(deep2(attrs@).take(attrs@.len() as int) =~= deep2(attrs@));
    }
}

/// Flattening one more run appends that run's tokens.
proof fn lemma_flatten_runs_snoc(gs: Seq<Seq<TokenView>>, i: int)
    requires
        0 <= i < gs.len(),
    ensures
        flatten_runs(gs.take(i + 1)) == flatten_runs(gs.take(i)) + gs[i],
    decreases i,
{
    if i == 0 {
        assert(gs.take(0) =~= Seq::<Seq<TokenView>>::empty());
        assert(gs.take(1).drop_first() =~= Seq::<Seq<TokenView>>::empty());
        assert(gs.take(1)[0] == gs[0]);
        assert(flatten_runs(Seq::<Seq<TokenView>>::empty()) == Seq::<TokenView>::empty());
        assert(flatten_runs(gs.take(1)) =~= flatten_runs(gs.take(0)) + gs[0]);
    } else {
        lemma_flatten_runs_snoc(gs.drop_first(), i - 1);
        assert(gs.take(i + 1).drop_first() =~= gs.drop_first().take(i));
        assert(gs.take(i).drop_first() =~= gs.drop_first().take(i - 1));
        assert(gs.take(i + 1)[0] == gs[0]);
        assert(gs.take(i)[0] == gs[0]);
        assert(gs.drop_first()[i - 1] == gs[i]);
        assert(flatten_runs(gs.take(i + 1)) =~= flatten_runs(gs.take(i)) + gs[i]);
    }
}

/// Appends the runner-construction statements.  `name` is the rewritten
/// function's identifier, spliced into the configuration's test name;
/// `single_case` pins the configuration to one case.
#[verifier::rlimit(100)]
fn emit_runner_init(out: &mut Vec<Token>, name: String, single_case: bool)
    ensures
        deep(final(out)@) == deep(old(out)@) + runner_init_view(name@, single_case),
{
    let ghost namev = name@;
    push_ident(out, "let");
    push_ident(out, "mut");
    push_ident(out, "config");
    push_punct(out, "=");
    push_proptest_path(out, "test_runner", "Config");
    push_punct(out, "::");
    push_ident(out, "default");
    push_tok(out, Token::Open(Delim::Paren));
    push_tok(out, Token::Close(Delim::Paren));
    push_tok(out, Token::Semi);
    push_ident(out, "config");
    push_punct(out, ".");
    push_ident(out, "test_name");
    push_punct(out, "=");
    push_ident(out, "Some");
    push_tok(out, Token::Open(Delim::Paren));
    push_ident(out, "concat");
    push_punct(out, "!");
    push_tok(out, Token::Open(Delim::Paren));
    push_ident(out, "module_path");
    push_punct(out, "!");
    push_tok(out, Token::Open(Delim::Paren));
    push_tok(out, Token::Close(Delim::Paren));
    push_tok(out, Token::Comma);
    push_tok(out, Token::LitStr("::".to_owned()));
    push_tok(out, Token::Comma);
    push_ident(out, "stringify");
    push_punct(out, "!");
    push_tok(out, Token::Open(Delim::Paren));
    push_tok(out, Token::Ident(name));
    push_tok(out, Token::Close(Delim::Paren));
    push_tok(out, Token::Close(Delim::Paren));
    push_tok(out, Token::Close(Delim::Paren));
    push_tok(out, Token::Semi);
    push_ident(out, "config");
    push_punct(out, ".");
    push_ident(out, "source_file");
    push_punct(out, "=");
    push_ident(out, "Some");
    push_tok(out, Token::Open(Delim::Paren));
    push_ident(out, "file");
    push_punct(out, "!");
    push_tok(out, Token::Open(Delim::Paren));
    push_tok(out, Token::Close(Delim::Paren));
    push_tok(out, Token::Close(Delim::Paren));
    push_tok(out, Token::Semi);
    let ghost configured = deep(out@);
    if single_case {
        push_ident(out, "config");
        push_punct(out, ".");
        push_ident(out, "cases");
        push_punct(out, "=");
        push_tok(out, Token::Lit("1".to_owned()));
        push_tok(out, Token::Semi);
    }
    proof {
        assert(deep(out@) =~= configured + (if single_case {
            cases_one_view()
        } else {
            Seq::<TokenView>::empty()
        }));
    }
    push_ident(out, "let");
    push_ident(out, "mut");
    push_ident(out, "runner");
    push_punct(out, "=");
    push_proptest_path(out, "test_runner", "TestRunner");
    push_punct(out, "::");
    push_ident(out, "new");
    push_tok(out, Token::Open(Delim::Paren));
    push_ident(out, "config");
    push_tok(out, Token::Close(Delim::Paren));
    push_tok(out, Token::Semi);
    proof {
        assert(deep(out@) =~= deep(old(out)@) + runner_init_view(namev, single_case));
    }
}

/// The list of parameter-name string literals.
fn names_list(bindings: &Vec<Binding>) -> (r: TupleList)
    ensures
        r@ == name_elems(bindings_view(bindings@)),
{
    let ghost bs = bindings_view(bindings@);
    let mut r = TupleList::new();
    let mut i: usize = 0;
    while i < bindings.len()
        invariant
            i <= bindings.len(),
            bs == bindings_view(bindings@),
            r@ == name_elems(bs).take(i as int),
        decreases bindings.len() - i,
    {
        let mut e: Vec<Token> = Vec::new();
        e.push(Token::LitStr(bindings[i].name.clone()));
        proof {
            assert(deep(e@) =~= seq![TokenView::LitStr(bs[i as int].name)]);
        }
        r.push(e);
        proof {
            assert(r@ =~= name_elems(bs).take(i as int + 1));
        }
        i += 1;
    }
    proof {
        assert(name_elems(bs).take(bindings@.len() as int) =~= name_elems(bs));
    }
    r
}

/// The list of parameter-name identifiers.
fn formals_list(bindings: &Vec<Binding>) -> (r: TupleList)
    ensures
        r@ == formal_elems(bindings_view(bindings@)),
{
    let ghost bs = bindings_view(bindings@);
    let mut r = TupleList::new();
    let mut i: usize = 0;
    while i < bindings.len()
        invariant
            i <= bindings.len(),
            bs == bindings_view(bindings@),
            r@ == formal_elems(bs).take(i as int),
        decreases bindings.len() - i,
    {
        let mut e: Vec<Token> = Vec::new();
        e.push(Token::Ident(bindings[i].name.clone()));
        proof {
            assert(deep(e@) =~= seq![TokenView::Ident(bs[i as int].name)]);
        }
        r.push(e);
        proof {
            assert(r@ =~= formal_elems(bs).take(i as int + 1));
        }
        i += 1;
    }
    proof {
        assert(formal_elems(bs).take(bindings@.len() as int) =~= formal_elems(bs));
    }
    r
}

/// The list of bound generator expressions.
fn strategies_list(bindings: &Vec<Binding>) -> (r: TupleList)
    ensures
        r@ == strategy_elems(bindings_view(bindings@)),
{
    let ghost bs = bindings_view(bindings@);
    let mut r = TupleList::new();
    let mut i: usize = 0;
    while i < bindings.len()
        invariant
            i <= bindings.len(),
            bs == bindings_view(bindings@),
            r@ == strategy_elems(bs).take(i as int),
        decreases bindings.len() - i,
    {
        let e = dup_tokens(&bindings[i].strategy);
        proof {
            assert(deep(e@) == bs[i as int].strategy);
        }
        r.push(e);
        proof {
            assert(r@ =~= strategy_elems(bs).take(i as int + 1));
        }
        i += 1;
    }
    proof {
        assert(strategy_elems(bs).take(bindings@.len() as int) =~= strategy_elems(bs));
    }
    r
}

/// Appends the `let names = ...;` statement.
fn emit_names_stmt(out: &mut Vec<Token>, bindings: &Vec<Binding>)
    ensures
        deep(final(out)@) == deep(old(out)@) + names_stmt_view(bindings_view(bindings@)),
{
    push_ident(out, "let");
    push_ident(out, "names");
    push_punct(out, "=");
    let names = names_list(bindings);
    names.to_tokens(out);
    push_tok(out, Token::Semi);
    proof {
        assert(deep(out@) =~= deep(old(out)@) + names_stmt_view(bindings_view(bindings@)));
    }
}

/// Appends the rendering of a normalized body.
fn emit_body(out: &mut Vec<Token>, body: &Vec<Stmt>)
    ensures
        deep(final(out)@) == deep(old(out)@) + body_tokens_view(stmts_view(body@)),
{
    let ghost bv = stmts_view(body@);
    let mut i: usize = 0;
    while i < body.len()
        invariant
            i <= body.len(),
            bv == stmts_view(body@),
            deep(out@) == deep(old(out)@) + body_tokens_view(bv.take(i as int)),
        decreases body.len() - i,
    {
        let ghost o0 = deep(out@);
        extend_tokens(out, &body[i].toks);
        if body[i].terminated {
            out.push(Token::Semi);
        }
        proof {
            assert(deep(out@) =~= o0 + stmt_tokens_view(bv[i as int]));
            lemma_body_tokens_snoc(bv, i as int);
            assert(deep(out@) =~= deep(old(out)@) + body_tokens_view(bv.take(i as int + 1)));
        }
        i += 1;
    }
    proof {
        assert(bv.take(body@.len() as int) =~= bv);
    }
}

/// Rendering one more statement appends that statement's rendering.
proof fn lemma_body_tokens_snoc(body: Seq<StmtView>, i: int)
    requires
        0 <= i < body.len(),
    ensures
        body_tokens_view(body.take(i + 1)) == body_tokens_view(body.take(i)) + stmt_tokens_view(
            body[i],
        ),
    decreases i,
{
    if i == 0 {
        assert(body.take(0) =~= Seq::<StmtView>::empty());
        assert(body.take(1).drop_first() =~= Seq::<StmtView>::empty());
        assert(body.take(1)[0] == body[0]);
        assert(body_tokens_view(Seq::<StmtView>::empty()) == Seq::<TokenView>::empty());
        assert(body_tokens_view(body.take(1)) =~= body_tokens_view(body.take(0)) + stmt_tokens_view(
            body[0],
        ));
    } else {
        lemma_body_tokens_snoc(body.drop_first(), i - 1);
        assert(body.take(i + 1).drop_first() =~= body.drop_first().take(i));
        assert(body.take(i).drop_first() =~= body.drop_first().take(i - 1));
        assert(body.take(i + 1)[0] == body[0]);
        assert(body.take(i)[0] == body[0]);
        assert(body.drop_first()[i - 1] == body[i]);
        assert(body_tokens_view(body.take(i + 1)) =~= body_tokens_view(body.take(i))
            + stmt_tokens_view(body[i]));
    }
}

/// Appends the head of the match over the engine's run.
fn emit_run_head(out: &mut Vec<Token>)
    ensures
        deep(final(out)@) == deep(old(out)@) + run_head_view(),
{
    push_ident(out, "match");
    push_ident(out, "runner");
    push_punct(out, ".");
    push_ident(out, "run");
    push_tok(out, Token::Open(Delim::Paren));
    push_punct(out, "&");
    push_proptest_path(out, "strategy", "Strategy");
    push_punct(out, "::");
    push_ident(out, "prop_map");
    push_tok(out, Token::Open(Delim::Paren));
    proof {
        assert(deep(out@) =~= deep(old(out)@) + run_head_view());
    }
}

/// Appends the closure that tags drawn values with the parameter names and
/// the head of the closure that rebinds them.
fn emit_map_closure(out: &mut Vec<Token>)
    ensures
        deep(final(out)@) == deep(old(out)@) + map_closure_view(),
{
    push_tok(out, Token::Comma);
    push_punct(out, "|");
    push_ident(out, "values");
    push_punct(out, "|");
    push_proptest_path(out, "sugar", "NamedArguments");
    push_tok(out, Token::Open(Delim::Paren));
    push_ident(out, "names");
    push_tok(out, Token::Comma);
    push_ident(out, "values");
    push_tok(out, Token::Close(Delim::Paren));
    push_tok(out, Token::Close(Delim::Paren));
    push_tok(out, Token::Comma);
    push_punct(out, "|");
    push_proptest_path(out, "sugar", "NamedArguments");
    push_tok(out, Token::Open(Delim::Paren));
    push_ident(out, "_");
    push_tok(out, Token::Comma);
    proof {
        assert(deep(out@) =~= deep(old(out)@) + map_closure_view());
    }
}

/// Appends the tail of the match: the two arms.
fn emit_run_arms(out: &mut Vec<Token>)
    ensures
        deep(final(out)@) == deep(old(out)@) + run_arms_view(),
{
    push_tok(out, Token::Close(Delim::Brace));
    push_tok(out, Token::Close(Delim::Paren));
    push_tok(out, Token::Open(Delim::Brace));
    push_ident(out, "Ok");
    push_tok(out, Token::Open(Delim::Paren));
    push_ident(out, "_");
    push_tok(out, Token::Close(Delim::Paren));
    push_punct(out, "=>");
    push_tok(out, Token::Open(Delim::Paren));
    push_tok(out, Token::Close(Delim::Paren));
    push_tok(out, Token::Comma);
    push_ident(out, "Err");
    push_tok(out, Token::Open(Delim::Paren));
    push_ident(out, "e");
    push_tok(out, Token::Close(Delim::Paren));
    push_punct(out, "=>");
    push_ident(out, "panic");
    push_punct(out, "!");
    push_tok(out, Token::Open(Delim::Paren));
    push_tok(out, Token::LitStr("{}\n{}".to_owned()));
    push_tok(out, Token::Comma);
    push_ident(out, "e");
    push_tok(out, Token::Comma);
    push_ident(out, "runner");
    push_tok(out, Token::Close(Delim::Paren));
    push_tok(out, Token::Comma);
    push_tok(out, Token::Close(Delim::Brace));
    proof {
        assert(deep(out@) =~= deep(old(out)@) + run_arms_view());
    }
}

/// Appends the head of the degenerate run for a function with no
/// parameters.
fn emit_zero_run_head(out: &mut Vec<Token>)
    ensures
        deep(final(out)@) == deep(old(out)@) + zero_run_head_view(),
{
    push_ident(out, "match");
    push_ident(out, "runner");
    push_punct(out, ".");
    push_ident(out, "run");
    push_tok(out, Token::Open(Delim::Paren));
    push_punct(out, "&");
    push_proptest_path(out, "strategy", "Just");
    push_tok(out, Token::Open(Delim::Paren));
    push_tok(out, Token::Open(Delim::Paren));
    push_tok(out, Token::Close(Delim::Paren));
    push_tok(out, Token::Close(Delim::Paren));
    push_tok(out, Token::Comma);
    push_punct(out, "|");
    push_ident(out, "_");
    push_punct(out, "|");
    push_tok(out, Token::Open(Delim::Brace));
    proof {
        assert(deep(out@) =~= deep(old(out)@) + zero_run_head_view());
    }
}

/// Appends the match over the engine's run.  `body` must already be
/// normalized, which `synthesize` does.
fn emit_run_match(out: &mut Vec<Token>, bindings: &Vec<Binding>, body: &Vec<Stmt>)
    ensures
        deep(final(out)@) == deep(old(out)@) + run_match_view(
            bindings_view(bindings@),
            body_tokens_view(stmts_view(body@)),
        ),
{
    emit_run_head(out);
    let strategies = strategies_list(bindings);
    strategies.to_tokens(out);
    emit_map_closure(out);
    let formals = formals_list(bindings);
    formals.to_tokens(out);
    push_tok(out, Token::Close(Delim::Paren));
    push_punct(out, "|");
    push_tok(out, Token::Open(Delim::Brace));
    proof {
        assert(deep(out@) =~= deep(old(out)@) + run_head_view() + nested_tuple(
            strategy_elems(bindings_view(bindings@)),
        ) + map_closure_view() + nested_tuple(formal_elems(bindings_view(bindings@)))
            + closure_open_view());
    }
    emit_body(out, body);
    emit_run_arms(out);
    proof {
        assert(deep(out@) =~= deep(old(out)@) + run_match_view(
            bindings_view(bindings@),
            body_tokens_view(stmts_view(body@)),
        ));
    }
}

/// Builds the rewritten function from the decorated function and its
/// strategy bindings.
pub fn synthesize(f: FnItem, bindings: Vec<Binding>) -> (out: Vec<Token>)
    ensures
        deep(out@) == expansion_view(f@, bindings_view(bindings@)),
{
    let ghost fv = f@;
    let ghost bs = bindings_view(bindings@);
    let mut out: Vec<Token> = Vec::new();
    emit_test_attr(&mut out);
    emit_attr_runs(&mut out, &f.attrs);
    let ghost pre_vis = deep(out@);
    extend_tokens(&mut out, &f.vis);
    proof {
        assert(deep(out@) =~= pre_vis + fv.vis);
    }
    push_ident(&mut out, "fn");
    push_tok(&mut out, Token::Ident(f.name.clone()));
    let ghost pre_gen = deep(out@);
    extend_tokens(&mut out, &f.generics);
    proof {
        assert(deep(out@) =~= pre_gen + fv.generics);
    }
    push_tok(&mut out, Token::Open(Delim::Paren));
    push_tok(&mut out, Token::Close(Delim::Paren));
    let ghost pre_ret = deep(out@);
    extend_tokens(&mut out, &f.ret);
    proof {
        assert(deep(out@) =~= pre_ret + fv.ret);
    }
    push_tok(&mut out, Token::Open(Delim::Brace));
    emit_runner_init(&mut out, f.name, bindings.len() == 0);
    let mut body = f.body;
    normalize_body(&mut body);
    if bindings.len() == 0 {
        emit_zero_run_head(&mut out);
        emit_body(&mut out, &body);
        emit_run_arms(&mut out);
    } else {
        emit_names_stmt(&mut out, &bindings);
        emit_run_match(&mut out, &bindings, &body);
    }
    push_tok(&mut out, Token::Close(Delim::Brace));
    proof {
        assert(body_tokens_view(stmts_view(body@)) == body_tokens_view(normalized_body(fv.body)));
        assert(deep(out@) =~= expansion_view(fv, bs));
    }
    out
}

} // verus!
