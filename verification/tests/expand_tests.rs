use proptest_attr::ast::{Diag, FnItem, Item, Param, Stmt};
use proptest_attr::expand::expand;
use proptest_attr::token::{Delim, Token};

fn id(s: &str) -> Token {
    Token::Ident(s.to_string())
}

fn p(s: &str) -> Token {
    Token::Punct(s.to_string())
}

fn lit(s: &str) -> Token {
    Token::Lit(s.to_string())
}

fn op() -> Token {
    Token::Open(Delim::Paren)
}

fn cp() -> Token {
    Token::Close(Delim::Paren)
}

fn ob() -> Token {
    Token::Open(Delim::Brace)
}

fn cb() -> Token {
    Token::Close(Delim::Brace)
}

fn path(m: &str, item: &str) -> Vec<Token> {
    vec![p("::"), id("proptest"), p("::"), id(m), p("::"), id(item)]
}

fn any_of(ty: &str) -> Vec<Token> {
    let mut v = path("arbitrary", "any");
    let mut out = vec![];
    out.append(&mut v);
    out.extend([p("::"), p("<"), id(ty), p(">"), op(), cp()]);
    out
}

fn simple_fn(name: &str, params: Vec<(&str, &str)>, body: Vec<Stmt>) -> FnItem {
    FnItem {
        attrs: vec![],
        vis: vec![],
        name: name.to_string(),
        generics: vec![],
        params: params
            .into_iter()
            .map(|(n, t)| Param { name: n.to_string(), ty: vec![id(t)] })
            .collect(),
        ret: vec![],
        body,
    }
}

/// Scans for `needle` as a contiguous run inside `haystack`.
fn find_run(haystack: &[Token], needle: &[Token]) -> Option<usize> {
    if needle.is_empty() || haystack.len() < needle.len() {
        return None;
    }
    for start in 0..=(haystack.len() - needle.len()) {
        if &haystack[start..start + needle.len()] == needle {
            return Some(start);
        }
    }
    None
}

fn count_runs(haystack: &[Token], needle: &[Token]) -> usize {
    let mut n = 0;
    let mut at = 0;
    while let Some(i) = find_run(&haystack[at..], needle) {
        n += 1;
        at += i + 1;
    }
    n
}

#[test]
fn zero_params_zero_args_exact_output() {
    let body = vec![Stmt { toks: vec![id("touch"), op(), cp()], terminated: true }];
    let item = Item::Func(simple_fn("unit_case", vec![], body));
    let out = expand(item, vec![]).expect("expansion of a plain function succeeds");

    let mut expected: Vec<Token> = vec![];
    // #[test] fn unit_case() {
    expected.extend([p("#"), Token::Open(Delim::Bracket), id("test"), Token::Close(Delim::Bracket)]);
    expected.extend([id("fn"), id("unit_case"), op(), cp(), ob()]);
    // let mut config = ::proptest::test_runner::Config::default();
    expected.extend([id("let"), id("mut"), id("config"), p("=")]);
    expected.extend(path("test_runner", "Config"));
    expected.extend([p("::"), id("default"), op(), cp(), Token::Semi]);
    // config.test_name = Some(concat!(module_path!(), "::", stringify!(unit_case)));
    expected.extend([id("config"), p("."), id("test_name"), p("="), id("Some"), op()]);
    expected.extend([id("concat"), p("!"), op(), id("module_path"), p("!"), op(), cp(), Token::Comma]);
    expected.extend([Token::LitStr("::".to_string()), Token::Comma, id("stringify"), p("!"), op()]);
    expected.extend([id("unit_case"), cp(), cp(), cp(), Token::Semi]);
    // config.source_file = Some(file!());
    expected.extend([id("config"), p("."), id("source_file"), p("="), id("Some"), op()]);
    expected.extend([id("file"), p("!"), op(), cp(), cp(), Token::Semi]);
    // config.cases = 1;
    expected.extend([id("config"), p("."), id("cases"), p("="), lit("1"), Token::Semi]);
    // let mut runner = ::proptest::test_runner::TestRunner::new(config);
    expected.extend([id("let"), id("mut"), id("runner"), p("=")]);
    expected.extend(path("test_runner", "TestRunner"));
    expected.extend([p("::"), id("new"), op(), id("config"), cp(), Token::Semi]);
    // match runner.run(&::proptest::strategy::Just(()), |_| {
    expected.extend([id("match"), id("runner"), p("."), id("run"), op(), p("&")]);
    expected.extend(path("strategy", "Just"));
    expected.extend([op(), op(), cp(), cp(), Token::Comma, p("|"), id("_"), p("|"), ob()]);
    // touch(); return Ok(());
    expected.extend([id("touch"), op(), cp(), Token::Semi]);
    expected.extend([id("return"), id("Ok"), op(), op(), cp(), cp(), Token::Semi]);
    // }) { Ok(_) => (), Err(e) => panic!("{}\n{}", e, runner), }
    expected.extend([cb(), cp(), ob()]);
    expected.extend([id("Ok"), op(), id("_"), cp(), p("=>"), op(), cp(), Token::Comma]);
    expected.extend([id("Err"), op(), id("e"), cp(), p("=>"), id("panic"), p("!"), op()]);
    expected.extend([Token::LitStr("{}\n{}".to_string()), Token::Comma, id("e"), Token::Comma]);
    expected.extend([id("runner"), cp(), Token::Comma, cb()]);
    expected.extend([cb()]);

    assert_eq!(out, expected);
}

#[test]
fn no_args_binds_every_param_to_its_default() {
    let body = vec![Stmt { toks: vec![id("check"), op(), id("x"), Token::Comma, id("y"), cp()], terminated: true }];
    let item = Item::Func(simple_fn("pair_case", vec![("x", "u32"), ("y", "u64")], body));
    let out = expand(item, vec![]).expect("expansion with default strategies succeeds");

    // One default strategy per parameter, of the parameter's own type.
    assert_eq!(count_runs(&out, &any_of("u32")), 1);
    assert_eq!(count_runs(&out, &any_of("u64")), 1);

    // The strategies ride as the right-nested pair (any::<u32>(), any::<u64>()).
    let mut tuple = vec![op()];
    tuple.extend(any_of("u32"));
    tuple.push(Token::Comma);
    tuple.extend(any_of("u64"));
    tuple.push(cp());
    assert!(find_run(&out, &tuple).is_some());

    // The names tuple and the rebinding tuple are in place.
    let names = vec![
        op(),
        Token::LitStr("x".to_string()),
        Token::Comma,
        Token::LitStr("y".to_string()),
        cp(),
    ];
    assert!(find_run(&out, &names).is_some());
    let formals = vec![id("_"), Token::Comma, op(), id("x"), Token::Comma, id("y"), cp()];
    assert!(find_run(&out, &formals).is_some());
}

#[test]
fn explicit_strategy_binds_verbatim_and_replaces_default() {
    let body = vec![Stmt { toks: vec![id("probe"), op(), id("x"), cp()], terminated: true }];
    let item = Item::Func(simple_fn("range_case", vec![("x", "u8")], body));
    let range = vec![lit("33"), p(".."), lit("100")];
    let out = expand(item, range.clone()).expect("expansion with one strategy per parameter succeeds");

    // The supplied expression appears verbatim where the generator stands.
    let mut in_call = vec![id("prop_map"), op()];
    in_call.extend(range);
    in_call.push(Token::Comma);
    assert!(find_run(&out, &in_call).is_some());

    // The default strategy for x is nowhere: its values come only from the
    // supplied range.
    assert_eq!(count_runs(&out, &any_of("u8")), 0);
}

#[test]
fn explicit_strategies_bind_positionally() {
    let body = vec![Stmt { toks: vec![id("probe"), op(), id("a"), Token::Comma, id("b"), cp()], terminated: true }];
    let item = Item::Func(simple_fn("two_ranges", vec![("a", "u8"), ("b", "u8")], body));
    let args = vec![lit("1"), p(".."), lit("3"), Token::Comma, lit("7"), p(".."), lit("9")];
    let out = expand(item, args).expect("expansion with two strategies for two parameters succeeds");

    // (1..3, 7..9): first group for the first parameter, second for the second.
    let tuple = vec![
        op(),
        lit("1"),
        p(".."),
        lit("3"),
        Token::Comma,
        lit("7"),
        p(".."),
        lit("9"),
        cp(),
    ];
    assert!(find_run(&out, &tuple).is_some());
}

#[test]
fn strategy_count_below_param_count_is_rejected() {
    let body = vec![Stmt { toks: vec![id("probe"), op(), cp()], terminated: true }];
    let item = Item::Func(simple_fn("short_case", vec![("x", "u8"), ("y", "u8")], body));
    let args = vec![lit("1"), p(".."), lit("3")];
    let r = expand(item, args);
    assert_eq!(r.unwrap_err(), Diag::StrategyCountMismatch { params: 2, strategies: 1 });
}

#[test]
fn strategy_count_above_param_count_is_rejected() {
    let body = vec![Stmt { toks: vec![id("probe"), op(), cp()], terminated: true }];
    let item = Item::Func(simple_fn("long_case", vec![("x", "u8")], body));
    let args = vec![lit("1"), Token::Comma, lit("2")];
    let r = expand(item, args);
    assert_eq!(r.unwrap_err(), Diag::StrategyCountMismatch { params: 1, strategies: 2 });
}

#[test]
fn strategies_without_params_are_rejected() {
    let body = vec![Stmt { toks: vec![id("probe"), op(), cp()], terminated: true }];
    let item = Item::Func(simple_fn("no_params", vec![], body));
    let args = vec![lit("1"), p(".."), lit("3")];
    let r = expand(item, args);
    assert_eq!(r.unwrap_err(), Diag::StrategyCountMismatch { params: 0, strategies: 1 });
}

#[test]
fn non_function_is_rejected_with_diagnostic() {
    let r = expand(Item::Other, vec![]);
    let d = r.unwrap_err();
    assert_eq!(d, Diag::NotAFunction);
    assert!(d.message().contains("#[proptest] is only supported on functions"));
}

#[test]
fn trailing_expression_is_kept_and_success_reported() {
    // Body: { x == y || x != y } — a bare trailing expression.
    let cmp = vec![id("x"), p("=="), id("y"), p("||"), id("x"), p("!="), id("y")];
    let body = vec![Stmt { toks: cmp.clone(), terminated: false }];
    let item = Item::Func(simple_fn("middle", vec![("x", "u32"), ("y", "u32")], body));
    let out = expand(item, vec![]).expect("expansion succeeds");

    // The comparison still stands, terminated, and the success result
    // follows it: the expression is evaluated on every trial, not dropped.
    let mut kept = cmp;
    kept.push(Token::Semi);
    kept.extend([id("return"), id("Ok"), op(), op(), cp(), cp(), Token::Semi]);
    assert!(find_run(&out, &kept).is_some());
}

#[test]
fn expansion_output_is_delimiter_balanced() {
    let body = vec![Stmt {
        toks: vec![id("assert"), p("!"), op(), id("x"), p("=="), id("x"), cp()],
        terminated: true,
    }];
    let item = Item::Func(simple_fn("balanced", vec![("x", "i64")], body));
    let out = expand(item, vec![]).expect("expansion succeeds");
    let mut depth: i64 = 0;
    for t in &out {
        match t {
            Token::Open(_) => depth += 1,
            Token::Close(_) => {
                depth -= 1;
                assert!(depth >= 0, "a close token may never outrun its open");
            }
            _ => {}
        }
    }
    assert_eq!(depth, 0, "every bracket of the output is closed");
}

#[test]
fn attributes_visibility_generics_and_return_are_preserved() {
    let attr = vec![p("#"), Token::Open(Delim::Bracket), id("ignore"), Token::Close(Delim::Bracket)];
    let f = FnItem {
        attrs: vec![attr.clone()],
        vis: vec![id("pub")],
        name: "kept".to_string(),
        generics: vec![p("<"), id("T"), p(">")],
        params: vec![],
        ret: vec![p("->"), op(), cp()],
        body: vec![Stmt { toks: vec![id("touch"), op(), cp()], terminated: true }],
    };
    let out = expand(Item::Func(f), vec![]).expect("expansion succeeds");

    // #[test] comes first, the original attribute right after it.
    let mut head = vec![p("#"), Token::Open(Delim::Bracket), id("test"), Token::Close(Delim::Bracket)];
    head.extend(attr);
    head.extend([id("pub"), id("fn"), id("kept"), p("<"), id("T"), p(">"), op(), cp(), p("->"), op(), cp(), ob()]);
    assert_eq!(&out[..head.len()], &head[..]);
}
