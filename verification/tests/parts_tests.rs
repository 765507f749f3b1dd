use proptest_attr::args::split_args;
use proptest_attr::ast::{Diag, Param, Stmt};
use proptest_attr::bind::bind_strategies;
use proptest_attr::synth::{normalize_body, TupleList};
use proptest_attr::token::{Delim, Token};

fn id(s: &str) -> Token {
    Token::Ident(s.to_string())
}

fn p(s: &str) -> Token {
    Token::Punct(s.to_string())
}

fn lit(s: &str) -> Token {
    Token::Lit(s.to_string())
}

fn op() -> Token {
    Token::Open(Delim::Paren)
}

fn cp() -> Token {
    Token::Close(Delim::Paren)
}

#[test]
fn split_empty_input_yields_no_groups() {
    let groups = split_args(&vec![]);
    assert!(groups.is_empty());
}

#[test]
fn split_single_group_has_no_separator() {
    let toks = vec![lit("1"), p(".."), lit("3")];
    let groups = split_args(&toks);
    assert_eq!(groups, vec![toks]);
}

#[test]
fn split_on_top_level_commas_only() {
    // 1..5, frob(a, b), nest[{x, y}, z]
    let toks = vec![
        lit("1"),
        p(".."),
        lit("5"),
        Token::Comma,
        id("frob"),
        op(),
        id("a"),
        Token::Comma,
        id("b"),
        cp(),
        Token::Comma,
        id("nest"),
        Token::Open(Delim::Bracket),
        Token::Open(Delim::Brace),
        id("x"),
        Token::Comma,
        id("y"),
        Token::Close(Delim::Brace),
        Token::Comma,
        id("z"),
        Token::Close(Delim::Bracket),
    ];
    let groups = split_args(&toks);
    assert_eq!(groups.len(), 3);
    assert_eq!(groups[0], vec![lit("1"), p(".."), lit("5")]);
    assert_eq!(groups[1], vec![id("frob"), op(), id("a"), Token::Comma, id("b"), cp()]);
    assert_eq!(
        groups[2],
        vec![
            id("nest"),
            Token::Open(Delim::Bracket),
            Token::Open(Delim::Brace),
            id("x"),
            Token::Comma,
            id("y"),
            Token::Close(Delim::Brace),
            Token::Comma,
            id("z"),
            Token::Close(Delim::Bracket),
        ]
    );
}

#[test]
fn split_trailing_comma_yields_empty_last_group() {
    let toks = vec![id("a"), Token::Comma];
    let groups = split_args(&toks);
    assert_eq!(groups, vec![vec![id("a")], vec![]]);
}

#[test]
fn tuple_list_of_none_renders_nothing() {
    let l = TupleList::new();
    let mut out = vec![id("keep")];
    l.to_tokens(&mut out);
    assert_eq!(out, vec![id("keep")]);
}

#[test]
fn tuple_list_of_one_renders_the_run_alone() {
    let mut l = TupleList::new();
    l.push(vec![id("a")]);
    let mut out = vec![];
    l.to_tokens(&mut out);
    assert_eq!(out, vec![id("a")]);
}

#[test]
fn tuple_list_of_three_renders_right_nested() {
    let mut l = TupleList::new();
    l.push(vec![id("a")]);
    l.push(vec![id("b")]);
    l.push(vec![id("c")]);
    let mut out = vec![];
    l.to_tokens(&mut out);
    // (a, (b, c))
    assert_eq!(
        out,
        vec![op(), id("a"), Token::Comma, op(), id("b"), Token::Comma, id("c"), cp(), cp()]
    );
}

#[test]
fn normalize_terminates_trailing_expression() {
    let mut body = vec![
        Stmt { toks: vec![id("let"), id("z"), p("="), lit("1")], terminated: true },
        Stmt { toks: vec![id("z")], terminated: false },
    ];
    normalize_body(&mut body);
    assert_eq!(body.len(), 3);
    assert_eq!(body[0].toks, vec![id("let"), id("z"), p("="), lit("1")]);
    assert!(body[0].terminated);
    assert_eq!(body[1].toks, vec![id("z")]);
    assert!(body[1].terminated);
    assert_eq!(body[2].toks, vec![id("return"), id("Ok"), op(), op(), cp(), cp()]);
    assert!(body[2].terminated);
}

#[test]
fn normalize_empty_body_only_appends_success() {
    let mut body: Vec<Stmt> = vec![];
    normalize_body(&mut body);
    assert_eq!(body.len(), 1);
    assert_eq!(body[0].toks, vec![id("return"), id("Ok"), op(), op(), cp(), cp()]);
    assert!(body[0].terminated);
}

#[test]
fn bind_defaults_use_declared_types() {
    let params = vec![
        Param { name: "x".to_string(), ty: vec![id("u8")] },
        Param { name: "y".to_string(), ty: vec![id("bool")] },
    ];
    let bs = bind_strategies(params, vec![]).expect("no groups always bind");
    assert_eq!(bs.len(), 2);
    assert_eq!(bs[0].name, "x");
    assert_eq!(
        bs[0].strategy,
        vec![
            p("::"),
            id("proptest"),
            p("::"),
            id("arbitrary"),
            p("::"),
            id("any"),
            p("::"),
            p("<"),
            id("u8"),
            p(">"),
            op(),
            cp(),
        ]
    );
    assert_eq!(bs[1].name, "y");
    assert_eq!(
        bs[1].strategy,
        vec![
            p("::"),
            id("proptest"),
            p("::"),
            id("arbitrary"),
            p("::"),
            id("any"),
            p("::"),
            p("<"),
            id("bool"),
            p(">"),
            op(),
            cp(),
        ]
    );
}

#[test]
fn bind_groups_are_positional_and_verbatim() {
    let params = vec![
        Param { name: "x".to_string(), ty: vec![id("u8")] },
        Param { name: "y".to_string(), ty: vec![id("u8")] },
    ];
    let groups = vec![vec![lit("1"), p(".."), lit("3")], vec![lit("7"), p(".."), lit("9")]];
    let bs = bind_strategies(params, groups).expect("matching counts bind");
    assert_eq!(bs.len(), 2);
    assert_eq!(bs[0].name, "x");
    assert_eq!(bs[0].strategy, vec![lit("1"), p(".."), lit("3")]);
    assert_eq!(bs[1].name, "y");
    assert_eq!(bs[1].strategy, vec![lit("7"), p(".."), lit("9")]);
}

#[test]
fn bind_count_mismatch_reports_both_counts() {
    let params = vec![Param { name: "x".to_string(), ty: vec![id("u8")] }];
    let groups = vec![vec![lit("1")], vec![lit("2")], vec![lit("3")]];
    let d = bind_strategies(params, groups).unwrap_err();
    assert_eq!(d, Diag::StrategyCountMismatch { params: 1, strategies: 3 });
    assert!(d.message().contains("#[proptest]"));
}
