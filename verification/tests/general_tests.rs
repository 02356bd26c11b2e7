use ref_struct::general::{
    keyword, parse_comma, parse_ident, parse_parens, parse_terminated, text_eq, NamedIdents,
    NamedList, Parse, ParseError, RepeatAllow, RepeatAllowStd, UnnamedIdents, UnnamedList,
};
use ref_struct::tokens::{copy_toks, render, Delim, Spacing, Tok};

fn id(s: &str) -> Tok {
    Tok::Ident(s.to_string())
}

fn p(c: char) -> Tok {
    Tok::Punct(c, Spacing::Alone)
}

fn j(c: char) -> Tok {
    Tok::Punct(c, Spacing::Joint)
}

fn paren(v: Vec<Tok>) -> Tok {
    Tok::Group(Delim::Paren, v)
}

#[test]
fn idents_and_keywords() {
    let toks = vec![id("a"), id("struct"), p(',')];
    assert_eq!(parse_ident(&toks, 0).unwrap(), ("a".to_string(), 1));
    assert!(matches!(parse_ident(&toks, 1), Err(ParseError::Keyword(_))));
    assert!(matches!(parse_ident(&toks, 2), Err(ParseError::ExpectedIdent(_))));
    assert!(matches!(parse_ident(&toks, 3), Err(ParseError::ExpectedIdent(_))));
    assert!(keyword(&"Self".to_string()));
    assert!(keyword(&"_".to_string()));
    assert!(!keyword(&"derive".to_string()));
    assert!(text_eq(&"abc".to_string(), "abc"));
    assert!(!text_eq(&"abc".to_string(), "abd"));
}

#[test]
fn commas_and_parens() {
    let toks = vec![p(','), paren(vec![id("x")]), p(';')];
    assert_eq!(parse_comma(&toks, 0).unwrap(), 1);
    assert!(matches!(parse_comma(&toks, 2), Err(ParseError::ExpectedComma)));
    let (inner, next) = parse_parens(&toks, 1).unwrap();
    assert_eq!(inner.len(), 1);
    assert_eq!(next, 2);
    assert!(matches!(parse_parens(&toks, 0), Err(ParseError::ExpectedParens(_))));
}

#[test]
fn terminated_lists() {
    let list: Vec<String> = parse_terminated(&vec![id("a"), p(','), id("b"), p(',')]).unwrap();
    assert_eq!(list, vec!["a".to_string(), "b".to_string()]);
    let empty: Vec<String> = parse_terminated(&vec![]).unwrap();
    assert!(empty.is_empty());
    assert!(matches!(parse_terminated::<String>(&vec![id("a"), p(','), p(',')]), Err(ParseError::ExpectedIdent(_))));
    assert!(matches!(parse_terminated::<String>(&vec![id("a"), id("b")]), Err(ParseError::ExpectedComma)));
}

#[test]
fn unnamed_list_of_idents() {
    let toks = vec![paren(vec![id("A"), p(','), id("b"), p(',')])];
    let (l, next) = UnnamedList::<String>::parse(&toks, 0).unwrap();
    assert_eq!(next, 1);
    assert_eq!(l.list, vec!["A".to_string(), "b".to_string()]);
    assert!(matches!(UnnamedList::<String>::parse(&vec![id("A")], 0), Err(ParseError::ExpectedParens(false))));
}

#[test]
fn named_list_reads_identifiers_until_one_fails() {
    let toks = vec![id("list"), paren(vec![id("x"), p(','), id("y")])];
    assert!(matches!(NamedList::<String>::parse(&toks, 0), Err(ParseError::ExpectedIdent(false))));
    let idents = vec![id("a"), id("b"), id("c")];
    assert!(matches!(NamedList::<String>::parse(&idents, 0), Err(ParseError::ExpectedIdent(true))));
    let kw = vec![id("a"), id("fn")];
    match NamedList::<String>::parse(&kw, 0) {
        Err(ParseError::Keyword(k)) => assert_eq!(k, "fn"),
        other => panic!("{:?}", other.map(|(l, n)| (l.name, n))),
    }
}

#[test]
fn unnamed_and_named_idents() {
    let toks = vec![id("n"), paren(vec![id("x"), p(','), id("y")])];
    let (m, _) = UnnamedIdents::<RepeatAllowStd>::parse(&toks, 1).unwrap();
    assert_eq!(m.map, vec!["x".to_string(), "y".to_string()]);
    let (nm, next) = NamedIdents::<RepeatAllowStd>::parse(&toks, 0).unwrap();
    assert_eq!(next, 2);
    assert_eq!(nm.name, "n");
    assert_eq!(nm.map, vec!["x".to_string(), "y".to_string()]);
    let rep = vec![paren(vec![id("x"), p(','), id("x")])];
    assert!(matches!(UnnamedIdents::<RepeatAllowStd>::parse(&rep, 0), Err(ParseError::Repeated(_, _))));
}

#[test]
fn repeat_policies() {
    assert!(!RepeatAllowStd::repeat_allowed());
    assert_eq!(RepeatAllowStd::repeat_msg(), "ident");
}

#[test]
fn render_and_copy() {
    let toks = vec![id("a"), j(':'), p(':'), id("b"), Tok::Group(Delim::Brace, vec![id("c"), p(',')]), Tok::Lit("\"s\"".to_string())];
    assert_eq!(render(&toks), "a :: b {c ,} \"s\"");
    assert_eq!(render(&copy_toks(&toks)), render(&toks));
    assert_eq!(render(&vec![]), "");
}

#[test]
fn group_without_delimiters_renders_its_trees() {
    let toks = vec![
        Tok::Ident("a".to_string()),
        Tok::Group(Delim::Invisible, vec![Tok::Ident("dyn".to_string()), Tok::Ident("B".to_string())]),
        Tok::Punct('+', Spacing::Alone),
    ];
    assert_eq!(render(&toks), "a dyn B +");
    assert_eq!(render(&copy_toks(&toks)), render(&toks));
}
