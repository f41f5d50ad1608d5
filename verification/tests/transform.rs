use doc_cfg::token::{Delim, Spacing, Token};
use doc_cfg::{doc_cfg_, DocCfgError};

fn ident(s: &str) -> Token {
    Token::Ident(s.to_string())
}

fn lit(s: &str) -> Token {
    Token::Lit(s.to_string())
}

fn punct(c: char) -> Token {
    Token::Punct(c, Spacing::Alone)
}

fn group(d: Delim, ts: Vec<Token>) -> Token {
    Token::Group(d, ts)
}

/// `# [ inner... ]`
fn directive(inner: Vec<Token>) -> Vec<Token> {
    vec![punct('#'), group(Delim::Bracket, inner)]
}

/// `feature = "unstable-doc-cfg"`
fn feature_unstable() -> Vec<Token> {
    vec![ident("feature"), punct('='), lit("\"unstable-doc-cfg\"")]
}

/// `not ( feature = "unstable-doc-cfg" )`
fn not_feature_unstable() -> Vec<Token> {
    vec![ident("not"), group(Delim::Parenthesis, feature_unstable())]
}

/// `doc ( cfg ( p ) )`
fn doc_cfg_inner(p: Vec<Token>) -> Vec<Token> {
    vec![
        ident("doc"),
        group(
            Delim::Parenthesis,
            vec![ident("cfg"), group(Delim::Parenthesis, p)],
        ),
    ]
}

/// `cfg_attr ( cond , then... )`
fn cfg_attr(cond: Vec<Token>, then: Vec<Token>) -> Vec<Token> {
    let mut args = cond;
    args.push(punct(','));
    args.extend(then);
    vec![ident("cfg_attr"), group(Delim::Parenthesis, args)]
}

/// `cfg ( g )`
fn cfg_plain(g: Vec<Token>) -> Vec<Token> {
    vec![ident("cfg"), group(Delim::Parenthesis, g)]
}

/// `cfg ( any ( g , rustdoc ) )`
fn cfg_any_rustdoc(g: Vec<Token>) -> Vec<Token> {
    let mut args = g;
    args.push(punct(','));
    args.push(ident("rustdoc"));
    vec![
        ident("cfg"),
        group(
            Delim::Parenthesis,
            vec![ident("any"), group(Delim::Parenthesis, args)],
        ),
    ]
}

/// `feature = "something"`
fn feature_something() -> Vec<Token> {
    vec![ident("feature"), punct('='), lit("\"something\"")]
}

/// `feature = "somethingelse"`
fn feature_somethingelse() -> Vec<Token> {
    vec![ident("feature"), punct('='), lit("\"somethingelse\"")]
}

/// `fn test ( ) { }`
fn fn_test() -> Vec<Token> {
    vec![
        ident("fn"),
        ident("test"),
        group(Delim::Parenthesis, vec![]),
        group(Delim::Brace, vec![]),
    ]
}

fn concat(parts: Vec<Vec<Token>>) -> Vec<Token> {
    let mut out = Vec::new();
    for p in parts {
        out.extend(p);
    }
    out
}

fn check(
    original: Vec<Token>,
    expected: Vec<Token>,
    expected_no_cfg_attr: Vec<Token>,
    attr: Vec<Token>,
) {
    let output = doc_cfg_(attr.clone(), original.clone(), true).unwrap();
    assert_eq!(output, expected);

    let output = doc_cfg_(attr, original, false).unwrap();
    assert_eq!(output, expected_no_cfg_attr);
}

#[test]
fn basic() {
    check(
        concat(vec![directive(vec![ident("inline")]), fn_test()]),
        concat(vec![
            directive(cfg_attr(
                feature_unstable(),
                doc_cfg_inner(feature_something()),
            )),
            directive(cfg_attr(
                feature_unstable(),
                cfg_any_rustdoc(feature_something()),
            )),
            directive(cfg_attr(
                not_feature_unstable(),
                cfg_plain(feature_something()),
            )),
            directive(vec![ident("inline")]),
            fn_test(),
        ]),
        concat(vec![
            directive(doc_cfg_inner(feature_something())),
            directive(cfg_any_rustdoc(feature_something())),
            directive(vec![ident("inline")]),
            fn_test(),
        ]),
        feature_something(),
    );
}

#[test]
fn custom_doc_cfg() {
    check(
        concat(vec![
            directive(doc_cfg_inner(feature_somethingelse())),
            fn_test(),
        ]),
        concat(vec![
            directive(cfg_attr(
                feature_unstable(),
                doc_cfg_inner(feature_somethingelse()),
            )),
            directive(cfg_attr(
                feature_unstable(),
                cfg_any_rustdoc(feature_something()),
            )),
            directive(cfg_attr(
                not_feature_unstable(),
                cfg_plain(feature_something()),
            )),
            fn_test(),
        ]),
        concat(vec![
            directive(doc_cfg_inner(feature_somethingelse())),
            directive(cfg_any_rustdoc(feature_something())),
            fn_test(),
        ]),
        feature_something(),
    );
}

/// `all ( feature = "something" , feature = "somethingelse" )`
fn all_of_both() -> Vec<Token> {
    let mut args = feature_something();
    args.push(punct(','));
    args.extend(feature_somethingelse());
    vec![ident("all"), group(Delim::Parenthesis, args)]
}

#[test]
fn multiple() {
    check(
        concat(vec![
            directive(doc_cfg_inner(feature_something())),
            directive(vec![ident("inline")]),
            directive(doc_cfg_inner(feature_somethingelse())),
            fn_test(),
        ]),
        concat(vec![
            directive(cfg_attr(
                feature_unstable(),
                doc_cfg_inner(feature_something()),
            )),
            directive(cfg_attr(
                feature_unstable(),
                doc_cfg_inner(feature_somethingelse()),
            )),
            directive(cfg_attr(feature_unstable(), cfg_any_rustdoc(all_of_both()))),
            directive(cfg_attr(not_feature_unstable(), cfg_plain(all_of_both()))),
            directive(vec![ident("inline")]),
            fn_test(),
        ]),
        concat(vec![
            directive(doc_cfg_inner(feature_something())),
            directive(doc_cfg_inner(feature_somethingelse())),
            directive(cfg_any_rustdoc(all_of_both())),
            directive(vec![ident("inline")]),
            fn_test(),
        ]),
        all_of_both(),
    );
}

#[test]
fn cfg_missing() {
    let r = doc_cfg_(Vec::new(), fn_test(), true);
    assert_eq!(r, Err(DocCfgError::ConditionalMissing));
    let r = doc_cfg_(Vec::new(), fn_test(), false);
    assert_eq!(r, Err(DocCfgError::ConditionalMissing));
    assert_eq!(
        DocCfgError::ConditionalMissing.message(),
        "#[doc_cfg(..)] conditional missing"
    );
}

#[test]
fn always_document_duplication() {
    // Exactly two build-inclusion directives in always-document mode,
    // exactly one otherwise: count the directive sigils beyond the single
    // documentation directive.
    let out = doc_cfg_(feature_something(), fn_test(), true).unwrap();
    let sigils = out
        .iter()
        .filter(|t| matches!(t, Token::Punct('#', _)))
        .count();
    assert_eq!(sigils, 3);

    let out = doc_cfg_(feature_something(), fn_test(), false).unwrap();
    let sigils = out
        .iter()
        .filter(|t| matches!(t, Token::Punct('#', _)))
        .count();
    assert_eq!(sigils, 2);
}
