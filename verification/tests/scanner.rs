use doc_cfg::scan::parse_item;
use doc_cfg::token::{Delim, Spacing, Token};

fn ident(s: &str) -> Token {
    Token::Ident(s.to_string())
}

fn lit(s: &str) -> Token {
    Token::Lit(s.to_string())
}

fn punct(c: char) -> Token {
    Token::Punct(c, Spacing::Alone)
}

fn group(d: Delim, ts: Vec<Token>) -> Token {
    Token::Group(d, ts)
}

/// `feature = "something"`
fn feature_something() -> Vec<Token> {
    vec![ident("feature"), punct('='), lit("\"something\"")]
}

/// The body of a matching directive: `doc ( cfg ( p ) )`.
fn doc_cfg_inner(p: Vec<Token>) -> Vec<Token> {
    vec![
        ident("doc"),
        group(
            Delim::Parenthesis,
            vec![ident("cfg"), group(Delim::Parenthesis, p)],
        ),
    ]
}

/// Asserts that the scanner extracts nothing and passes `input` through.
fn assert_pass_through(input: Vec<Token>) {
    let parsed = parse_item(input.clone());
    assert_eq!(parsed.doc_cfg, Vec::<Vec<Token>>::new());
    assert_eq!(parsed.body, input);
}

#[test]
fn unrelated_tokens_pass_through() {
    assert_pass_through(vec![
        punct('#'),
        group(Delim::Bracket, vec![ident("inline")]),
        ident("fn"),
        ident("test"),
        group(Delim::Parenthesis, vec![]),
        group(Delim::Brace, vec![]),
    ]);
    // A trailing sigil has no successor and is never match-initiating.
    assert_pass_through(vec![ident("fn"), punct('#')]);
    assert_pass_through(vec![]);
}

#[test]
fn exact_match_only() {
    // Wrong outer identifier.
    assert_pass_through(vec![
        punct('#'),
        group(
            Delim::Bracket,
            vec![
                ident("dok"),
                group(
                    Delim::Parenthesis,
                    vec![ident("cfg"), group(Delim::Parenthesis, feature_something())],
                ),
            ],
        ),
    ]);
    // Wrong inner identifier.
    assert_pass_through(vec![
        punct('#'),
        group(
            Delim::Bracket,
            vec![
                ident("doc"),
                group(
                    Delim::Parenthesis,
                    vec![ident("cfgg"), group(Delim::Parenthesis, feature_something())],
                ),
            ],
        ),
    ]);
    // Wrong delimiter on the directive group.
    assert_pass_through(vec![
        punct('#'),
        group(Delim::Brace, doc_cfg_inner(feature_something())),
    ]);
    // Wrong delimiter on the innermost group.
    assert_pass_through(vec![
        punct('#'),
        group(
            Delim::Bracket,
            vec![
                ident("doc"),
                group(
                    Delim::Parenthesis,
                    vec![ident("cfg"), group(Delim::Bracket, feature_something())],
                ),
            ],
        ),
    ]);
    // Extra trailing token inside the outer group.
    assert_pass_through(vec![
        punct('#'),
        group(
            Delim::Bracket,
            vec![
                ident("doc"),
                group(
                    Delim::Parenthesis,
                    vec![ident("cfg"), group(Delim::Parenthesis, feature_something())],
                ),
                ident("extra"),
            ],
        ),
    ]);
    // Extra trailing token inside the middle group.
    assert_pass_through(vec![
        punct('#'),
        group(
            Delim::Bracket,
            vec![
                ident("doc"),
                group(
                    Delim::Parenthesis,
                    vec![
                        ident("cfg"),
                        group(Delim::Parenthesis, feature_something()),
                        ident("extra"),
                    ],
                ),
            ],
        ),
    ]);
    // Missing inner group.
    assert_pass_through(vec![
        punct('#'),
        group(Delim::Bracket, vec![ident("doc"), ident("cfg")]),
    ]);
    // Joint sigil spacing.
    assert_pass_through(vec![
        Token::Punct('#', Spacing::Joint),
        group(Delim::Bracket, doc_cfg_inner(feature_something())),
    ]);
}

#[test]
fn order_preservation() {
    let first = feature_something();
    let second = vec![ident("feature"), punct('='), lit("\"somethingelse\"")];
    let input = vec![
        punct('#'),
        group(Delim::Bracket, doc_cfg_inner(first.clone())),
        punct('#'),
        group(Delim::Bracket, vec![ident("inline")]),
        punct('#'),
        group(Delim::Bracket, doc_cfg_inner(second.clone())),
        ident("fn"),
        ident("test"),
        group(Delim::Parenthesis, vec![]),
        group(Delim::Brace, vec![]),
    ];
    let parsed = parse_item(input);
    assert_eq!(parsed.doc_cfg, vec![first, second]);
    assert_eq!(
        parsed.body,
        vec![
            punct('#'),
            group(Delim::Bracket, vec![ident("inline")]),
            ident("fn"),
            ident("test"),
            group(Delim::Parenthesis, vec![]),
            group(Delim::Brace, vec![]),
        ]
    );
}

#[test]
fn showcase_items_run() {
    doc_cfg::example::cool_nonportable_fn();
    doc_cfg::example::feature_gated_fn();
    doc_cfg::example::boring_old_fn();
}
