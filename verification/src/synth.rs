//! The directive synthesizer: re-emits a well-formed directive sequence —
//! documentation directives first, then the build-inclusion directive(s) —
//! followed by the untouched body.
//!
//! In always-document builds (`needs_cfg_attr` true) every emitted directive
//! is wrapped in `cfg_attr` so that it is active only under the
//! `unstable-doc-cfg` feature, and a second, strict build-inclusion
//! directive covers ordinary builds.

use vstd::prelude::*;

use crate::scan::preds_model;
use crate::token::{clone_tokens, lemma_seq_model, seq_model, Delim, Spacing, Token, TokenModel};

verus! {

broadcast use lemma_seq_model;

/// `feature = "unstable-doc-cfg"`: the condition under which an
/// always-document build is documenting.
pub open spec fn spec_feature_unstable() -> Seq<TokenModel> {
    seq![
        TokenModel::Ident("feature"@),
        TokenModel::Punct('=', Spacing::Alone),
        TokenModel::Lit("\"unstable-doc-cfg\""@),
    ]
}

/// `not ( feature = "unstable-doc-cfg" )`.
pub open spec fn spec_not_feature_unstable() -> Seq<TokenModel> {
    seq![
        TokenModel::Ident("not"@),
        TokenModel::Group(Delim::Parenthesis, spec_feature_unstable()),
    ]
}

/// `doc ( cfg ( p ) )`.
pub open spec fn spec_doc_cfg(p: Seq<TokenModel>) -> Seq<TokenModel> {
    seq![
        TokenModel::Ident("doc"@),
        TokenModel::Group(
            Delim::Parenthesis,
            seq![TokenModel::Ident("cfg"@), TokenModel::Group(Delim::Parenthesis, p)],
        ),
    ]
}

/// `cfg ( g )`: the strict build gate.
pub open spec fn spec_cfg(g: Seq<TokenModel>) -> Seq<TokenModel> {
    seq![TokenModel::Ident("cfg"@), TokenModel::Group(Delim::Parenthesis, g)]
}

/// `cfg ( any ( g , rustdoc ) )`: the build gate relaxed by the
/// documentation-build alternative.
pub open spec fn spec_cfg_any_rustdoc(g: Seq<TokenModel>) -> Seq<TokenModel> {
    seq![
        TokenModel::Ident("cfg"@),
        TokenModel::Group(
            Delim::Parenthesis,
            seq![
                TokenModel::Ident("any"@),
                TokenModel::Group(
                    Delim::Parenthesis,
                    g + seq![
                        TokenModel::Punct(',', Spacing::Alone),
                        TokenModel::Ident("rustdoc"@),
                    ],
                ),
            ],
        ),
    ]
}

/// `cfg_attr ( cond , then )`.
pub open spec fn spec_cfg_attr(cond: Seq<TokenModel>, then: Seq<TokenModel>) -> Seq<TokenModel> {
    seq![
        TokenModel::Ident("cfg_attr"@),
        TokenModel::Group(
            Delim::Parenthesis,
            cond + seq![TokenModel::Punct(',', Spacing::Alone)] + then,
        ),
    ]
}

/// `# [ inner ]`: a whole directive.
pub open spec fn spec_directive(inner: Seq<TokenModel>) -> Seq<TokenModel> {
    seq![
        TokenModel::Punct('#', Spacing::Alone),
        TokenModel::Group(Delim::Bracket, inner),
    ]
}

/// One documentation directive for the predicate `p`, wrapped for
/// always-document builds when `needs_cfg_attr` holds.
pub open spec fn spec_doc_directive(p: Seq<TokenModel>, needs_cfg_attr: bool) -> Seq<TokenModel> {
    if needs_cfg_attr {
        spec_directive(spec_cfg_attr(spec_feature_unstable(), spec_doc_cfg(p)))
    } else {
        spec_directive(spec_doc_cfg(p))
    }
}

/// The documentation directives, one per predicate, in order.
pub open spec fn spec_doc_block(ps: Seq<Seq<TokenModel>>, needs_cfg_attr: bool) -> Seq<TokenModel>
    decreases ps.len(),
{
    if ps.len() == 0 {
        Seq::empty()
    } else {
        spec_doc_directive(ps[0], needs_cfg_attr) + spec_doc_block(ps.skip(1), needs_cfg_attr)
    }
}

/// The build-inclusion directives: the relaxed gate, and — in
/// always-document builds only — a second, strict gate for ordinary builds.
pub open spec fn spec_gate_block(gate: Seq<TokenModel>, needs_cfg_attr: bool) -> Seq<TokenModel> {
    if needs_cfg_attr {
        spec_directive(spec_cfg_attr(spec_feature_unstable(), spec_cfg_any_rustdoc(gate)))
            + spec_directive(spec_cfg_attr(spec_not_feature_unstable(), spec_cfg(gate)))
    } else {
        spec_directive(spec_cfg_any_rustdoc(gate))
    }
}

/// The whole synthesis step: one documentation directive per predicate —
/// the gating predicate stands in when the list is empty — then the build
/// inclusion directives, then the body unchanged.
pub open spec fn spec_synthesize(
    gate: Seq<TokenModel>,
    preds: Seq<Seq<TokenModel>>,
    needs_cfg_attr: bool,
    body: Seq<TokenModel>,
) -> Seq<TokenModel> {
    let doc_preds = if preds.len() == 0 {
        seq![gate]
    } else {
        preds
    };
    spec_doc_block(doc_preds, needs_cfg_attr) + spec_gate_block(gate, needs_cfg_attr) + body
}

fn ident_token(name: &str) -> (t: Token)
    ensures
        t@ == TokenModel::Ident(name@),
{
    Token::Ident(name.to_owned())
}

fn feature_unstable_tokens() -> (r: Vec<Token>)
    ensures
        seq_model(r@) == spec_feature_unstable(),
{
    let mut r: Vec<Token> = Vec::new();
    r.push(ident_token("feature"));
    r.push(Token::Punct('=', Spacing::Alone));
    r.push(Token::Lit("\"unstable-doc-cfg\"".to_owned()));
    proof {
        assert(seq_model(r@) =~= spec_feature_unstable());
    }
    r
}

fn not_feature_unstable_tokens() -> (r: Vec<Token>)
    ensures
        seq_model(r@) == spec_not_feature_unstable(),
{
    let mut r: Vec<Token> = Vec::new();
    r.push(ident_token("not"));
    r.push(Token::Group(Delim::Parenthesis, feature_unstable_tokens()));
    proof {
        assert(seq_model(r@) =~= spec_not_feature_unstable());
    }
    r
}

fn doc_cfg_tokens(pred: Vec<Token>) -> (r: Vec<Token>)
    ensures
        seq_model(r@) == spec_doc_cfg(seq_model(pred@)),
{
    let ghost p = seq_model(pred@);
    let mut inner: Vec<Token> = Vec::new();
    inner.push(ident_token("cfg"));
    inner.push(Token::Group(Delim::Parenthesis, pred));
    proof {
        assert(seq_model(inner@) =~= seq![
            TokenModel::Ident("cfg"@),
            TokenModel::Group(Delim::Parenthesis, p),
        ]);
    }
    let ghost im = seq_model(inner@);
    let mut r: Vec<Token> = Vec::new();
    r.push(ident_token("doc"));
    r.push(Token::Group(Delim::Parenthesis, inner));
    proof {
        assert(seq_model(r@) =~= seq![
            TokenModel::Ident("doc"@),
            TokenModel::Group(Delim::Parenthesis, im),
        ]);
        assert(seq_model(r@) =~~= spec_doc_cfg(p));
    }
    r
}

fn cfg_tokens(gate: Vec<Token>) -> (r: Vec<Token>)
    ensures
        seq_model(r@) == spec_cfg(seq_model(gate@)),
{
    let ghost g = seq_model(gate@);
    let mut r: Vec<Token> = Vec::new();
    r.push(ident_token("cfg"));
    r.push(Token::Group(Delim::Parenthesis, gate));
    proof {
        assert(seq_model(r@) =~= spec_cfg(g));
    }
    r
}

fn cfg_any_rustdoc_tokens(gate: Vec<Token>) -> (r: Vec<Token>)
    ensures
        seq_model(r@) == spec_cfg_any_rustdoc(seq_model(gate@)),
{
    let ghost g = seq_model(gate@);
    let mut any_args = gate;
    any_args.push(Token::Punct(',', Spacing::Alone));
    any_args.push(ident_token("rustdoc"));
    proof {
        assert(seq_model(any_args@) =~= g + seq![
            TokenModel::Punct(',', Spacing::Alone),
            TokenModel::Ident("rustdoc"@),
        ]);
    }
    let ghost am = seq_model(any_args@);
    let mut any_grp: Vec<Token> = Vec::new();
    any_grp.push(ident_token("any"));
    any_grp.push(Token::Group(Delim::Parenthesis, any_args));
    proof {
        assert(seq_model(any_grp@) =~= seq![
            TokenModel::Ident("any"@),
            TokenModel::Group(Delim::Parenthesis, am),
        ]);
    }
    let ghost gm = seq_model(any_grp@);
    let mut r: Vec<Token> = Vec::new();
    r.push(ident_token("cfg"));
    r.push(Token::Group(Delim::Parenthesis, any_grp));
    proof {
        assert(seq_model(r@) =~= seq![
            TokenModel::Ident("cfg"@),
            TokenModel::Group(Delim::Parenthesis, gm),
        ]);
        assert(seq_model(r@) =~~= spec_cfg_any_rustdoc(g));
    }
    r
}

fn cfg_attr_tokens(cond: Vec<Token>, then: Vec<Token>) -> (r: Vec<Token>)
    ensures
        seq_model(r@) == spec_cfg_attr(seq_model(cond@), seq_model(then@)),
{
    let ghost c = seq_model(cond@);
    let ghost t = seq_model(then@);
    let mut args = cond;
    args.push(Token::Punct(',', Spacing::Alone));
    let mut then = then;
    args.append(&mut then);
    proof {
        assert(seq_model(args@) =~= c + seq![TokenModel::Punct(',', Spacing::Alone)] + t);
    }
    let mut r: Vec<Token> = Vec::new();
    r.push(ident_token("cfg_attr"));
    r.push(Token::Group(Delim::Parenthesis, args));
    proof {
        assert(seq_model(r@) =~= spec_cfg_attr(c, t));
    }
    r
}

fn directive_tokens(inner: Vec<Token>) -> (r: Vec<Token>)
    ensures
        seq_model(r@) == spec_directive(seq_model(inner@)),
{
    let ghost m = seq_model(inner@);
    let mut r: Vec<Token> = Vec::new();
    r.push(Token::Punct('#', Spacing::Alone));
    r.push(Token::Group(Delim::Bracket, inner));
    proof {
        assert(seq_model(r@) =~= spec_directive(m));
    }
    r
}

fn doc_directive_tokens(pred: Vec<Token>, needs_cfg_attr: bool) -> (r: Vec<Token>)
    ensures
        seq_model(r@) == spec_doc_directive(seq_model(pred@), needs_cfg_attr),
{
    if needs_cfg_attr {
        directive_tokens(cfg_attr_tokens(feature_unstable_tokens(), doc_cfg_tokens(pred)))
    } else {
        directive_tokens(doc_cfg_tokens(pred))
    }
}

/// Builds the rewritten item, per `spec_synthesize`.  The gating predicate
/// must not be empty; the caller reports that as a fatal error instead.
pub fn synthesize(
    gate: Vec<Token>,
    doc_preds: Vec<Vec<Token>>,
    needs_cfg_attr: bool,
    body: Vec<Token>,
) -> (r: Vec<Token>)
    requires
        gate@.len() > 0,
    ensures
        seq_model(r@) == spec_synthesize(
            seq_model(gate@),
            preds_model(doc_preds@),
            needs_cfg_attr,
            seq_model(body@),
        ),
{
    let ghost g = seq_model(gate@);
    let ghost preds0 = preds_model(doc_preds@);
    let mut dp = doc_preds;
    if dp.len() == 0 {
        dp.push(clone_tokens(&gate));
    }
    let ghost dpm = preds_model(dp@);
    proof {
        if preds0.len() == 0 {
            assert(dpm =~= seq![g]);
        } else {
            assert(dpm =~= preds0);
        }
    }
    let mut out: Vec<Token> = Vec::new();
    while dp.len() > 0
        invariant
            spec_doc_block(dpm, needs_cfg_attr) =~= seq_model(out@) + spec_doc_block(
                preds_model(dp@),
                needs_cfg_attr,
            ),
        decreases dp.len(),
    {
        let ghost before = preds_model(dp@);
        let pred = dp.remove(0);
        let mut d = doc_directive_tokens(pred, needs_cfg_attr);
        let ghost out_before = seq_model(out@);
        out.append(&mut d);
        proof {
            assert(preds_model(dp@) =~= before.skip(1));
            assert(seq_model(out@) =~= out_before + spec_doc_directive(
                before[0],
                needs_cfg_attr,
            ));
        }
    }
    proof {
        assert(seq_model(out@) + spec_doc_block(preds_model(dp@), needs_cfg_attr) =~= seq_model(
            out@,
        ));
    }
    let ghost doc_part = seq_model(out@);
    if needs_cfg_attr {
        let relaxed = cfg_any_rustdoc_tokens(clone_tokens(&gate));
        let mut d1 = directive_tokens(cfg_attr_tokens(feature_unstable_tokens(), relaxed));
        out.append(&mut d1);
        let mut d2 = directive_tokens(cfg_attr_tokens(not_feature_unstable_tokens(), cfg_tokens(gate)));
        out.append(&mut d2);
    } else {
        let mut d = directive_tokens(cfg_any_rustdoc_tokens(gate));
        out.append(&mut d);
    }
    proof {
        assert(seq_model(out@) =~= doc_part + spec_gate_block(g, needs_cfg_attr));
    }
    let ghost gated_part = seq_model(out@);
    let mut body = body;
    let ghost b = seq_model(body@);
    out.append(&mut body);
    proof {
        assert(seq_model(out@) =~= gated_part + b);
        assert(seq_model(out@) =~= spec_synthesize(g, preds0, needs_cfg_attr, b));
    }
    out
}

} // verus!
