//! The predicate extractor: recognizes the exact nested shape
//! `# [ doc ( cfg ( <predicate> ) ) ]` in the two leading tokens of a
//! directive and yields the embedded predicate, or reports "no match"
//! while handing every token back unchanged.

use vstd::prelude::*;

use crate::token::{seq_model, Delim, Spacing, Token, TokenModel};
use crate::token::lemma_seq_model;

verus! {

broadcast use lemma_seq_model;

/// The shape `name ( inner )` and nothing else: exactly one identifier
/// followed by exactly one parenthesized group.
pub open spec fn spec_parse_cfg_fn(ts: Seq<TokenModel>) -> Option<(Seq<char>, Seq<TokenModel>)> {
    if ts.len() == 2 {
        match (ts[0], ts[1]) {
            (TokenModel::Ident(name), TokenModel::Group(Delim::Parenthesis, inner)) => Option::Some(
                (name, inner),
            ),
            _ => Option::None,
        }
    } else {
        Option::None
    }
}

/// The exact directive shape `# [ doc ( cfg ( <predicate> ) ) ]` over two
/// leading tokens: a lone `#` sigil, then a bracket group holding `doc`
/// applied to `cfg` applied to the predicate.  Anything else is no match.
pub open spec fn spec_extract(t0: TokenModel, t1: TokenModel) -> Option<Seq<TokenModel>> {
    if t0 == TokenModel::Punct('#', Spacing::Alone) {
        match t1 {
            TokenModel::Group(Delim::Bracket, outer) => match spec_parse_cfg_fn(outer) {
                Option::Some((doc_name, mid)) => if doc_name == "doc"@ {
                    match spec_parse_cfg_fn(mid) {
                        Option::Some((cfg_name, pred)) => if cfg_name == "cfg"@ {
                            Option::Some(pred)
                        } else {
                            Option::None
                        },
                        Option::None => Option::None,
                    }
                } else {
                    Option::None
                },
                Option::None => Option::None,
            },
            _ => Option::None,
        }
    } else {
        Option::None
    }
}

/// Splits `name ( inner )` into the name and the inner tokens; on any other
/// shape the input comes back unchanged.
pub fn parse_cfg_fn(ts: Vec<Token>) -> (r: Result<(String, Vec<Token>), Vec<Token>>)
    ensures
        r is Ok <==> spec_parse_cfg_fn(seq_model(ts@)) is Some,
        r matches Ok(p) ==> spec_parse_cfg_fn(seq_model(ts@)) == Option::Some(
            (p.0@, seq_model(p.1@)),
        ),
        r matches Err(back) ==> back@ == ts@,
{
    let mut rest = ts;
    if rest.len() != 2 {
        return Err(rest);
    }
    let second = rest.pop().unwrap();
    let first = rest.pop().unwrap();
    match (first, second) {
        (Token::Ident(name), Token::Group(Delim::Parenthesis, inner)) => Ok((name, inner)),
        (a, b) => {
            let mut back = rest;
            back.push(a);
            back.push(b);
            proof {
                assert(back@ =~= ts@);
            }
            Err(back)
        },
    }
}

/// Extracts the predicate out of the two leading tokens of a
/// `# [ doc ( cfg ( <predicate> ) ) ]` directive.  On any deviation from
/// that exact shape both tokens come back unchanged, as models.
pub fn parse_cfg(t0: Token, t1: Token) -> (r: Result<Vec<Token>, (Token, Token)>)
    ensures
        r is Ok <==> spec_extract(t0@, t1@) is Some,
        r matches Ok(pred) ==> spec_extract(t0@, t1@) == Option::Some(seq_model(pred@)),
        r matches Err(back) ==> back.0@ == t0@ && back.1@ == t1@,
{
    let sigil_ok = match &t0 {
        Token::Punct(c, sp) => *c == '#' && *sp == Spacing::Alone,
        _ => false,
    };
    if !sigil_ok {
        return Err((t0, t1));
    }
    let outer = match t1 {
        Token::Group(Delim::Bracket, outer) => outer,
        other => {
            return Err((t0, other));
        },
    };
    let (doc_name, mid) = match parse_cfg_fn(outer) {
        Ok(p) => p,
        Err(outer_back) => {
            return Err((t0, Token::Group(Delim::Bracket, outer_back)));
        },
    };
    if !(doc_name == "doc".to_owned()) {
        let mut outer_back: Vec<Token> = Vec::new();
        outer_back.push(Token::Ident(doc_name));
        outer_back.push(Token::Group(Delim::Parenthesis, mid));
        proof {
            assert(seq_model(outer_back@) =~= seq_model(outer@));
        }
        return Err((t0, Token::Group(Delim::Bracket, outer_back)));
    }
    let (cfg_name, pred) = match parse_cfg_fn(mid) {
        Ok(p) => p,
        Err(mid_back) => {
            let mut outer_back: Vec<Token> = Vec::new();
            outer_back.push(Token::Ident(doc_name));
            outer_back.push(Token::Group(Delim::Parenthesis, mid_back));
            proof {
                assert(seq_model(outer_back@) =~= seq_model(outer@));
            }
            return Err((t0, Token::Group(Delim::Bracket, outer_back)));
        },
    };
    if !(cfg_name == "cfg".to_owned()) {
        let mut mid_back: Vec<Token> = Vec::new();
        mid_back.push(Token::Ident(cfg_name));
        mid_back.push(Token::Group(Delim::Parenthesis, pred));
        proof {
            assert(seq_model(mid_back@) =~= seq_model(mid@));
        }
        let mut outer_back: Vec<Token> = Vec::new();
        outer_back.push(Token::Ident(doc_name));
        outer_back.push(Token::Group(Delim::Parenthesis, mid_back));
        proof {
            assert(seq_model(outer_back@) =~= seq_model(outer@));
        }
        return Err((t0, Token::Group(Delim::Bracket, outer_back)));
    }
    Ok(pred)
}

} // verus!
