//! The directive scanner: walks an item's token sequence with a two-token
//! lookahead window, extracts every exactly-matching documentation-predicate
//! directive, and passes every other token through to the body unchanged and
//! in order.

use vstd::prelude::*;

use crate::extract::{parse_cfg, spec_extract};
use crate::token::{lemma_seq_model, seq_model, Token, TokenModel};

verus! {

broadcast use lemma_seq_model;

/// The model of a list of predicates: each predicate token vector taken to
/// its sequence model.
pub open spec fn preds_model(ps: Seq<Vec<Token>>) -> Seq<Seq<TokenModel>> {
    Seq::new(ps.len(), |i: int| seq_model(ps[i]@))
}

/// The scanner, mathematically: at each position either the current token
/// and its successor form an exactly-matching directive — then its predicate
/// is recorded and both tokens are consumed — or the current token goes to
/// the body and the cursor advances by one.
pub open spec fn spec_scan(s: Seq<TokenModel>) -> (Seq<Seq<TokenModel>>, Seq<TokenModel>)
    decreases s.len(),
{
    if s.len() >= 2 && spec_extract(s[0], s[1]) is Some {
        let rest = spec_scan(s.skip(2));
        (seq![spec_extract(s[0], s[1])->0] + rest.0, rest.1)
    } else if s.len() >= 1 {
        let rest = spec_scan(s.skip(1));
        (rest.0, seq![s[0]] + rest.1)
    } else {
        (Seq::empty(), Seq::empty())
    }
}

/// What one transformation call takes apart: the extracted documentation
/// predicates in order of first appearance, and the remaining tokens of the
/// item in their original order.
pub struct ParseResult {
    /// The extracted documentation predicates, leftmost first.
    pub doc_cfg: Vec<Vec<Token>>,
    /// Every token that was not part of a matching directive, in order.
    pub body: Vec<Token>,
}

/// Scans a whole item, per `spec_scan`.
pub fn parse_item(input: Vec<Token>) -> (r: ParseResult)
    ensures
        preds_model(r.doc_cfg@) == spec_scan(seq_model(input@)).0,
        seq_model(r.body@) == spec_scan(seq_model(input@)).1,
{
    let mut rest = input;
    let mut preds: Vec<Vec<Token>> = Vec::new();
    let mut body: Vec<Token> = Vec::new();
    while rest.len() > 0
        invariant
            spec_scan(seq_model(input@)).0 =~= preds_model(preds@) + spec_scan(
                seq_model(rest@),
            ).0,
            spec_scan(seq_model(input@)).1 =~= seq_model(body@) + spec_scan(seq_model(rest@)).1,
        decreases rest.len(),
    {
        let ghost pre = seq_model(rest@);
        if rest.len() >= 2 {
            let t0 = rest.remove(0);
            let t1 = rest.remove(0);
            proof {
                assert(seq_model(rest@) =~= pre.skip(2));
            }
            match parse_cfg(t0, t1) {
                Ok(pred) => {
                    preds.push(pred);
                    proof {
                        assert(preds_model(preds@) =~= preds_model(preds@.drop_last()).push(
                            seq_model(pred@),
                        ));
                    }
                },
                Err(back) => {
                    let (a, b) = back;
                    rest.insert(0, b);
                    body.push(a);
                    proof {
                        assert(seq_model(rest@) =~= pre.skip(1));
                        assert(seq_model(body@) =~= seq_model(body@.drop_last()).push(a@));
                    }
                },
            }
        } else {
            let t = rest.remove(0);
            body.push(t);
            proof {
                assert(seq_model(rest@) =~= pre.skip(1));
                assert(seq_model(body@) =~= seq_model(body@.drop_last()).push(t@));
            }
        }
    }
    proof {
        assert(preds_model(preds@) + spec_scan(seq_model(rest@)).0 =~= preds_model(preds@));
        assert(seq_model(body@) + spec_scan(seq_model(rest@)).1 =~= seq_model(body@));
    }
    ParseResult { doc_cfg: preds, body }
}

} // verus!
