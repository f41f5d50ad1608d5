//! The laws of the transformation, stated and proved once for all inputs:
//! pass-through of unrelated tokens, order preservation around extracted
//! directives, the default documentation predicate, and the number of
//! build-inclusion directives.

use vstd::prelude::*;

use crate::extract::spec_extract;
use crate::scan::spec_scan;
use crate::spec_transform;
use crate::synth::{
    spec_cfg, spec_cfg_any_rustdoc, spec_cfg_attr, spec_directive, spec_doc_block, spec_doc_cfg,
    spec_doc_directive, spec_feature_unstable, spec_gate_block, spec_not_feature_unstable,
};
use crate::token::{Delim, Spacing, TokenModel};

verus! {

/// A token sequence in which no two adjacent tokens form a matching
/// documentation-predicate directive passes through the scanner untouched:
/// nothing is extracted and the body equals the input.
pub proof fn lemma_scan_no_directives(s: Seq<TokenModel>)
    requires
        forall|i: int| 0 <= i && i + 1 < s.len() ==> #[trigger] spec_extract(s[i], s[i + 1]) is None,
    ensures
        spec_scan(s).0 == Seq::<Seq<TokenModel>>::empty(),
        spec_scan(s).1 == s,
    decreases s.len(),
{
    if s.len() >= 1 {
        let t = s.skip(1);
        assert forall|i: int| 0 <= i && i + 1 < t.len() implies #[trigger] spec_extract(
            t[i],
            t[i + 1],
        ) is None by {
            assert(t[i] == s[i + 1]);
            assert(t[i + 1] == s[i + 2]);
        }
        lemma_scan_no_directives(t);
        assert(seq![s[0]] + t =~= s);
    }
}

/// A directive of the exact shape `#[doc(cfg(p))]` standing first is
/// extracted whole: `p` goes to the front of the predicate list and the
/// directive's two tokens leave no trace in the body.
pub proof fn lemma_scan_directive_prefix(p: Seq<TokenModel>, s: Seq<TokenModel>)
    ensures
        spec_scan(spec_directive(spec_doc_cfg(p)) + s).0 == seq![p] + spec_scan(s).0,
        spec_scan(spec_directive(spec_doc_cfg(p)) + s).1 == spec_scan(s).1,
{
    let c = spec_directive(spec_doc_cfg(p)) + s;
    assert(c[0] == TokenModel::Punct('#', Spacing::Alone));
    assert(c[1] == TokenModel::Group(Delim::Bracket, spec_doc_cfg(p)));
    assert(spec_extract(c[0], c[1]) == Option::Some(p));
    assert(c.skip(2) =~= s);
    assert(spec_scan(c).0 =~= seq![p] + spec_scan(s).0);
}

/// A leading token that does not open a matching directive goes to the
/// front of the body, and the predicates of the remainder are kept as they
/// are: unrelated tokens never disturb extraction order.
pub proof fn lemma_scan_unrelated_prefix(t: TokenModel, s: Seq<TokenModel>)
    requires
        s.len() == 0 || spec_extract(t, s[0]) is None,
    ensures
        spec_scan(seq![t] + s).0 == spec_scan(s).0,
        spec_scan(seq![t] + s).1 == seq![t] + spec_scan(s).1,
{
    let c = seq![t] + s;
    assert(c.skip(1) =~= s);
    if c.len() >= 2 {
        assert(c[0] == t && c[1] == s[0]);
    }
    assert(spec_scan(c).1 =~= seq![t] + spec_scan(s).1);
}

/// When the scanner extracted no documentation predicate, the synthesized
/// documentation directive carries the gating predicate itself, token for
/// token.
pub proof fn lemma_default_doc_predicate(
    gate: Seq<TokenModel>,
    input: Seq<TokenModel>,
    needs_cfg_attr: bool,
)
    requires
        spec_scan(input).0.len() == 0,
    ensures
        spec_transform(gate, input, needs_cfg_attr) == spec_doc_directive(gate, needs_cfg_attr)
            + spec_gate_block(gate, needs_cfg_attr) + spec_scan(input).1,
{
    let ps = seq![gate];
    assert(ps.skip(1) =~= Seq::<Seq<TokenModel>>::empty());
    assert(spec_doc_block(Seq::<Seq<TokenModel>>::empty(), needs_cfg_attr)
        == Seq::<TokenModel>::empty());
    assert(spec_doc_block(ps, needs_cfg_attr) =~= spec_doc_directive(gate, needs_cfg_attr));
}

/// In always-document mode exactly two build-inclusion directives are
/// emitted — the relaxed gate first, the strict gate second; otherwise
/// exactly one, the relaxed gate alone.  A directive is two tokens, the
/// sigil and its bracket group.
pub proof fn lemma_gate_directive_count(gate: Seq<TokenModel>)
    ensures
        spec_gate_block(gate, true) == spec_directive(
            spec_cfg_attr(spec_feature_unstable(), spec_cfg_any_rustdoc(gate)),
        ) + spec_directive(spec_cfg_attr(spec_not_feature_unstable(), spec_cfg(gate))),
        spec_gate_block(gate, true).len() == 4,
        spec_gate_block(gate, false) == spec_directive(spec_cfg_any_rustdoc(gate)),
        spec_gate_block(gate, false).len() == 2,
{
}

} // verus!
