//! Rewrites the directive prefix of a source item so that the item is
//! compiled only under a gating predicate, while a documentation-facing
//! summary of that condition survives in builds that document everything.
//!
//! The item arrives as a flat [`token::Token`] sequence.  Its prefix is
//! scanned for directives of the exact shape `#[doc(cfg(<predicate>))]`;
//! those are removed and their predicates collected ([`scan::parse_item`]).
//! A fresh directive sequence is then emitted in front of the untouched
//! remainder ([`synth::synthesize`]): one documentation directive per
//! collected predicate — or one for the gating predicate itself when none
//! was collected — followed by the build-inclusion directive(s).

pub mod example;
pub mod extract;
pub mod laws;
pub mod quote_macro;
pub mod scan;
pub mod synth;
pub mod token;

use vstd::prelude::*;

use crate::scan::parse_item;
use crate::scan::spec_scan;
use crate::synth::{spec_synthesize, synthesize};
use crate::token::{seq_model, Token, TokenModel};

verus! {

/// The one fatal error of the transformation.
#[derive(Clone, Copy, Debug, PartialEq, Eq, Structural)]
pub enum DocCfgError {
    /// The caller supplied an empty gating predicate.
    ConditionalMissing,
}

impl DocCfgError {
    /// The human-readable description of the error.
    pub fn message(&self) -> (m: &'static str)
        ensures
            m@ == "#[doc_cfg(..)] conditional missing"@,
    {
        "#[doc_cfg(..)] conditional missing"
    }
}

/// Whether emitted directives must hide behind `cfg_attr` until the
/// documentation-configuration feature of the toolchain is stable.  For
/// now they always must.
pub fn needs_cfg_attr() -> (r: bool)
    ensures
        r,
{
    true
}

/// The whole transformation, mathematically: scan the item, then emit
/// documentation directives, build gate(s) and the remaining tokens.
pub open spec fn spec_transform(
    gate: Seq<TokenModel>,
    input: Seq<TokenModel>,
    needs_cfg_attr: bool,
) -> Seq<TokenModel> {
    spec_synthesize(gate, spec_scan(input).0, needs_cfg_attr, spec_scan(input).1)
}

/// Transforms one decorated item: `attr` is the gating predicate, `input`
/// the item with its directive prefix.  Fails — fatally, with no output —
/// exactly when the gating predicate is empty.
pub fn doc_cfg_(attr: Vec<Token>, input: Vec<Token>, needs_cfg_attr: bool) -> (r: Result<
    Vec<Token>,
    DocCfgError,
>)
    ensures
        r is Err <==> attr@.len() == 0,
        r matches Ok(out) ==> seq_model(out@) == spec_transform(
            seq_model(attr@),
            seq_model(input@),
            needs_cfg_attr,
        ),
        r matches Err(e) ==> e == DocCfgError::ConditionalMissing,
{
    if attr.len() == 0 {
        return Err(DocCfgError::ConditionalMissing);
    }
    let parsed = parse_item(input);
    Ok(synthesize(attr, parsed.doc_cfg, needs_cfg_attr, parsed.body))
}

/// The entry point as callers use it: like [`doc_cfg_`], with the
/// `cfg_attr` wrapping decided by [`needs_cfg_attr`].
pub fn doc_cfg(attr: Vec<Token>, input: Vec<Token>) -> (r: Result<Vec<Token>, DocCfgError>)
    ensures
        r is Err <==> attr@.len() == 0,
        r matches Ok(out) ==> seq_model(out@) == spec_transform(
            seq_model(attr@),
            seq_model(input@),
            true,
        ),
        r matches Err(e) ==> e == DocCfgError::ConditionalMissing,
{
    doc_cfg_(attr, input, needs_cfg_attr())
}

} // verus!
