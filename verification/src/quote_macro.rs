//! Textual template filling for callers that build token streams from
//! source text: every `# name` marker in a template is replaced by the
//! text standing for `name`.

use vstd::prelude::*;

use vstd::string::StrSliceExecFns;
use vstd::string::StringExecFns;

verus! {

/// Replacement of every occurrence of `from` in `s` by `to`, scanning left
/// to right without overlap.  An empty `from` changes nothing.
pub open spec fn spec_replace(s: Seq<char>, from: Seq<char>, to: Seq<char>) -> Seq<char>
    decreases s.len(),
{
    if from.len() == 0 || s.len() < from.len() {
        s
    } else if s.subrange(0, from.len() as int) == from {
        to + spec_replace(s.skip(from.len() as int), from, to)
    } else {
        seq![s[0]] + spec_replace(s.skip(1), from, to)
    }
}

/// Whether `from` occurs in `s` at position `i`.
fn matches_at(s: &str, i: usize, from: &str) -> (r: bool)
    requires
        i + from@.len() <= s@.len(),
        s@.len() <= usize::MAX,
    ensures
        r <==> s@.subrange(i as int, i as int + from@.len()) == from@,
{
    let m = from.unicode_len();
    let mut j: usize = 0;
    while j < m
        invariant
            j <= m,
            m == from@.len(),
            i + m <= s@.len(),
            s@.len() <= usize::MAX,
            forall|k: int| 0 <= k < j ==> s@[i + k] == from@[k],
        decreases m - j,
    {
        if s.get_char(i + j) != from.get_char(j) {
            proof {
                assert(s@.subrange(i as int, i as int + m as int)[j as int] == s@[i + j]);
            }
            return false;
        }
        j = j + 1;
    }
    proof {
        assert(s@.subrange(i as int, i as int + m as int) =~= from@);
    }
    true
}

/// Replaces every occurrence of `from` in `s` by `to`, per `spec_replace`.
pub fn replace(s: &str, from: &str, to: &str) -> (r: String)
    requires
        from@.len() > 0,
    ensures
        r@ == spec_replace(s@, from@, to@),
{
    let n = s.unicode_len();
    let m = from.unicode_len();
    let mut out = String::new();
    let mut i: usize = 0;
    proof {
        assert(s@.skip(0) =~= s@);
        assert(Seq::<char>::empty() + spec_replace(s@, from@, to@) =~= spec_replace(s@, from@, to@));
    }
    while i < n
        invariant
            n == s@.len(),
            m == from@.len(),
            m > 0,
            i <= n,
            spec_replace(s@, from@, to@) == out@ + spec_replace(s@.skip(i as int), from@, to@),
        decreases n - i,
    {
        let ghost rem = s@.skip(i as int);
        if m <= n - i && matches_at(s, i, from) {
            out.append(to);
            i = i + m;
            proof {
                assert(rem.subrange(0, m as int) =~= s@.subrange(i - m, i as int));
                assert(rem.skip(m as int) =~= s@.skip(i as int));
            }
        } else {
            out.append(s.substring_char(i, i + 1));
            i = i + 1;
            proof {
                assert(s@.subrange(i - 1, i as int) =~= seq![rem[0]]);
                assert(rem =~= seq![rem[0]] + rem.skip(1));
                assert(rem.skip(1) =~= s@.skip(i as int));
                if m <= rem.len() {
                    assert(rem.subrange(0, m as int) =~= s@.subrange(i - 1, i - 1 + m));
                }
            }
        }
    }
    proof {
        assert(s@.skip(n as int) =~= Seq::<char>::empty());
        assert(out@ + Seq::<char>::empty() =~= out@);
    }
    out
}

/// The model of a replacement list: each pair of texts as character
/// sequences.
pub open spec fn pairs_model(ps: Seq<(String, String)>) -> Seq<(Seq<char>, Seq<char>)> {
    Seq::new(ps.len(), |i: int| (ps[i].0@, ps[i].1@))
}

/// Template filling, mathematically: the pairs applied in order, each one
/// replacing every `# name` marker in the result of the previous step.
pub open spec fn spec_quote_replace(
    template: Seq<char>,
    rs: Seq<(Seq<char>, Seq<char>)>,
) -> Seq<char>
    decreases rs.len(),
{
    if rs.len() == 0 {
        template
    } else {
        spec_quote_replace(spec_replace(template, "# "@ + rs[0].0, rs[0].1), rs.skip(1))
    }
}

/// Fills a textual template: for each `(name, text)` pair, in order, every
/// occurrence of `# name` is replaced by `text`.
pub fn quote_replace(template: &str, replacements: &Vec<(String, String)>) -> (r: String)
    ensures
        r@ == spec_quote_replace(template@, pairs_model(replacements@)),
{
    let mut s = template.to_owned();
    let mut idx: usize = 0;
    proof {
        assert(replacements@.skip(0) =~= replacements@);
    }
    while idx < replacements.len()
        invariant
            idx <= replacements.len(),
            spec_quote_replace(template@, pairs_model(replacements@)) == spec_quote_replace(
                s@,
                pairs_model(replacements@.skip(idx as int)),
            ),
        decreases replacements.len() - idx,
    {
        let ghost before = pairs_model(replacements@.skip(idx as int));
        let pair = &replacements[idx];
        let mut needle = "# ".to_owned();
        needle.append(pair.0.as_str());
        proof {
            reveal_strlit("# ");
            assert(needle@ == "# "@ + before[0].0);
        }
        s = replace(s.as_str(), needle.as_str(), pair.1.as_str());
        idx = idx + 1;
        proof {
            assert(before.skip(1) =~= pairs_model(replacements@.skip(idx as int)));
        }
    }
    proof {
        assert(pairs_model(replacements@.skip(replacements@.len() as int)).len() == 0);
    }
    s
}

} // verus!
