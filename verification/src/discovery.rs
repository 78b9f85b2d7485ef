//! After a successful compiler run the external tool has written the base
//! object and any subset of five per-ISA variants, with no manifest saying
//! which. This module computes the candidate paths to probe and filters them
//! by the probe results the driver hands back.

use vstd::prelude::*;
use crate::paths::{spec_with_ext_o, spec_with_file_name, with_extension_o, with_file_name};

verus! {

/// One ISA-suffixed sibling of `obj`: the file name becomes `stem` followed
/// by `suffix`, and the extension becomes `o`.
pub open spec fn spec_variant(obj: Seq<char>, stem: Seq<char>, suffix: Seq<char>) -> Seq<char> {
    spec_with_ext_o(spec_with_file_name(obj, stem + suffix))
}

/// The six paths the compiler may have written for one source file: the base
/// object itself, then the five ISA-suffixed variants beside it.
pub open spec fn spec_candidates(obj: Seq<char>, stem: Seq<char>) -> Seq<Seq<char>> {
    seq![
        obj,
        spec_variant(obj, stem, "_sse2"@),
        spec_variant(obj, stem, "_sse4"@),
        spec_variant(obj, stem, "_avx"@),
        spec_variant(obj, stem, "_avx11"@),
        spec_variant(obj, stem, "_avx2"@),
    ]
}

fn one_variant(obj: &str, stem: &str, suffix: &str) -> (r: String)
    ensures
        r@ == spec_variant(obj@, stem@, suffix@),
{
    let mut name = stem.to_owned();
    name.append(suffix);
    let renamed = with_file_name(obj, name.as_str());
    with_extension_o(renamed.as_str())
}

/// Computes the six candidate object paths for one source file, as
/// `spec_candidates` describes: `obj` is the expected base object path and
/// `stem` the source file's stem.
pub fn object_candidates(obj: &str, stem: &str) -> (r: Vec<String>)
    ensures
        r.deep_view() == spec_candidates(obj@, stem@),
{
    let mut r: Vec<String> = Vec::new();
    r.push(obj.to_owned());
    r.push(one_variant(obj, stem, "_sse2"));
    r.push(one_variant(obj, stem, "_sse4"));
    r.push(one_variant(obj, stem, "_avx"));
    r.push(one_variant(obj, stem, "_avx11"));
    r.push(one_variant(obj, stem, "_avx2"));
    proof {
        assert(r.deep_view() =~~= spec_candidates(obj@, stem@));
    }
    r
}

/// The candidates that were actually found on disk, in candidate order:
/// `cands[i]` is kept exactly when `found[i]` holds.
pub open spec fn spec_discovered(cands: Seq<Seq<char>>, found: Seq<bool>) -> Seq<Seq<char>>
    decreases cands.len(),
{
    if cands.len() == 0 {
        Seq::empty()
    } else {
        spec_discovered(cands.drop_last(), found.drop_last()) + (if found[cands.len() - 1] {
            seq![cands.last()]
        } else {
            Seq::empty()
        })
    }
}

/// Filters the candidate paths by the existence bits the driver probed, as
/// `spec_discovered` describes. Candidates whose files exist are kept in
/// order; the others are silently skipped.
pub fn discovered_objects(cands: &Vec<String>, found: &Vec<bool>) -> (r: Vec<String>)
    requires
        cands@.len() == found@.len(),
    ensures
        r.deep_view() == spec_discovered(cands.deep_view(), found@),
{
    let mut r: Vec<String> = Vec::new();
    let mut i: usize = 0;
    while i < cands.len()
        invariant
            cands@.len() == found@.len(),
            0 <= i <= cands@.len(),
            r.deep_view() == spec_discovered(
                cands.deep_view().take(i as int),
                found@.take(i as int),
            ),
        decreases cands@.len() - i,
    {
        proof {
            assert(cands.deep_view().take(i + 1).drop_last() =~~= cands.deep_view().take(i as int));
            assert(found@.take(i + 1).drop_last() =~= found@.take(i as int));
            assert(cands.deep_view().take(i + 1).last() == cands.deep_view()[i as int]);
            assert(found@.take(i + 1)[i as int] == found@[i as int]);
        }
        if found[i] {
            r.push(cands[i].clone());
            proof {
                assert(r.deep_view() =~~= spec_discovered(
                    cands.deep_view().take(i + 1),
                    found@.take(i + 1),
                ));
            }
        } else {
            proof {
                assert(r.deep_view() =~~= spec_discovered(
                    cands.deep_view().take(i + 1),
                    found@.take(i + 1),
                ));
            }
        }
        i += 1;
    }
    proof {
        assert(cands.deep_view().take(cands@.len() as int) =~~= cands.deep_view());
        assert(found@.take(found@.len() as int) =~= found@);
    }
    r
}

} // verus!
