//! Telling timestamp churn in a regenerated document from a real change.
//!
//! A rebuilt PDF carries fresh `/ModDate` and `/CreationDate` entries at a
//! fixed place near its start and is otherwise byte for byte what it was.
//! Such a rebuild is recognised from the unified diff of the two versions.

use vstd::prelude::*;
use vstd::string::StringSliceAdditionalSpecFns;
use crate::search::{bytes_contain, contains_run};

verus! {

/// The unified diff, with three lines of context and the default file
/// names, that `diffy` renders for turning `before` into `after`.
pub uninterp spec fn unified_diff(before: Seq<u8>, after: Seq<u8>) -> Seq<u8>;

/// Builds the patch with `diffy::create_patch_bytes` and renders it with
/// `diffy::Patch::to_bytes`.  Both work on the two buffers alone, line by
/// line, so the rendering is a function of their contents; which bytes it
/// holds is left to `diffy` and stands here under the name `unified_diff`.
#[verifier::external_body]
fn render_unified_diff(before: &[u8], after: &[u8]) -> (rendering: Vec<u8>)
    ensures
        rendering@ == unified_diff(before@, after@),
{
    diffy::create_patch_bytes(before, after).to_bytes()
}

/// A rendered diff shows timestamp churn and nothing else worth a commit
/// when it holds a hunk header for eight lines from line five on both sides,
/// a removed `/ModDate` line, a removed `/CreationDate` line and an added
/// `/ModDate` line.  An added `/CreationDate` line is not looked for.
pub open spec fn shows_only_timestamp_churn(rendering: Seq<u8>) -> bool {
    &&& contains_run(rendering, "-/ModDate".spec_bytes())
    &&& contains_run(rendering, "-/CreationDate".spec_bytes())
    &&& contains_run(rendering, "+/ModDate".spec_bytes())
    &&& contains_run(rendering, "@@ -5,8 +5,8 @@".spec_bytes())
}

/// Whether turning `before` into `after` changes nothing but the timestamps
/// of a regenerated document.
pub open spec fn spurious_diff(before: Seq<u8>, after: Seq<u8>) -> bool {
    shows_only_timestamp_churn(unified_diff(before, after))
}

/// Recognition: a rendering that holds all four marks shows timestamp churn
/// only, whatever else it holds.
pub proof fn law_all_marks_are_churn(rendering: Seq<u8>)
    requires
        contains_run(rendering, "@@ -5,8 +5,8 @@".spec_bytes()),
        contains_run(rendering, "-/ModDate".spec_bytes()),
        contains_run(rendering, "-/CreationDate".spec_bytes()),
        contains_run(rendering, "+/ModDate".spec_bytes()),
    ensures
        shows_only_timestamp_churn(rendering),
{
}

/// Rejection: a rendering that lacks one of the four marks, as that of a
/// change confined to other lines does, shows more than timestamp churn.
pub proof fn law_missing_mark_is_no_churn(rendering: Seq<u8>)
    requires
        !contains_run(rendering, "@@ -5,8 +5,8 @@".spec_bytes()) || !contains_run(
            rendering,
            "-/ModDate".spec_bytes(),
        ) || !contains_run(rendering, "-/CreationDate".spec_bytes()) || !contains_run(
            rendering,
            "+/ModDate".spec_bytes(),
        ),
    ensures
        !shows_only_timestamp_churn(rendering),
{
}

/// Decides from a rendered unified diff whether it shows timestamp churn
/// only.
pub fn is_timestamp_churn(rendering: &[u8]) -> (churn: bool)
    ensures
        churn == shows_only_timestamp_churn(rendering@),
{
    bytes_contain(rendering, "-/ModDate".as_bytes())
        && bytes_contain(rendering, "-/CreationDate".as_bytes())
        && bytes_contain(rendering, "+/ModDate".as_bytes())
        && bytes_contain(rendering, "@@ -5,8 +5,8 @@".as_bytes())
}

/// Diffs `before` against `after` and decides whether the difference is
/// timestamp churn only.
pub fn is_spurious_diff(before: &[u8], after: &[u8]) -> (spurious: bool)
    ensures
        spurious == spurious_diff(before@, after@),
{
    let rendering = render_unified_diff(before, after);
    is_timestamp_churn(rendering.as_slice())
}

} // verus!
