//! Looking for an issue among those already filed.

use vstd::prelude::*;
use crate::search::{chars_contain, contains_run};
use crate::text::chars_of;

verus! {

/// Some title of `titles` contains `search`.
pub open spec fn some_title_contains(titles: Seq<String>, search: Seq<char>) -> bool {
    exists|i: int| 0 <= i < titles.len() && contains_run((#[trigger] titles[i])@, search)
}

/// Whether an issue exists whose title contains `search`; `titles` are the
/// titles of the issues already filed.
pub fn check_if_github_issue_exists(titles: &Vec<String>, search: &str) -> (exists: bool)
    ensures
        exists == some_title_contains(titles@, search@),
{
    let needle = chars_of(search);
    let mut i: usize = 0;
    while i < titles.len()
        invariant
            i <= titles@.len(),
            needle@ == search@,
            forall|k: int| 0 <= k < i ==> !contains_run((#[trigger] titles@[k])@, search@),
        decreases titles@.len() - i,
    {
        let title = chars_of(titles[i].as_str());
        if chars_contain(&title, &needle) {
            return true;
        }
        i += 1;
    }
    false
}

} // verus!
