//! Telling whether a newer release of the runner exists.

use vstd::prelude::*;
use crate::text::text_eq;

verus! {

/// The test "this character is not the letter v".
pub open spec fn not_v() -> spec_fn(char) -> bool {
    |c: char| c != 'v'
}

/// The version that a release tag names: the tag without any letter `v`.
pub open spec fn tag_version(tag: Seq<char>) -> Seq<char> {
    tag.filter(not_v())
}

/// The version that a release tag names.
pub fn version_of_tag(tag: &str) -> (version: String)
    ensures
        version@ == tag_version(tag@),
{
    let mut version = String::new();
    let n = tag.unicode_len();
    let mut i: usize = 0;
    proof {
        reveal(Seq::filter);
        assert(tag@.take(0) =~= Seq::<char>::empty());
    }
    while i < n
        invariant
            i <= n,
            n == tag@.len(),
            version@ == tag@.take(i as int).filter(not_v()),
        decreases n - i,
    {
        proof {
            assert(tag@.take(i + 1) =~= tag@.take(i as int).push(tag@[i as int]));
            tag@.take(i as int).lemma_filter_push(tag@[i as int], not_v());
        }
        if tag.get_char(i) != 'v' {
            let ghost before = version@;
            version.append(tag.substring_char(i, i + 1));
            assert(tag@.subrange(i as int, i + 1) =~= seq![tag@[i as int]]);
            assert(version@ =~= before.push(tag@[i as int]));
        }
        i += 1;
    }
    assert(tag@.take(i as int) =~= tag@);
    version
}

/// The version to announce, given the running version and the tag of the
/// latest release: the release's version if it differs from the running one.
pub fn update_check(current: &str, latest_tag: &str) -> (newer: Option<String>)
    ensures
        match newer {
            Some(version) => version@ == tag_version(latest_tag@) && version@ != current@,
            None => tag_version(latest_tag@) == current@,
        },
{
    let version = version_of_tag(latest_tag);
    if text_eq(current, version.as_str()) {
        None
    } else {
        Some(version)
    }
}

} // verus!
