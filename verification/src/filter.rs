//! The target filter: decides, from allow and ignore prefix lists, whether
//! a record is rendered at all.

use crate::chars::{is_prefix, str_starts_with};
use crate::config::Config;
use crate::fields::Record;
use vstd::prelude::*;

verus! {

/// Whether `target` starts with at least one of the prefixes.
pub open spec fn matches_any_prefix(filters: Seq<String>, target: Seq<char>) -> bool {
    exists|i: int| 0 <= i < filters.len() && #[trigger] is_prefix(filters[i]@, target)
}

/// Whether a record with the given target is skipped: a non-empty allow
/// list skips every target matching none of its prefixes, and a non-empty
/// ignore list skips every target matching one of its prefixes. Empty lists
/// impose no constraint.
pub open spec fn should_skip_spec(config: Config, target: Seq<char>) -> bool {
    ||| (config.filter_allow@.len() > 0 && !matches_any_prefix(config.filter_allow@, target))
    ||| (config.filter_ignore@.len() > 0 && matches_any_prefix(config.filter_ignore@, target))
}

/// Whether `target` starts with any of the prefixes.
fn matches_any(filters: &Vec<String>, target: &str) -> (r: bool)
    ensures
        r == matches_any_prefix(filters@, target@),
{
    let mut i: usize = 0;
    while i < filters.len()
        invariant
            i <= filters@.len(),
            forall|j: int| 0 <= j < i ==> !#[trigger] is_prefix(filters@[j]@, target@),
        decreases filters@.len() - i,
    {
        if str_starts_with(target, filters[i].as_str()) {
            assert(is_prefix(filters@[i as int]@, target@));
            return true;
        }
        i = i + 1;
    }
    false
}

/// Decides whether the log record is skipped by the configuration's target
/// filters.
pub fn should_skip(config: &Config, record: &Record) -> (r: bool)
    ensures
        r == should_skip_spec(*config, record.target@),
{
    let mut skip = false;
    if config.filter_allow.len() > 0 && !matches_any(&config.filter_allow, record.target.as_str()) {
        skip = true;
    }
    if config.filter_ignore.len() > 0 && matches_any(&config.filter_ignore, record.target.as_str())
        {
        skip = true;
    }
    skip
}

/// Open by default: a configuration with both filter lists empty skips no
/// record, whatever its target.
pub proof fn lemma_filters_open_by_default(config: Config, target: Seq<char>)
    requires
        config.filter_allow@.len() == 0,
        config.filter_ignore@.len() == 0,
    ensures
        !should_skip_spec(config, target),
{
}

/// A target that starts with the single allowed prefix passes the filter:
/// with `filter_allow` holding exactly one prefix of the target and
/// `filter_ignore` empty, the record is not skipped.
pub proof fn lemma_allowed_prefix_passes(config: Config, target: Seq<char>, p: String)
    requires
        config.filter_allow@ == seq![p],
        config.filter_ignore@.len() == 0,
        is_prefix(p@, target),
    ensures
        !should_skip_spec(config, target),
{
    assert(config.filter_allow@[0] == p);
    assert(matches_any_prefix(config.filter_allow@, target));
}

} // verus!
