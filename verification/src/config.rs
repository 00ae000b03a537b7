//! The global defaults and the per-project pin (`.addrc.toml`).
use vstd::prelude::*;
use crate::detect::{listings_view, project_config_name, DirListing, DirListingView};
use crate::flags::Manager;
use crate::text::contains_name;

verus! {

/// The managers to use for a project that has no lockfile, per ecosystem.
#[derive(Debug, Clone, Copy, Default, PartialEq, Eq, Structural)]
pub struct Defaults {
    pub javascript: Option<Manager>,
    pub python: Option<Manager>,
}

/// The global configuration.
#[derive(Debug, Clone, Copy, Default, PartialEq, Eq, Structural)]
pub struct GlobalConfig {
    pub defaults: Defaults,
}

/// The per-project configuration, which may pin a manager.
#[derive(Debug, Clone, Copy, Default, PartialEq, Eq, Structural)]
pub struct ProjectConfig {
    pub manager: Option<Manager>,
}

/// The first of `levels[i..]` that holds `.addrc.toml`, as its index.
pub open spec fn first_config_level(levels: Seq<DirListingView>, i: int) -> Option<int>
    decreases levels.len() - i,
{
    if i < 0 || i >= levels.len() {
        None
    } else if levels[i].files.contains(project_config_name()) {
        Some(i)
    } else {
        first_config_level(levels, i + 1)
    }
}

/// Finds the nearest directory, from the starting one `levels[0]` upwards,
/// that holds `.addrc.toml`; the result is how many levels up it is.
pub fn find_project_config(levels: &Vec<DirListing>) -> (r: Option<usize>)
    ensures
        match r {
            Some(i) => first_config_level(listings_view(levels@), 0) == Some(i as int),
            None => first_config_level(listings_view(levels@), 0) is None,
        },
{
    let ghost lv = listings_view(levels@);
    let mut i: usize = 0;
    while i < levels.len()
        invariant
            lv == listings_view(levels@),
            i <= levels@.len(),
            first_config_level(lv, 0) == first_config_level(lv, i as int),
        decreases levels@.len() - i,
    {
        assert(lv[i as int] == levels@[i as int]@);
        if contains_name(&levels[i].files, ".addrc.toml") {
            return Some(i);
        }
        i = i + 1;
    }
    None
}

/// The configuration found is the nearest one: the directory it is in holds
/// `.addrc.toml` and none below it does; when none is found, no directory
/// holds one.
pub proof fn lemma_nearest_config(levels: Seq<DirListingView>, i: int)
    requires
        0 <= i,
    ensures
        first_config_level(levels, i) matches Some(k) ==> {
            &&& i <= k < levels.len()
            &&& levels[k].files.contains(project_config_name())
            &&& forall|j: int| i <= j < k ==> !levels[j].files.contains(project_config_name())
        },
        first_config_level(levels, i) is None ==> forall|j: int|
            i <= j < levels.len() ==> !levels[j].files.contains(project_config_name()),
    decreases levels.len() - i,
{
    if i < levels.len() {
        lemma_nearest_config(levels, i + 1);
    }
}

} // verus!
