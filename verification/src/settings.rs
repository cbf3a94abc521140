//! Configuration data the rewrite passes read: the section inclusion prefix,
//! the interwiki link mapping, the current target name and the subtarget
//! marker sets.

use vstd::prelude::*;
use crate::textops::{lower, trim, lower_str, trim_str};

verus! {

/// A named rule set selecting which headings a build variant keeps or drops.
#[derive(PartialEq, Debug)]
pub struct Subtarget {
    pub name: String,
    pub parameters: Vec<String>,
}

/// The mathematical shape of a subtarget.
pub struct SubtargetView {
    pub name: Seq<char>,
    pub parameters: Seq<Seq<char>>,
}

impl View for Subtarget {
    type V = SubtargetView;

    open spec fn view(&self) -> SubtargetView {
        SubtargetView {
            name: self.name@,
            parameters: self.parameters@.map_values(|p: String| p@),
        }
    }
}

/// One marker set: the subtargets a marker kind (include or exclude) names.
#[derive(PartialEq, Debug)]
pub struct Marker {
    pub subtargets: Vec<Subtarget>,
}

/// The include and exclude marker sets.
#[derive(PartialEq, Debug)]
pub struct TargetMarkers {
    pub inclusion: Marker,
    pub exclusion: Marker,
}

/// Settings that hold for one pipeline run.
#[derive(PartialEq, Debug)]
pub struct RuntimeSettings {
    pub target_name: String,
    pub markers: TargetMarkers,
}

/// Settings independent of the selected target.
#[derive(PartialEq, Debug)]
pub struct GeneralSettings {
    pub section_inclusion_prefix: String,
    /// Lookup pairs from a lower-case prefix (colon included) to a URL base;
    /// the first matching pair wins.
    pub interwiki_link_mapping: Vec<(String, String)>,
}

/// All configuration the passes read.
#[derive(PartialEq, Debug)]
pub struct Settings {
    pub general: GeneralSettings,
    pub runtime: RuntimeSettings,
}

/// The mathematical shape of the configuration.
pub struct SettingsView {
    pub section_inclusion_prefix: Seq<char>,
    pub interwiki_link_mapping: Seq<(Seq<char>, Seq<char>)>,
    pub target_name: Seq<char>,
    pub include_subtargets: Seq<SubtargetView>,
    pub exclude_subtargets: Seq<SubtargetView>,
}

pub open spec fn pairs_view(s: Seq<(String, String)>) -> Seq<(Seq<char>, Seq<char>)> {
    s.map_values(|p: (String, String)| (p.0@, p.1@))
}

pub open spec fn subtargets_view(s: Seq<Subtarget>) -> Seq<SubtargetView> {
    s.map_values(|t: Subtarget| t@)
}

impl View for Settings {
    type V = SettingsView;

    open spec fn view(&self) -> SettingsView {
        SettingsView {
            section_inclusion_prefix: self.general.section_inclusion_prefix@,
            interwiki_link_mapping: pairs_view(self.general.interwiki_link_mapping@),
            target_name: self.runtime.target_name@,
            include_subtargets: subtargets_view(self.runtime.markers.inclusion.subtargets@),
            exclude_subtargets: subtargets_view(self.runtime.markers.exclusion.subtargets@),
        }
    }
}

/// First-match lookup in an association list.
pub open spec fn assoc_lookup(m: Seq<(Seq<char>, Seq<char>)>, key: Seq<char>) -> Option<Seq<char>>
    decreases m.len(),
{
    if m.len() == 0 {
        None
    } else if m[0].0 == key {
        Some(m[0].1)
    } else {
        assoc_lookup(m.drop_first(), key)
    }
}

fn lookup_mapping_from(map: &Vec<(String, String)>, key: &String, i: usize) -> (r: Option<String>)
    requires
        i <= map@.len(),
    ensures
        match r {
            Some(v) => assoc_lookup(pairs_view(map@).skip(i as int), key@) == Some(v@),
            None => assoc_lookup(pairs_view(map@).skip(i as int), key@) is None,
        },
    decreases map@.len() - i,
{
    let ghost m = pairs_view(map@).skip(i as int);
    if i == map.len() {
        proof {
            assert(m.len() == 0);
        }
        None
    } else {
        proof {
            assert(m[0] == pairs_view(map@)[i as int]);
            assert(m.drop_first() =~= pairs_view(map@).skip(i as int + 1));
        }
        if map[i].0 == *key {
            Some(map[i].1.clone())
        } else {
            lookup_mapping_from(map, key, i + 1)
        }
    }
}

/// First-match lookup of `key` among the mapping pairs.
pub fn lookup_mapping(map: &Vec<(String, String)>, key: &String) -> (r: Option<String>)
    ensures
        match r {
            Some(v) => assoc_lookup(pairs_view(map@), key@) == Some(v@),
            None => assoc_lookup(pairs_view(map@), key@) is None,
        },
{
    proof {
        assert(pairs_view(map@).skip(0) =~= pairs_view(map@));
    }
    lookup_mapping_from(map, key, 0)
}

/// Whether a subtarget name names the current target: compared trimmed and
/// lower-cased on both sides.
pub open spec fn name_matches(name: Seq<char>, target: Seq<char>) -> bool {
    lower(trim(name)) == lower(trim(target))
}

/// The first subtarget of `sts` whose name names the current target.
pub open spec fn find_subtarget(sts: Seq<SubtargetView>, target: Seq<char>) -> Option<SubtargetView>
    decreases sts.len(),
{
    if sts.len() == 0 {
        None
    } else if name_matches(sts[0].name, target) {
        Some(sts[0])
    } else {
        find_subtarget(sts.drop_first(), target)
    }
}

fn find_subtarget_from<'a>(sts: &'a Vec<Subtarget>, target: &str, i: usize) -> (r: Option<
    &'a Subtarget,
>)
    requires
        i <= sts@.len(),
    ensures
        match r {
            Some(st) => find_subtarget(subtargets_view(sts@).skip(i as int), target@) == Some(st@),
            None => find_subtarget(subtargets_view(sts@).skip(i as int), target@) is None,
        },
    decreases sts@.len() - i,
{
    let ghost m = subtargets_view(sts@).skip(i as int);
    if i == sts.len() {
        proof {
            assert(m.len() == 0);
        }
        None
    } else {
        proof {
            assert(m[0] == subtargets_view(sts@)[i as int]);
            assert(m.drop_first() =~= subtargets_view(sts@).skip(i as int + 1));
        }
        let name_l = lower_str(trim_str(sts[i].name.as_str()).as_str());
        let target_l = lower_str(trim_str(target).as_str());
        if name_l == target_l {
            Some(&sts[i])
        } else {
            find_subtarget_from(sts, target, i + 1)
        }
    }
}

/// The first subtarget of `sts` whose name names the current target.
pub fn find_subtarget_exec<'a>(sts: &'a Vec<Subtarget>, target: &str) -> (r: Option<&'a Subtarget>)
    ensures
        match r {
            Some(st) => find_subtarget(subtargets_view(sts@), target@) == Some(st@),
            None => find_subtarget(subtargets_view(sts@), target@) is None,
        },
{
    proof {
        assert(subtargets_view(sts@).skip(0) =~= subtargets_view(sts@));
    }
    find_subtarget_from(sts, target, 0)
}

} // verus!
