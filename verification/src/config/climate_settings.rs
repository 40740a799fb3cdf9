use vstd::prelude::*;
use crate::config::preset::{AwayMode, Preset, temp_for_mode};
use crate::schedule::ScheduleEntry;
use crate::state::{HvacMode, PresetName};

verus! {

/// Climate settings file
///
/// The climate settings is where you setup presets, create a weekly schedule
/// to switch preset, and setup "Away Mode" (activate "Away" preset when
/// thermostat does not detect movement for a period of time).
#[derive(Debug)]
pub struct ClimateSettings {
    pub presets: Vec<Preset>,
    pub away: Option<AwayMode>,
    pub schedule: Vec<ScheduleEntry>,
}

/// Index of the first preset named `name`, if any.
pub open spec fn first_named(presets: Seq<Preset>, name: PresetName) -> Option<int>
    decreases presets.len(),
{
    if presets.len() == 0 {
        None
    } else if presets[0].name == name {
        Some(0)
    } else {
        match first_named(presets.drop_first(), name) {
            Some(i) => Some(i + 1),
            None => None,
        }
    }
}

/// Temperature of the first preset named `name` for `mode`.
pub open spec fn preset_temp(presets: Seq<Preset>, name: PresetName, mode: HvacMode) -> Option<i32> {
    match first_named(presets, name) {
        Some(i) => temp_for_mode(presets[i].temp, mode),
        None => None,
    }
}

/// `first_named` finds the first preset of that name.
pub proof fn lemma_first_named(presets: Seq<Preset>, name: PresetName)
    ensures
        match first_named(presets, name) {
            Some(i) => 0 <= i < presets.len() && presets[i].name == name
                && forall|j: int| 0 <= j < i ==> presets[j].name != name,
            None => forall|j: int| 0 <= j < presets.len() ==> presets[j].name != name,
        },
    decreases presets.len(),
{
    if presets.len() > 0 && presets[0].name != name {
        lemma_first_named(presets.drop_first(), name);
        assert forall|j: int| 1 <= j < presets.len() implies presets[j] == presets.drop_first()[j - 1] by {}
    }
}

impl Default for ClimateSettings {
    fn default() -> (s: Self)
        ensures
            s.presets@.len() == 0,
            s.away is None,
            s.schedule@.len() == 0,
    {
        ClimateSettings { presets: Vec::new(), away: None, schedule: Vec::new() }
    }
}

impl ClimateSettings {
    pub fn get_preset_temp(&self, preset: &PresetName, mode: &HvacMode) -> (t: Option<i32>)
        ensures
            t == preset_temp(self.presets@, *preset, *mode),
    {
        find_preset_temp(&self.presets, preset, mode)
    }

    pub fn preset_names(&self) -> (names: Vec<PresetName>)
        ensures
            names@ == self.presets@.map_values(|p: Preset| p.name),
    {
        let mut names: Vec<PresetName> = Vec::new();
        let n = self.presets.len();
        for i in 0..n
            invariant
                n == self.presets@.len(),
                names@ == self.presets@.take(i as int).map_values(|p: Preset| p.name),
        {
            names.push(self.presets[i].name);
            assert(self.presets@.take(i + 1).drop_last() =~= self.presets@.take(i as int));
            assert(names@ =~= self.presets@.take(i + 1).map_values(|p: Preset| p.name));
        }
        assert(self.presets@.take(n as int) =~= self.presets@);
        names
    }
}

/// Temperature for `mode` of the first preset named `preset` in `presets`.
pub fn find_preset_temp(presets: &Vec<Preset>, preset: &PresetName, mode: &HvacMode) -> (t: Option<i32>)
    ensures
        t == preset_temp(presets@, *preset, *mode),
{
    proof {
        lemma_first_named(presets@, *preset);
    }
    let n = presets.len();
    for i in 0..n
        invariant
            n == presets@.len(),
            forall|j: int| 0 <= j < i ==> presets@[j].name != *preset,
            match first_named(presets@, *preset) {
                Some(k) => 0 <= k < n && presets@[k].name == *preset
                    && forall|j: int| 0 <= j < k ==> presets@[j].name != *preset,
                None => forall|j: int| 0 <= j < n ==> presets@[j].name != *preset,
            },
    {
        if presets[i].name == *preset {
            return presets[i].get_temp(mode);
        }
    }
    None
}

} // verus!
