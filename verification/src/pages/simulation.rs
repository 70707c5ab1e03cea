//! Simulation page: choosing a scenario and the loaded scenario.

use vstd::prelude::*;
use crate::models::scenario::EditableGrid;

pub use crate::pages::scenario_edit::NamedScenario;

verus! {

/// A scenario loaded from the database together with its grid.
#[derive(Debug, Clone)]
pub struct LoadedScenario {
    pub scenario_id: i64,
    pub scenario_name: String,
    pub scenario_description: String,
    pub grid: EditableGrid,
}

/// State of the Simulation page: the scenario list, the chosen and loaded
/// scenarios, and feedback lines.
pub struct SimulationUiState {
    pub cache_scenarios: Vec<NamedScenario>,
    pub selected_scenario_id: Option<i64>,
    pub loaded: Option<LoadedScenario>,
    pub last_error: Option<String>,
    pub last_info: Option<String>,
    pub did_initial_refresh: bool,
}

impl Default for SimulationUiState {
    /// Nothing listed, chosen or loaded, and the first refresh still to do.
    fn default() -> (s: SimulationUiState)
        ensures
            s.cache_scenarios@.len() == 0,
            s.selected_scenario_id is None,
            s.loaded is None,
            s.last_error is None,
            s.last_info is None,
            !s.did_initial_refresh,
    {
        SimulationUiState {
            cache_scenarios: Vec::new(),
            selected_scenario_id: None,
            loaded: None,
            last_error: None,
            last_info: None,
            did_initial_refresh: false,
        }
    }
}

impl SimulationUiState {
    /// Takes a freshly read scenario list; a chosen scenario that is no
    /// longer listed is unchosen.
    pub fn refresh_scenarios(&mut self, list: Vec<NamedScenario>)
        ensures
            final(self).cache_scenarios@ == list@,
            final(self).selected_scenario_id == (match old(self).selected_scenario_id {
                Some(id) => if exists|j: int| 0 <= j < list@.len() && list@[j].id == id {
                    Some(id)
                } else {
                    None
                },
                None => None,
            }),
            final(self).loaded == old(self).loaded,
            final(self).last_error == old(self).last_error,
            final(self).last_info == old(self).last_info,
            final(self).did_initial_refresh == old(self).did_initial_refresh,
    {
        let kept = retain_selection(self.selected_scenario_id, &list);
        self.cache_scenarios = list;
        self.selected_scenario_id = kept;
    }
}

/// The selection that survives a refresh of the scenario list: kept when a
/// listed scenario has the selected id, cleared otherwise.
pub fn retain_selection(selected: Option<i64>, list: &Vec<NamedScenario>) -> (r: Option<i64>)
    ensures
        r == (match selected {
            Some(id) => if exists|j: int| 0 <= j < list@.len() && list@[j].id == id {
                Some(id)
            } else {
                None
            },
            None => None,
        }),
{
    match selected {
        Some(id) => {
            let mut i: usize = 0;
            while i < list.len()
                invariant
                    i <= list.len(),
                    selected == Some(id),
                    forall|j: int| 0 <= j < i ==> list@[j].id != id,
                decreases list.len() - i,
            {
                if list[i].id == id {
                    assert(list@[i as int].id == id);
                    return Some(id);
                }
                i = i + 1;
            }
            None
        },
        None => None,
    }
}

} // verus!
