//! Unit Edit page: the create form.

use vstd::prelude::*;
use crate::text::{has_content, trimmed};

verus! {

/// UI state of the Unit Edit page (create form + transient error).
pub struct UnitUiState {
    pub new_name: String,
    pub new_strength: i32,
    pub new_agility: i32,
    pub new_focus: i32,
    pub new_intelligence: i32,
    pub new_charisma: i32,
    pub new_knowledge: i32,
    pub last_error: Option<String>,
}

impl Default for UnitUiState {
    /// An empty form with every stat at 0 and no error.
    fn default() -> (s: UnitUiState)
        ensures
            s.new_name@ == Seq::<char>::empty(),
            s.new_strength == 0,
            s.new_agility == 0,
            s.new_focus == 0,
            s.new_intelligence == 0,
            s.new_charisma == 0,
            s.new_knowledge == 0,
            s.last_error is None,
    {
        UnitUiState {
            new_name: String::new(),
            new_strength: 0,
            new_agility: 0,
            new_focus: 0,
            new_intelligence: 0,
            new_charisma: 0,
            new_knowledge: 0,
            last_error: None,
        }
    }
}

impl UnitUiState {
    /// A unit can be created once its name holds something besides white space.
    pub fn can_create(&self) -> (b: bool)
        ensures
            b == (trimmed(self.new_name@).len() > 0),
    {
        has_content(self.new_name.as_str())
    }

    /// Resets the create form after a unit was created: empty name, every
    /// stat at 0; the error line is left as it is.
    pub fn clear_create_form(&mut self)
        ensures
            final(self).new_name@ == Seq::<char>::empty(),
            final(self).new_strength == 0,
            final(self).new_agility == 0,
            final(self).new_focus == 0,
            final(self).new_intelligence == 0,
            final(self).new_charisma == 0,
            final(self).new_knowledge == 0,
            final(self).last_error == old(self).last_error,
    {
        self.new_name = String::new();
        self.new_strength = 0;
        self.new_agility = 0;
        self.new_focus = 0;
        self.new_intelligence = 0;
        self.new_charisma = 0;
        self.new_knowledge = 0;
    }
}

} // verus!
