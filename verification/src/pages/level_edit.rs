//! Level Edit page: the create form and the table's text previews.

use vstd::prelude::*;
use vstd::string::*;
use crate::text::{has_content, trim, trimmed};

verus! {

/// UI state of the Level Edit page (create form + transient error).
pub struct LevelUiState {
    pub new_name: String,
    pub new_strength: i32,
    pub new_agility: i32,
    pub new_focus: i32,
    pub new_intelligence: i32,
    pub new_charisma: i32,
    pub new_knowledge: i32,
    pub new_rules_description: String,
    pub new_flavor_description: String,
    pub last_error: Option<String>,
}

impl Default for LevelUiState {
    /// An empty form with every stat at 0 and no error.
    fn default() -> (s: LevelUiState)
        ensures
            s.new_name@ == Seq::<char>::empty(),
            s.new_strength == 0,
            s.new_agility == 0,
            s.new_focus == 0,
            s.new_intelligence == 0,
            s.new_charisma == 0,
            s.new_knowledge == 0,
            s.new_rules_description@ == Seq::<char>::empty(),
            s.new_flavor_description@ == Seq::<char>::empty(),
            s.last_error is None,
    {
        LevelUiState {
            new_name: String::new(),
            new_strength: 0,
            new_agility: 0,
            new_focus: 0,
            new_intelligence: 0,
            new_charisma: 0,
            new_knowledge: 0,
            new_rules_description: String::new(),
            new_flavor_description: String::new(),
            last_error: None,
        }
    }
}

impl LevelUiState {
    /// A level can be created once its name holds something besides white space.
    pub fn can_create(&self) -> (b: bool)
        ensures
            b == (trimmed(self.new_name@).len() > 0),
    {
        has_content(self.new_name.as_str())
    }

    /// Resets the create form after a level was created: empty texts, every
    /// stat at 0; the error line is left as it is.
    pub fn clear_create_form(&mut self)
        ensures
            final(self).new_name@ == Seq::<char>::empty(),
            final(self).new_strength == 0,
            final(self).new_agility == 0,
            final(self).new_focus == 0,
            final(self).new_intelligence == 0,
            final(self).new_charisma == 0,
            final(self).new_knowledge == 0,
            final(self).new_rules_description@ == Seq::<char>::empty(),
            final(self).new_flavor_description@ == Seq::<char>::empty(),
            final(self).last_error == old(self).last_error,
    {
        self.new_name = String::new();
        self.new_strength = 0;
        self.new_agility = 0;
        self.new_focus = 0;
        self.new_intelligence = 0;
        self.new_charisma = 0;
        self.new_knowledge = 0;
        self.new_rules_description = String::new();
        self.new_flavor_description = String::new();
    }
}

/// The ellipsis that marks a shortened preview.
pub open spec fn ellipsis() -> char {
    '\u{2026}'
}

/// The preview of a text: the text without leading and trailing white space,
/// shortened to its first `max_chars` characters followed by an ellipsis when
/// it is longer than that.
pub open spec fn preview(s: Seq<char>, max_chars: nat) -> Seq<char> {
    let t = trimmed(s);
    if t.len() <= max_chars {
        t
    } else {
        t.subrange(0, max_chars as int).push(ellipsis())
    }
}

/// A preview is never more than one character longer than `max_chars`: the
/// trimmed text itself when it fits, else exactly `max_chars` leading
/// characters of the trimmed text followed by an ellipsis.
pub proof fn lemma_preview_shape(s: Seq<char>, max_chars: nat)
    ensures
        preview(s, max_chars).len() <= max_chars + 1,
        trimmed(s).len() <= max_chars ==> preview(s, max_chars) == trimmed(s),
        trimmed(s).len() > max_chars ==> {
            &&& preview(s, max_chars).len() == max_chars + 1
            &&& preview(s, max_chars)[max_chars as int] == '\u{2026}'
            &&& forall|k: int| 0 <= k < max_chars ==> #[trigger] preview(s, max_chars)[k] == trimmed(s)[k]
        },
{
}

/// A compact preview of a long text for a table cell.
pub fn truncate_preview(s: &str, max_chars: usize) -> (out: String)
    ensures
        out@ == preview(s@, max_chars as nat),
{
    let t = trim(s);
    let n = t.unicode_len();
    if n <= max_chars {
        return String::from_str(t);
    }
    let head = t.substring_char(0, max_chars);
    let mut out = String::from_str(head);
    out.append("\u{2026}");
    proof {
        reveal_strlit("\u{2026}");
    }
    out
}

} // verus!
