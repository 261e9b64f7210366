//! The user profile tool: what the agent remembers of a user, and how a
//! request changes it.  Profiles are loaded and saved outside this crate.
use vstd::prelude::*;
pub use crate::tags::extract_tag;
use crate::models::{tool_error, ToolError};
use crate::params::or_default;
use crate::tags::{extract_tag_chars, spec_extract_tag};
use crate::text::{
    append_str, chars_of, find, find_exec, owned, slice_copy, str_eq, string_of, strip,
    strip_exec, tail, trim, trim_exec, CharClass,
};

verus! {

/// What the agent remembers of a user.
pub struct UserPreferences {
    pub name: Option<String>,
    pub hobbies: Vec<String>,
    pub topics_of_interest: Vec<String>,
    pub narrative_history: String,
    pub psychoanalysis: String,
}

/// The abstract value of [`UserPreferences`].
pub struct PreferencesV {
    pub name: Option<Seq<char>>,
    pub hobbies: Seq<Seq<char>>,
    pub topics_of_interest: Seq<Seq<char>>,
    pub narrative_history: Seq<char>,
    pub psychoanalysis: Seq<char>,
}

pub open spec fn strs(v: Seq<String>) -> Seq<Seq<char>> {
    v.map_values(|s: String| s@)
}

impl View for UserPreferences {
    type V = PreferencesV;

    open spec fn view(&self) -> PreferencesV {
        PreferencesV {
            name: match self.name {
                Some(n) => Some(n@),
                None => None,
            },
            hobbies: strs(self.hobbies@),
            topics_of_interest: strs(self.topics_of_interest@),
            narrative_history: self.narrative_history@,
            psychoanalysis: self.psychoanalysis@,
        }
    }
}

/// A change to a profile.
#[derive(Clone, Copy, Debug, PartialEq, Eq, Structural)]
pub enum PreferenceAction {
    UpdateName,
    AddHobby,
    AddTopic,
    UpdateNarrative,
    UpdatePsychoanalysis,
}

pub const MISSING_ACTION_TEXT: &'static str = "Error: Missing `action:` tag. Valid actions are: update_name, add_hobby, add_topic, update_narrative, update_psychoanalysis";

/// The value of a request: everything after `value:`, trimmed, then stripped
/// of brackets.
pub open spec fn spec_pref_value(desc: Seq<char>) -> Option<Seq<char>> {
    match find(desc, "value:"@) {
        Some(i) => Some(strip(trim(tail(desc, i + 6)), CharClass::Bracket)),
        None => None,
    }
}

/// The action a name selects.
pub open spec fn spec_pref_action(a: Seq<char>) -> Option<PreferenceAction> {
    if a == "update_name"@ {
        Some(PreferenceAction::UpdateName)
    } else if a == "add_hobby"@ {
        Some(PreferenceAction::AddHobby)
    } else if a == "add_topic"@ {
        Some(PreferenceAction::AddTopic)
    } else if a == "update_narrative"@ {
        Some(PreferenceAction::UpdateNarrative)
    } else if a == "update_psychoanalysis"@ {
        Some(PreferenceAction::UpdatePsychoanalysis)
    } else {
        None
    }
}

/// The change `desc` asks for: refused without an action, without a value,
/// or for an unknown action.
pub open spec fn spec_pref_request(desc: Seq<char>) -> Result<(PreferenceAction, Seq<char>), (Seq<char>, Seq<char>)> {
    let action = or_default(spec_extract_tag(desc, "action:"@), Seq::empty());
    if action.len() == 0 {
        Err((MISSING_ACTION_TEXT@, "Missing action"@))
    } else {
        match spec_pref_value(desc) {
            None => Err(("Error: Missing `value:` tag payload."@, "Missing value"@)),
            Some(v) => match spec_pref_action(action) {
                Some(a) => Ok((a, v)),
                None => Err(("Error: Unknown action '"@ + action + "'."@, "Invalid action"@)),
            },
        }
    }
}

/// The profile change that `desc` asks for.
pub fn parse_pref_request(desc: &str) -> (r: Result<(PreferenceAction, String), ToolError>)
    ensures
        match spec_pref_request(desc@) {
            Ok((a, v)) => r matches Ok((x, y)) && x == a && y@ == v,
            Err((o, m)) => r matches Err(e) && e.output@ == o && e.reason@ == m,
        },
{
    let dv = chars_of(desc);
    let d = dv.as_slice();
    let g = chars_of("action:");
    let action: Vec<char> = match extract_tag_chars(d, g.as_slice()) {
        Some(a) => a,
        None => Vec::new(),
    };
    if action.len() == 0 {
        return Err(tool_error(MISSING_ACTION_TEXT, "Missing action"));
    }
    let m = chars_of("value:");
    let value = match find_exec(d, m.as_slice()) {
        Some(i) => {
            assert(i + 6 <= d@.len() && d@.len() == d.len()) by {
                reveal_strlit("value:");
            }
            let rest = slice_copy(d, i + 6, d.len());
            assert(rest@ =~= tail(d@, i + 6));
            let t = trim_exec(rest.as_slice());
            strip_exec(t.as_slice(), CharClass::Bracket)
        },
        None => return Err(tool_error("Error: Missing `value:` tag payload.", "Missing value")),
    };
    let a = string_of(action.as_slice());
    let s = a.as_str();
    let act = if str_eq(s, "update_name") {
        PreferenceAction::UpdateName
    } else if str_eq(s, "add_hobby") {
        PreferenceAction::AddHobby
    } else if str_eq(s, "add_topic") {
        PreferenceAction::AddTopic
    } else if str_eq(s, "update_narrative") {
        PreferenceAction::UpdateNarrative
    } else if str_eq(s, "update_psychoanalysis") {
        PreferenceAction::UpdatePsychoanalysis
    } else {
        let mut o: Vec<char> = Vec::new();
        append_str(&mut o, "Error: Unknown action '");
        append_str(&mut o, s);
        append_str(&mut o, "'.");
        return Err(ToolError { output: string_of(o.as_slice()), reason: owned("Invalid action") });
    };
    Ok((act, string_of(value.as_slice())))
}

/// `list` with `v` added at the end unless it is already there.
pub open spec fn add_once(list: Seq<Seq<char>>, v: Seq<char>) -> Seq<Seq<char>> {
    if list.contains(v) {
        list
    } else {
        list.push(v)
    }
}

/// A profile after a change, and the answer to it.
pub open spec fn spec_apply_pref(p: PreferencesV, a: PreferenceAction, v: Seq<char>) -> (PreferencesV, Seq<char>) {
    match a {
        PreferenceAction::UpdateName => (
            PreferencesV { name: Some(v), ..p },
            "User name updated to: "@ + v,
        ),
        PreferenceAction::AddHobby => (
            PreferencesV { hobbies: add_once(p.hobbies, v), ..p },
            if p.hobbies.contains(v) {
                "Hobby already exists: "@ + v
            } else {
                "Hobby added: "@ + v
            },
        ),
        PreferenceAction::AddTopic => (
            PreferencesV { topics_of_interest: add_once(p.topics_of_interest, v), ..p },
            if p.topics_of_interest.contains(v) {
                "Topic already exists: "@ + v
            } else {
                "Topic of interest added: "@ + v
            },
        ),
        PreferenceAction::UpdateNarrative => (
            PreferencesV { narrative_history: v, ..p },
            "Narrative history overwritten/updated."@,
        ),
        PreferenceAction::UpdatePsychoanalysis => (
            PreferencesV { psychoanalysis: v, ..p },
            "Psychological profile updated."@,
        ),
    }
}

fn holds_value(list: &Vec<String>, v: &str) -> (r: bool)
    ensures
        r == strs(list@).contains(v@),
{
    let mut i: usize = 0;
    while i < list.len()
        invariant
            i <= list@.len(),
            forall|k: int| 0 <= k < i ==> strs(list@)[k] != v@,
        decreases list.len() - i,
    {
        if str_eq(list[i].as_str(), v) {
            assert(strs(list@)[i as int] == v@);
            return true;
        }
        i = i + 1;
    }
    false
}

fn add_value(list: &mut Vec<String>, v: &str) -> (added: bool)
    ensures
        strs(final(list)@) == add_once(strs(old(list)@), v@),
        added == !strs(old(list)@).contains(v@),
{
    if holds_value(list, v) {
        false
    } else {
        let ghost before = list@;
        list.push(owned(v));
        assert(strs(list@) =~= strs(before).push(v@));
        true
    }
}

fn said(prefix: &str, v: &str) -> (r: String)
    ensures
        r@ == prefix@ + v@,
{
    let mut o = chars_of(prefix);
    append_str(&mut o, v);
    string_of(o.as_slice())
}

/// Apply a change to a profile; the answer to it.
pub fn apply_preference(prefs: &mut UserPreferences, action: PreferenceAction, value: &str) -> (r: String)
    ensures
        final(prefs)@ == spec_apply_pref(old(prefs)@, action, value@).0,
        r@ == spec_apply_pref(old(prefs)@, action, value@).1,
{
    match action {
        PreferenceAction::UpdateName => {
            prefs.name = Some(owned(value));
            said("User name updated to: ", value)
        },
        PreferenceAction::AddHobby => {
            if add_value(&mut prefs.hobbies, value) {
                said("Hobby added: ", value)
            } else {
                said("Hobby already exists: ", value)
            }
        },
        PreferenceAction::AddTopic => {
            if add_value(&mut prefs.topics_of_interest, value) {
                said("Topic of interest added: ", value)
            } else {
                said("Topic already exists: ", value)
            }
        },
        PreferenceAction::UpdateNarrative => {
            prefs.narrative_history = owned(value);
            owned("Narrative history overwritten/updated.")
        },
        PreferenceAction::UpdatePsychoanalysis => {
            prefs.psychoanalysis = owned(value);
            owned("Psychological profile updated.")
        },
    }
}

/// Applying the same change twice leaves the profile as applying it once:
/// a hobby or topic is never recorded twice.
pub proof fn law_preference_change_idempotent(p: PreferencesV, a: PreferenceAction, v: Seq<char>)
    ensures
        spec_apply_pref(spec_apply_pref(p, a, v).0, a, v).0 == spec_apply_pref(p, a, v).0,
{
    match a {
        PreferenceAction::AddHobby => {
            if !p.hobbies.contains(v) {
                assert(p.hobbies.push(v)[p.hobbies.len() as int] == v);
            }
        },
        PreferenceAction::AddTopic => {
            if !p.topics_of_interest.contains(v) {
                assert(p.topics_of_interest.push(v)[p.topics_of_interest.len() as int] == v);
            }
        },
        _ => {},
    }
}

/// Adding a value to a list without repeats keeps it without repeats, and the
/// value is then in it.
pub proof fn law_add_once_no_repeats(list: Seq<Seq<char>>, v: Seq<char>)
    requires
        list.no_duplicates(),
    ensures
        add_once(list, v).no_duplicates(),
        add_once(list, v).contains(v),
{
    if !list.contains(v) {
        let l = list.push(v);
        assert(l[list.len() as int] == v);
        assert forall|i: int, j: int| 0 <= i < l.len() && 0 <= j < l.len() && i != j implies l[i] != l[j] by {
            if i < list.len() && j < list.len() {
            } else if i == list.len() {
                assert(l[j] == list[j]);
            } else {
                assert(l[i] == list[i]);
            }
        }
    }
}

} // verus!
