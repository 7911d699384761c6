//! Focus Mode suppression state.
//!
//! When Focus Mode is active for a project, notifications from specified apps
//! are demoted to `Suppress` (stored but no toast). Critical notifications
//! always pass through.

use crate::text::{list_contains, texts};
use vstd::prelude::*;

verus! {

/// The Unicode lower-case form of a text, as std's `str::to_lowercase` gives it.
pub uninterp spec fn lowercase_text(text: Seq<char>) -> Seq<char>;

/// `str::to_lowercase`: the Unicode lower-case form of a text. The result is a
/// function of the text, named [`lowercase_text`].
pub assume_specification[ str::to_lowercase ](s: &str) -> (r: String)
    ensures
        r@ == lowercase_text(s@),
;

/// Ephemeral focus suppression state (not persisted).
#[derive(Debug)]
pub struct FocusSuppression {
    /// Project UUID when focus is active, `None` otherwise.
    active_project_id: Option<String>,
    /// App identifiers to suppress, in lower case, each of them once.
    suppressed_apps: Vec<String>,
}

/// The content of a [`FocusSuppression`].
pub struct FocusView {
    /// The active project, if focus is active.
    pub project: Option<Seq<char>>,
    /// The suppressed apps, in lower case.
    pub apps: Set<Seq<char>>,
}

impl FocusView {
    /// No project, no suppressed app.
    pub open spec fn inactive() -> FocusView {
        FocusView { project: None, apps: Set::empty() }
    }

    /// Focus on a project, with the apps of a list suppressed.
    pub open spec fn on(project: Seq<char>, apps: Seq<Seq<char>>) -> FocusView {
        FocusView {
            project: Some(project),
            apps: apps.map_values(|a: Seq<char>| lowercase_text(a)).to_set(),
        }
    }

    /// Whether focus is active and suppresses an app. Names are compared by
    /// their lower-case forms.
    pub open spec fn suppresses(self, app_name: Seq<char>) -> bool {
        self.project is Some && self.apps.contains(lowercase_text(app_name))
    }
}

impl View for FocusSuppression {
    type V = FocusView;

    closed spec fn view(&self) -> FocusView {
        FocusView {
            project: match self.active_project_id {
                Some(p) => Some(p@),
                None => None,
            },
            apps: texts(self.suppressed_apps@).to_set(),
        }
    }
}

impl Default for FocusSuppression {
    fn default() -> (r: Self)
        ensures
            r@ == FocusView::inactive(),
    {
        let r = FocusSuppression { active_project_id: None, suppressed_apps: Vec::new() };
        assert(texts(r.suppressed_apps@).to_set() =~= Set::<Seq<char>>::empty());
        r
    }
}

impl FocusSuppression {
    #[verifier::type_invariant]
    spec fn well_formed(self) -> bool {
        texts(self.suppressed_apps@).no_duplicates()
    }

    /// Activate focus suppression, in place of any earlier activation.
    pub fn activate(&mut self, project_id: String, suppress_apps: Vec<String>)
        ensures
            final(self)@ == FocusView::on(project_id@, texts(suppress_apps@)),
    {
        let mut apps: Vec<String> = Vec::new();
        let ghost lower = texts(suppress_apps@).map_values(|a: Seq<char>| lowercase_text(a));
        let mut i: usize = 0;
        assert(texts(apps@).to_set() =~= lower.take(0).to_set());
        while i < suppress_apps.len()
            invariant
                i <= suppress_apps@.len(),
                lower == texts(suppress_apps@).map_values(|a: Seq<char>| lowercase_text(a)),
                texts(apps@).no_duplicates(),
                texts(apps@).to_set() == lower.take(i as int).to_set(),
            decreases suppress_apps@.len() - i,
        {
            let name: String = suppress_apps[i].as_str().to_lowercase();
            let ghost before = apps@;
            proof {
                assert(lower[i as int] == name@);
                let whole = lower.take(i + 1);
                assert(whole =~= lower.take(i as int).push(name@));
                lemma_push_to_set(lower.take(i as int), name@);
            }
            if !list_contains(&apps, name.as_str()) {
                let ghost text = name@;
                apps.push(name);
                proof {
                    assert(texts(apps@) =~= texts(before).push(text));
                    lemma_push_to_set(texts(before), text);
                }
            } else {
                assert(texts(apps@).to_set().contains(name@));
                assert(texts(apps@).to_set().insert(name@) =~= texts(apps@).to_set());
            }
            i += 1;
        }
        assert(lower.take(i as int) =~= lower);
        self.suppressed_apps = apps;
        self.active_project_id = Some(project_id);
    }

    /// Deactivate focus suppression.
    pub fn deactivate(&mut self)
        ensures
            final(self)@ == FocusView::inactive(),
    {
        self.suppressed_apps = Vec::new();
        self.active_project_id = None;
        assert(texts(self.suppressed_apps@).to_set() =~= Set::<Seq<char>>::empty());
    }

    /// Whether focus mode is active.
    pub fn is_active(&self) -> (r: bool)
        ensures
            r == self@.project is Some,
    {
        self.active_project_id.is_some()
    }

    /// Whether `app_name` is suppressed by the current focus session.
    ///
    /// Matching is case-insensitive. Returns `false` when focus is inactive.
    pub fn is_suppressed(&self, app_name: &str) -> (r: bool)
        ensures
            r == self@.suppresses(app_name@),
    {
        if !self.is_active() {
            return false;
        }
        let name: String = app_name.to_lowercase();
        list_contains(&self.suppressed_apps, name.as_str())
    }

    /// The number of suppressed apps.
    pub fn suppressed_app_count(&self) -> (r: usize)
        ensures
            r == self@.apps.len(),
    {
        proof {
            use_type_invariant(self);
            texts(self.suppressed_apps@).unique_seq_to_set();
        }
        self.suppressed_apps.len()
    }
}

/// The elements of a sequence with one more at its end.
proof fn lemma_push_to_set(s: Seq<Seq<char>>, x: Seq<char>)
    ensures
        s.push(x).to_set() == s.to_set().insert(x),
{
    let longer = s.push(x);
    assert forall|y: Seq<char>| #[trigger] longer.to_set().contains(y) == s.to_set().insert(
        x,
    ).contains(y) by {
        if longer.contains(y) && y != x {
            let i = longer.index_of(y);
            assert(s[i] == y);
        }
        if s.contains(y) {
            let i = s.index_of(y);
            assert(longer[i] == y);
        }
        assert(longer[s.len() as int] == x);
    }
    assert(longer.to_set() =~= s.to_set().insert(x));
}

/// Focus matching ignores case: two names with the same lower-case form are
/// suppressed together or not at all.
pub proof fn focus_ignores_case(focus: FocusView, a: Seq<char>, b: Seq<char>)
    requires
        lowercase_text(a) == lowercase_text(b),
    ensures
        focus.suppresses(a) == focus.suppresses(b),
{
}

/// Inactive focus suppresses nothing.
pub proof fn inactive_focus_suppresses_nothing(app_name: Seq<char>)
    ensures
        !FocusView::inactive().suppresses(app_name),
{
}

/// Active focus suppresses exactly the apps of its list, up to case.
pub proof fn focus_suppresses_listed_apps(
    project: Seq<char>,
    apps: Seq<Seq<char>>,
    app_name: Seq<char>,
)
    ensures
        FocusView::on(project, apps).suppresses(app_name) <==> exists|i: int|
            0 <= i < apps.len() && lowercase_text(#[trigger] apps[i]) == lowercase_text(app_name),
{
    let lower = apps.map_values(|a: Seq<char>| lowercase_text(a));
    let wanted = lowercase_text(app_name);
    if lower.contains(wanted) {
        let i = lower.index_of(wanted);
        assert(lowercase_text(apps[i]) == wanted);
    }
    if exists|i: int| 0 <= i < apps.len() && lowercase_text(#[trigger] apps[i]) == wanted {
        let i = choose|i: int| 0 <= i < apps.len() && lowercase_text(#[trigger] apps[i]) == wanted;
        assert(lower[i] == wanted);
    }
}

/// A focus session is on its project and holds the lower-case forms of the apps
/// of its list, and no others.
pub proof fn session_holds_its_project_and_apps(
    project: Seq<char>,
    apps: Seq<Seq<char>>,
    name: Seq<char>,
)
    ensures
        FocusView::on(project, apps).project == Some(project),
        FocusView::on(project, apps).apps.contains(name) <==> exists|i: int|
            0 <= i < apps.len() && lowercase_text(#[trigger] apps[i]) == name,
        FocusView::inactive().project is None,
        !FocusView::inactive().apps.contains(name),
{
    let lower = apps.map_values(|a: Seq<char>| lowercase_text(a));
    if lower.contains(name) {
        let i = lower.index_of(name);
        assert(lowercase_text(apps[i]) == name);
    }
    if exists|i: int| 0 <= i < apps.len() && lowercase_text(#[trigger] apps[i]) == name {
        let i = choose|i: int| 0 <= i < apps.len() && lowercase_text(#[trigger] apps[i]) == name;
        assert(lower[i] == name);
    }
}

} // verus!
