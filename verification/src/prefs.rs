//! Editor preferences that the application owns.
//!
//! Dock geometry and viewport rendering belong to the layers that define them;
//! they are carried here as they come.
use vstd::prelude::*;

use crate::paths::{AppPath, PathPart};

verus! {

/// Persisted preferences: dock geometry, workspace and viewport rendering.
#[derive(Debug)]
pub struct EditorPrefs<L, V> {
    pub layout: L,
    /// The task workspace to open in.
    pub preferred_workspace: String,
    /// Creating an entity may switch to its home workspace.
    pub auto_switch_workspace_on_create: bool,
    pub viewport_render: V,
}

/// The workspace of a first start.
pub fn default_preferred_workspace() -> (r: String)
    ensures
        r@ == "sculpt"@,
{
    "sculpt".to_owned()
}

impl<L, V> EditorPrefs<L, V> {
    /// The preferences of a first start: the sculpt workspace, which the editor
    /// does not leave by itself.
    pub open spec fn is_default(self, layout: L, viewport_render: V) -> bool {
        &&& self.layout == layout
        &&& self.preferred_workspace@ == "sculpt"@
        &&& !self.auto_switch_workspace_on_create
        &&& self.viewport_render == viewport_render
    }

    pub fn with_defaults(layout: L, viewport_render: V) -> (r: Self)
        ensures
            r.is_default(layout, viewport_render),
    {
        EditorPrefs {
            layout,
            preferred_workspace: default_preferred_workspace(),
            auto_switch_workspace_on_create: false,
            viewport_render,
        }
    }

    /// The preferences to start with: what was read, else the defaults. A file
    /// that cannot be read and one that cannot be parsed are the same.
    pub fn loaded(parsed: Option<Self>, layout: L, viewport_render: V) -> (r: Self)
        ensures
            match parsed {
                Some(prefs) => r == prefs,
                None => r.is_default(layout, viewport_render),
            },
    {
        match parsed {
            Some(prefs) => prefs,
            None => Self::with_defaults(layout, viewport_render),
        }
    }
}

/// Where the preferences are kept: in the current directory, or in `.` where
/// that is unknown.
pub fn editor_prefs_path(current: Option<AppPath>) -> (r: AppPath)
    ensures
        r@ == (match current {
            Some(path) => path@,
            None => seq![crate::paths::Part::Current],
        }).push(crate::paths::Part::Normal("terra_layout.json"@)),
{
    match current {
        Some(path) => path.join("terra_layout.json"),
        None => {
            let mut parts: Vec<PathPart> = Vec::new();
            parts.push(PathPart::Current);
            let here = AppPath { parts };
            assert(here@ =~= seq![crate::paths::Part::Current]);
            here.join("terra_layout.json")
        },
    }
}

/// What was read is used as it is; without it the editor opens in the sculpt workspace
/// and stays there.
pub proof fn read_preferences_are_used<L, V>(
    parsed: Option<EditorPrefs<L, V>>,
    layout: L,
    viewport_render: V,
    prefs: EditorPrefs<L, V>,
)
    requires
        call_ensures(EditorPrefs::<L, V>::loaded, (parsed, layout, viewport_render), prefs),
    ensures
        parsed matches Some(read) ==> prefs == read,
        parsed is None ==> prefs.preferred_workspace@ == "sculpt"@
            && !prefs.auto_switch_workspace_on_create && prefs.layout == layout
            && prefs.viewport_render == viewport_render,
{
}

/// The preferences lie in the current directory, under their own name.
pub proof fn preferences_lie_in_the_current_directory(current: Option<AppPath>, path: AppPath)
    requires
        call_ensures(editor_prefs_path, (current,), path),
    ensures
        path@.last() == crate::paths::Part::Normal("terra_layout.json"@),
        current matches Some(here) ==> path@.drop_last() == here@,
        current is None ==> path@.drop_last() == seq![crate::paths::Part::Current],
{
    match current {
        Some(here) => {
            assert(path@.drop_last() =~= here@);
        },
        None => {
            assert(path@.drop_last() =~= seq![crate::paths::Part::Current]);
        },
    }
}

} // verus!
