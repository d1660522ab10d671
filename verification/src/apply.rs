//! Applying a preset: the toggles that bring a snapshot of the library to the
//! preset, and what to make of the outcome of each rename.

use crate::error::LibraryError;
use crate::naming::{
    disabled_prefix, display_name, folder_name, folder_name_for, is_enabled_name,
    lemma_name_round_trip,
};
use crate::preset::{holds_id, Preset, PresetView};
use crate::record::{Mod, ModView};
use vstd::prelude::*;
use vstd::string::StringExecFns;

verus! {

/// One call of the activation toggler: bring the mod at `path` to the state
/// `enable` under its display name `name`, which makes `folder` the base name
/// of its directory.
#[derive(Debug, Clone, PartialEq, Eq)]
pub struct Toggle {
    pub path: String,
    pub name: String,
    pub enable: bool,
    pub folder: String,
}

/// The mathematical value of a [`Toggle`].
pub struct ToggleView {
    pub path: Seq<char>,
    pub name: Seq<char>,
    pub enable: bool,
    pub folder: Seq<char>,
}

impl View for Toggle {
    type V = ToggleView;

    open spec fn view(&self) -> ToggleView {
        ToggleView { path: self.path@, name: self.name@, enable: self.enable, folder: self.folder@ }
    }
}

impl DeepView for Toggle {
    type V = ToggleView;

    open spec fn deep_view(&self) -> ToggleView {
        self@
    }
}

/// Whether the preset wants the mod of this identifier enabled. A mod that
/// the preset does not list is to be disabled.
pub open spec fn should_enable(preset: PresetView, id: Seq<char>) -> bool {
    preset.enabled_mods.contains(id)
}

/// The toggle that the preset asks for a mod: none where the mod is in the
/// state that the preset wants, else one to the other state under the mod's
/// current display name.
pub open spec fn toggle_for(preset: PresetView, record: ModView) -> Option<ToggleView> {
    if record.enabled == should_enable(preset, record.id) {
        None
    } else {
        Some(
            ToggleView {
                path: record.path,
                name: record.name,
                enable: !record.enabled,
                folder: folder_name(record.name, !record.enabled),
            },
        )
    }
}

/// The rule by which a preset picks its toggles.
pub open spec fn toggle_rule(preset: PresetView) -> spec_fn(ModView) -> Option<ToggleView> {
    |record: ModView| toggle_for(preset, record)
}

/// The toggles that bring a snapshot to a preset, in snapshot order.
pub open spec fn apply_plan(preset: PresetView, snapshot: Seq<ModView>) -> Seq<ToggleView> {
    snapshot.filter_map(toggle_rule(preset))
}

/// Whether `after` is what a scan sees of the mod `before` once its directory
/// has been renamed for the state `enable`: the identifier, which the sidecar
/// keeps, is the same, and the name and the state are read from the new
/// directory name.
pub open spec fn seen_after_toggle(before: ModView, enable: bool, after: ModView) -> bool {
    &&& after.id == before.id
    &&& after.name == display_name(folder_name(before.name, enable))
    &&& after.enabled == is_enabled_name(folder_name(before.name, enable))
}

/// Whether `after` is a snapshot of the library once every toggle that the
/// preset asked for `before` has gone through.
pub open spec fn seen_after_apply(preset: PresetView, before: Seq<ModView>, after: Seq<ModView>) -> bool {
    &&& after.len() == before.len()
    &&& forall|i: int|
        0 <= i < before.len() ==> match toggle_for(preset, before[i]) {
            Some(toggle) => seen_after_toggle(before[i], toggle.enable, #[trigger] after[i]),
            None => after[i].id == before[i].id && after[i].enabled == before[i].enabled,
        }
}

/// A snapshot in which every mod is in the state that the preset wants needs
/// no toggle.
pub proof fn lemma_settled_needs_nothing(preset: PresetView, snapshot: Seq<ModView>)
    requires
        forall|i: int|
            0 <= i < snapshot.len() ==> (#[trigger] snapshot[i]).enabled == should_enable(
                preset,
                snapshot[i].id,
            ),
    ensures
        apply_plan(preset, snapshot) == Seq::<ToggleView>::empty(),
    decreases snapshot.len(),
{
    if snapshot.len() > 0 {
        lemma_settled_needs_nothing(preset, snapshot.drop_last());
    }
}

/// Idempotence: once a preset has been applied, applying it again asks for no
/// toggle, so the second run renames nothing and every directory keeps its
/// name. The one exception, left out here: a mod that the preset enables and
/// whose display name itself opens with the disabled prefix.
pub proof fn lemma_apply_idempotent(preset: PresetView, before: Seq<ModView>, after: Seq<ModView>)
    requires
        seen_after_apply(preset, before, after),
        forall|i: int|
            0 <= i < before.len() && should_enable(preset, (#[trigger] before[i]).id)
                ==> !disabled_prefix().is_prefix_of(before[i].name),
    ensures
        apply_plan(preset, after) == Seq::<ToggleView>::empty(),
{
    assert forall|i: int| 0 <= i < after.len() implies (#[trigger] after[i]).enabled
        == should_enable(preset, after[i].id) by {
        match toggle_for(preset, before[i]) {
            Some(toggle) => {
                lemma_name_round_trip(before[i].name, toggle.enable);
            },
            None => {},
        }
    }
    lemma_settled_needs_nothing(preset, after);
}

/// The toggles that bring a snapshot of the library to a preset, in snapshot
/// order. A mod that is in the state that the preset wants gets none.
pub fn plan_apply(preset: &Preset, snapshot: &Vec<Mod>) -> (toggles: Vec<Toggle>)
    ensures
        toggles.deep_view() == apply_plan(preset@, snapshot.deep_view()),
{
    let ghost records = snapshot.deep_view();
    let ghost rule = toggle_rule(preset@);
    let mut toggles: Vec<Toggle> = Vec::new();
    let mut i: usize = 0;
    while i < snapshot.len()
        invariant
            i <= snapshot.len(),
            records == snapshot.deep_view(),
            rule == toggle_rule(preset@),
            toggles.deep_view() == records.take(i as int).filter_map(rule),
        decreases snapshot.len() - i,
    {
        let record = &snapshot[i];
        let wanted = holds_id(&preset.enabled_mods, record.id.as_str());
        proof {
            records.lemma_filter_map_take_succ(rule, i as int);
        }
        if record.enabled != wanted {
            let toggle = Toggle {
                path: record.path.clone(),
                name: record.name.clone(),
                enable: !record.enabled,
                folder: folder_name_for(record.name.as_str(), !record.enabled),
            };
            toggles.push(toggle);
        }
        i += 1;
    }
    assert(records.take(snapshot.len() as int) =~= records);
    toggles
}

/// How the rename that a toggle asked for ended.
#[derive(Debug, Clone, PartialEq, Eq)]
pub enum RenameOutcome {
    /// The directory has its new name.
    Renamed,
    /// The directory was gone before it could be renamed.
    Vanished,
    /// The rename was refused: the new name is taken, or the system said no.
    Refused(String),
}

/// What is known of a rename before it is tried, given whether the directory
/// is still there and whether something lies under the new name: a directory
/// that is gone has vanished; a new name that is taken is a refusal, whatever
/// the system would make of the rename; else nothing is known, and the rename
/// is to be tried.
pub fn before_rename(source_is_directory: bool, target_exists: bool) -> (known: Option<
    RenameOutcome,
>)
    ensures
        !source_is_directory ==> known == Some(RenameOutcome::Vanished),
        source_is_directory && target_exists ==> (known matches Some(RenameOutcome::Refused(cause))
            && cause@ == "Target already exists"@),
        source_is_directory && !target_exists ==> known is None,
{
    if !source_is_directory {
        Some(RenameOutcome::Vanished)
    } else if target_exists {
        Some(RenameOutcome::Refused(String::from_str("Target already exists")))
    } else {
        None
    }
}

/// What an apply makes of the outcome of a rename: it goes on after a rename
/// that went through and after a directory that has vanished, and it stops
/// with `RenameFailed`, and the cause as its message, after a refusal. What
/// was renamed before stays renamed.
pub fn after_rename(outcome: RenameOutcome) -> (next: Result<(), LibraryError>)
    ensures
        match outcome {
            RenameOutcome::Refused(cause) => next == Err::<(), LibraryError>(
                LibraryError::RenameFailed(cause),
            ),
            _ => next is Ok,
        },
{
    match outcome {
        RenameOutcome::Renamed => Ok(()),
        RenameOutcome::Vanished => Ok(()),
        RenameOutcome::Refused(cause) => Err(LibraryError::RenameFailed(cause)),
    }
}

/// One application of a preset in progress: the toggles that were planned, how
/// many of them have been dealt with, and whether a refusal has stopped the
/// run. The caller asks for the next toggle, tries the rename, and reports how
/// it ended.
#[derive(Debug)]
pub struct ApplyRun {
    toggles: Vec<Toggle>,
    handled: usize,
    stopped: bool,
}

impl ApplyRun {
    /// What holds of every run that `begin` made: no more toggles are dealt
    /// with than were planned.
    pub closed spec fn well_formed(&self) -> bool {
        self.handled <= self.toggles.len()
    }

    /// The toggles that were planned, in order.
    pub closed spec fn plan(&self) -> Seq<ToggleView> {
        self.toggles.deep_view()
    }

    /// The number of toggles that have been dealt with: their directories are
    /// renamed or were gone. The toggles from there on are untouched.
    pub closed spec fn handled(&self) -> int {
        self.handled as int
    }

    /// Whether a refusal has stopped the run.
    pub closed spec fn stopped(&self) -> bool {
        self.stopped
    }

    /// Whether a toggle is waiting to be tried.
    pub open spec fn pending(&self) -> bool {
        !self.stopped() && self.handled() < self.plan().len()
    }

    /// Starts to apply a preset to a snapshot of the library.
    pub fn begin(preset: &Preset, snapshot: &Vec<Mod>) -> (run: ApplyRun)
        ensures
            run.well_formed(),
            run.plan() == apply_plan(preset@, snapshot.deep_view()),
            run.handled() == 0,
            !run.stopped(),
    {
        ApplyRun { toggles: plan_apply(preset, snapshot), handled: 0, stopped: false }
    }

    /// The toggle to try next: the first that has not been dealt with, or none
    /// where all have been or the run was stopped.
    pub fn next(&self) -> (toggle: Option<&Toggle>)
        requires
            self.well_formed(),
        ensures
            match toggle {
                Some(next) => self.pending() && next@ == self.plan()[self.handled()],
                None => !self.pending(),
            },
    {
        if !self.stopped && self.handled < self.toggles.len() {
            Some(&self.toggles[self.handled])
        } else {
            None
        }
    }

    /// Takes note of how the rename of the pending toggle ended. After a rename
    /// that went through and after a directory that has vanished the run moves
    /// on to the next toggle. After a refusal the run is stopped and fails with
    /// `RenameFailed`: the toggles dealt with so far stay as they are, and no
    /// further toggle is handed out.
    pub fn record(&mut self, outcome: RenameOutcome) -> (next: Result<(), LibraryError>)
        requires
            old(self).well_formed(),
            old(self).pending(),
        ensures
            final(self).well_formed(),
            final(self).plan() == old(self).plan(),
            match outcome {
                RenameOutcome::Refused(cause) => {
                    &&& next == Err::<(), LibraryError>(LibraryError::RenameFailed(cause))
                    &&& final(self).stopped()
                    &&& final(self).handled() == old(self).handled()
                },
                _ => {
                    &&& next is Ok
                    &&& !final(self).stopped()
                    &&& final(self).handled() == old(self).handled() + 1
                },
            },
    {
        match after_rename(outcome) {
            Ok(_) => {
                self.handled = self.handled + 1;
                Ok(())
            },
            Err(error) => {
                self.stopped = true;
                Err(error)
            },
        }
    }
}

} // verus!
