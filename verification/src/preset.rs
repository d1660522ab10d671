//! The preset engine: named sets of mods that should be enabled, kept in one
//! store for the whole library, and the plan that brings the library to a preset.

use crate::error::{is_failure, ErrorKind, LibraryError};
use crate::ident::{is_generated, random_identifier};
use vstd::prelude::*;
use vstd::string::StringExecFns;

verus! {

/// The name of the preset file inside the library root.
pub const PRESETS_FILE_NAME: &'static str = "presets.json";

/// A named target state of the library: the mods listed are enabled, every
/// other mod is disabled.
#[derive(Debug, Clone, PartialEq, Eq)]
pub struct Preset {
    pub name: String,
    /// The identifiers of the mods that are enabled in this preset.
    pub enabled_mods: Vec<String>,
}

/// The mathematical value of a [`Preset`].
pub struct PresetView {
    pub name: Seq<char>,
    pub enabled_mods: Seq<Seq<char>>,
}

impl View for Preset {
    type V = PresetView;

    open spec fn view(&self) -> PresetView {
        PresetView { name: self.name@, enabled_mods: self.enabled_mods.deep_view() }
    }
}

impl DeepView for Preset {
    type V = PresetView;

    open spec fn deep_view(&self) -> PresetView {
        self@
    }
}

/// A preset with the identifier that the store keeps it under.
#[derive(Debug, Clone, PartialEq, Eq)]
pub struct PresetEntry {
    pub id: String,
    pub preset: Preset,
}

/// The presets of a library, each under its identifier. No identifier occurs
/// twice.
#[derive(Debug, Clone, PartialEq, Eq)]
pub struct PresetStore {
    entries: Vec<PresetEntry>,
}

/// Whether entry `at` of `entries` is kept under `id`.
pub open spec fn kept_under(entries: Seq<PresetEntry>, id: Seq<char>, at: int) -> bool {
    0 <= at < entries.len() && entries[at].id@ == id
}

/// Whether no identifier occurs twice in `entries`.
pub open spec fn distinct_ids(entries: Seq<PresetEntry>) -> bool {
    forall|i: int, j: int|
        0 <= i < j < entries.len() ==> (#[trigger] entries[i]).id@ != (#[trigger] entries[j]).id@
}

/// The presets of `entries`, each under its identifier.
pub open spec fn presets_of(entries: Seq<PresetEntry>) -> Map<Seq<char>, PresetView> {
    Map::new(
        |id: Seq<char>| exists|at: int| kept_under(entries, id, at),
        |id: Seq<char>| entries[choose|at: int| kept_under(entries, id, at)].preset@,
    )
}

/// Whether a preset of this name is among `presets`.
pub open spec fn has_name(presets: Map<Seq<char>, PresetView>, name: Seq<char>) -> bool {
    exists|id: Seq<char>| #[trigger] presets.contains_key(id) && presets[id].name == name
}

/// A copy of a list of texts.
pub fn copy_texts(texts: &Vec<String>) -> (copy: Vec<String>)
    ensures
        copy.deep_view() == texts.deep_view(),
{
    let mut copy: Vec<String> = Vec::new();
    let mut i: usize = 0;
    while i < texts.len()
        invariant
            i <= texts.len(),
            copy.len() == i,
            forall|k: int| 0 <= k < i ==> copy[k]@ == texts[k]@,
        decreases texts.len() - i,
    {
        copy.push(texts[i].clone());
        i += 1;
    }
    copy
}

/// Whether `id` is among `ids`.
pub fn holds_id(ids: &Vec<String>, id: &str) -> (found: bool)
    ensures
        found == ids.deep_view().contains(id@),
{
    let wanted = String::from_str(id);
    let mut i: usize = 0;
    while i < ids.len()
        invariant
            i <= ids.len(),
            wanted@ == id@,
            forall|k: int| 0 <= k < i ==> ids.deep_view()[k] != id@,
        decreases ids.len() - i,
    {
        if ids[i] == wanted {
            assert(ids.deep_view()[i as int] == id@);
            return true;
        }
        i += 1;
    }
    false
}

impl Preset {
    /// A copy of this preset.
    pub fn duplicate(&self) -> (copy: Preset)
        ensures
            copy@ == self@,
    {
        Preset { name: self.name.clone(), enabled_mods: copy_texts(&self.enabled_mods) }
    }
}

impl View for PresetStore {
    type V = Map<Seq<char>, PresetView>;

    closed spec fn view(&self) -> Map<Seq<char>, PresetView> {
        presets_of(self.entries@)
    }
}

impl PresetStore {
    /// What holds of every store that this library made: no identifier occurs
    /// twice in it.
    pub closed spec fn well_formed(&self) -> bool {
        distinct_ids(self.entries@)
    }

    /// The store without a preset.
    pub fn new() -> (store: PresetStore)
        ensures
            store.well_formed(),
            store@ == Map::<Seq<char>, PresetView>::empty(),
    {
        let store = PresetStore { entries: Vec::new() };
        store
    }

    /// What was read from the preset file, or the empty store where nothing
    /// could be read.
    pub fn or_empty(loaded: Option<PresetStore>) -> (store: PresetStore)
        requires
            loaded matches Some(read) ==> read.well_formed(),
        ensures
            store.well_formed(),
            store@ == (match loaded {
                Some(read) => read@,
                None => Map::<Seq<char>, PresetView>::empty(),
            }),
    {
        match loaded {
            Some(read) => read,
            None => PresetStore::new(),
        }
    }

    /// The place of the preset kept under `id`.
    fn position(&self, id: &str) -> (place: Option<usize>)
        ensures
            match place {
                Some(at) => kept_under(self.entries@, id@, at as int),
                None => forall|at: int| !kept_under(self.entries@, id@, at),
            },
    {
        let wanted = String::from_str(id);
        let mut i: usize = 0;
        while i < self.entries.len()
            invariant
                i <= self.entries.len(),
                wanted@ == id@,
                forall|at: int| 0 <= at < i ==> !kept_under(self.entries@, id@, at),
            decreases self.entries.len() - i,
        {
            if self.entries[i].id == wanted {
                return Some(i);
            }
            i += 1;
        }
        None
    }

    /// In a store where no identifier occurs twice, the preset under an
    /// identifier is the one at the place where the identifier is kept.
    proof fn lemma_kept(entries: Seq<PresetEntry>, id: Seq<char>, at: int)
        requires
            distinct_ids(entries),
            kept_under(entries, id, at),
        ensures
            presets_of(entries).contains_key(id),
            presets_of(entries)[id] == entries[at].preset@,
    {
        let chosen = choose|k: int| kept_under(entries, id, k);
        assert(chosen == at) by {
            if chosen < at {
                assert(entries[chosen].id@ != entries[at].id@);
            } else if at < chosen {
                assert(entries[at].id@ != entries[chosen].id@);
            }
        }
    }

    /// The preset kept under `id`, if there is one.
    pub fn get(&self, id: &str) -> (preset: Option<&Preset>)
        requires
            self.well_formed(),
        ensures
            match preset {
                Some(kept) => self@.contains_key(id@) && self@[id@] == kept@,
                None => !self@.contains_key(id@),
            },
    {
        match self.position(id) {
            Some(at) => {
                proof {
                    Self::lemma_kept(self.entries@, id@, at as int);
                }
                Some(&self.entries[at].preset)
            },
            None => None,
        }
    }

    /// The preset kept under `id`. Fails with `NotFound` where there is none.
    pub fn find(&self, id: &str) -> (outcome: Result<&Preset, LibraryError>)
        requires
            self.well_formed(),
        ensures
            match outcome {
                Ok(kept) => self@.contains_key(id@) && self@[id@] == kept@,
                Err(error) => !self@.contains_key(id@) && is_failure(
                    error,
                    ErrorKind::NotFound,
                    "Preset not found"@,
                ),
            },
    {
        match self.get(id) {
            Some(kept) => Ok(kept),
            None => Err(LibraryError::NotFound(String::from_str("Preset not found"))),
        }
    }

    /// Puts `preset` under `id`, in place of the preset that was kept under it,
    /// if any.
    pub fn insert(&mut self, id: String, preset: Preset)
        requires
            old(self).well_formed(),
        ensures
            final(self).well_formed(),
            final(self)@ == old(self)@.insert(id@, preset@),
    {
        let ghost before = self.entries@;
        match self.position(id.as_str()) {
            Some(at) => {
                self.entries.set(at, PresetEntry { id, preset });
                let ghost after = self.entries@;
                proof {
                    assert forall|key: Seq<char>|
                        presets_of(after).contains_key(key) == #[trigger] presets_of(
                            before,
                        ).insert(id@, preset@).contains_key(key) by {
                        if presets_of(after).contains_key(key) {
                            let k = choose|k: int| kept_under(after, key, k);
                            assert(kept_under(before, key, k));
                        }
                        if presets_of(before).contains_key(key) {
                            let k = choose|k: int| kept_under(before, key, k);
                            assert(kept_under(after, key, k));
                        }
                    }
                }
            },
            None => {
                self.entries.push(PresetEntry { id, preset });
                let ghost after = self.entries@;
                proof {
                    let last = before.len() as int;
                    assert forall|i: int, j: int| 0 <= i < j < after.len() implies (
                    #[trigger] after[i]).id@ != (#[trigger] after[j]).id@ by {
                        if j == last {
                            assert(!kept_under(before, id@, i));
                        }
                    }
                    assert forall|key: Seq<char>|
                        presets_of(after).contains_key(key) == #[trigger] presets_of(
                            before,
                        ).insert(id@, preset@).contains_key(key) by {
                        if presets_of(after).contains_key(key) {
                            let k = choose|k: int| kept_under(after, key, k);
                            if k != last {
                                assert(kept_under(before, key, k));
                            }
                        }
                        if presets_of(before).contains_key(key) {
                            let k = choose|k: int| kept_under(before, key, k);
                            assert(kept_under(after, key, k));
                        }
                        if key == id@ {
                            assert(kept_under(after, key, last));
                        }
                    }
                    assert(presets_of(after) =~= presets_of(before).insert(id@, preset@));
                }
            },
        }
    }

    /// Deletes the preset kept under `id`. Fails with `NotFound`, and changes
    /// nothing, where there is none.
    pub fn delete(&mut self, id: &str) -> (outcome: Result<(), LibraryError>)
        requires
            old(self).well_formed(),
        ensures
            final(self).well_formed(),
            match outcome {
                Ok(_) => old(self)@.contains_key(id@) && final(self)@ == old(self)@.remove(id@),
                Err(error) => {
                    &&& !old(self)@.contains_key(id@)
                    &&& final(self)@ == old(self)@
                    &&& is_failure(error, ErrorKind::NotFound, "Preset not found"@)
                },
            },
    {
        let ghost before = self.entries@;
        match self.position(id) {
            Some(at) => {
                self.entries.remove(at);
                let ghost after = self.entries@;
                proof {
                    Self::lemma_kept(before, id@, at as int);
                    assert forall|key: Seq<char>|
                        presets_of(after).contains_key(key) == #[trigger] presets_of(
                            before,
                        ).remove(id@).contains_key(key) by {
                        if presets_of(after).contains_key(key) {
                            let k = choose|k: int| kept_under(after, key, k);
                            let from = if k < at { k } else { k + 1 };
                            assert(kept_under(before, key, from));
                        }
                        if presets_of(before).contains_key(key) && key != id@ {
                            let k = choose|k: int| kept_under(before, key, k);
                            let to = if k < at { k } else { k - 1 };
                            assert(kept_under(after, key, to));
                        }
                    }
                }
                Ok(())
            },
            None => Err(LibraryError::NotFound(String::from_str("Preset not found"))),
        }
    }

    /// The identifier of a preset of this name, if the store has one.
    pub fn id_of_name(&self, name: &str) -> (id: Option<String>)
        requires
            self.well_formed(),
        ensures
            match id {
                Some(found) => self@.contains_key(found@) && self@[found@].name == name@,
                None => !has_name(self@, name@),
            },
    {
        let wanted = String::from_str(name);
        let mut i: usize = 0;
        while i < self.entries.len()
            invariant
                i <= self.entries.len(),
                wanted@ == name@,
                self.well_formed(),
                forall|at: int| 0 <= at < i ==> self.entries@[at].preset@.name != name@,
            decreases self.entries.len() - i,
        {
            if self.entries[i].preset.name == wanted {
                proof {
                    Self::lemma_kept(self.entries@, self.entries@[i as int].id@, i as int);
                }
                return Some(self.entries[i].id.clone());
            }
            i += 1;
        }
        proof {
            if has_name(self@, name@) {
                let id = choose|id: Seq<char>| #[trigger]
                    self@.contains_key(id) && self@[id].name == name@;
                let k = choose|k: int| kept_under(self.entries@, id, k);
                Self::lemma_kept(self.entries@, id, k);
            }
        }
        None
    }

    /// Saves a preset under the identifier `fresh` unless the store has a
    /// preset of this name: then the new preset takes the place and the
    /// identifier of one such preset. Returns the identifier that was used.
    pub fn save_as(&mut self, name: String, enabled_mods: Vec<String>, fresh: String) -> (id:
        String)
        requires
            old(self).well_formed(),
        ensures
            final(self).well_formed(),
            final(self)@ == old(self)@.insert(
                id@,
                PresetView { name: name@, enabled_mods: enabled_mods.deep_view() },
            ),
            has_name(old(self)@, name@) ==> old(self)@.contains_key(id@) && old(self)@[id@].name
                == name@,
            !has_name(old(self)@, name@) ==> id@ == fresh@,
    {
        let id = match self.id_of_name(name.as_str()) {
            Some(found) => found,
            None => fresh,
        };
        self.insert(id.clone(), Preset { name, enabled_mods });
        id
    }

    /// Saves a preset: under the identifier of a preset of the same name where
    /// the store has one, else under a newly generated identifier. Returns the
    /// identifier that was used.
    pub fn save(&mut self, name: String, enabled_mods: Vec<String>) -> (id: String)
        requires
            old(self).well_formed(),
        ensures
            final(self).well_formed(),
            final(self)@ == old(self)@.insert(
                id@,
                PresetView { name: name@, enabled_mods: enabled_mods.deep_view() },
            ),
            has_name(old(self)@, name@) ==> old(self)@.contains_key(id@) && old(self)@[id@].name
                == name@,
            !has_name(old(self)@, name@) ==> is_generated(id@),
    {
        let fresh = match self.id_of_name(name.as_str()) {
            Some(_) => String::new(),
            None => random_identifier(),
        };
        self.save_as(name, enabled_mods, fresh)
    }

    /// The presets of the store with their identifiers.
    pub fn entries(&self) -> (entries: &Vec<PresetEntry>)
        requires
            self.well_formed(),
        ensures
            distinct_ids(entries@),
            self@ == presets_of(entries@),
    {
        &self.entries
    }
}

} // verus!
