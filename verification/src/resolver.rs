//! The mod entry resolver and the library scanner: from what a scan sees of a
//! directory to the record of the mod that the directory holds.

use crate::category::{find_matching_category, matching_category};
use crate::error::{is_failure, ErrorKind, LibraryError};
use crate::ident::{is_generated, random_identifier};
use crate::naming::{
    disabled_prefix, display_name, folder_name, is_enabled_name, lemma_folder_name_of_parts,
    lemma_name_round_trip, split_folder_name,
};
use crate::record::{category_names, empty_sidecar, Category, Mod, ModSidecar, ModView, SidecarView};
use crate::version::{first_group, first_group_match, version_from, version_or, VERSION_PATTERN};
use vstd::prelude::*;
use vstd::string::StringExecFns;

verus! {

/// What a scan sees of one entry of the library root.
#[derive(Debug, Clone, PartialEq, Eq)]
pub struct Observed {
    /// The base name of the entry.
    pub folder_name: String,
    /// The location of the entry.
    pub path: String,
    /// Whether the entry is a directory.
    pub is_directory: bool,
    /// What the sidecar file holds; `None` where it is absent or unreadable.
    pub sidecar: Option<ModSidecar>,
    /// The location of the thumbnail inside the entry, empty where there is none.
    pub thumbnail: String,
}

/// The mathematical value of an [`Observed`].
pub struct ObservedView {
    pub folder_name: Seq<char>,
    pub path: Seq<char>,
    pub is_directory: bool,
    pub sidecar: Option<SidecarView>,
    pub thumbnail: Seq<char>,
}

impl View for Observed {
    type V = ObservedView;

    open spec fn view(&self) -> ObservedView {
        ObservedView {
            folder_name: self.folder_name@,
            path: self.path@,
            is_directory: self.is_directory,
            sidecar: self.sidecar.deep_view(),
            thumbnail: self.thumbnail@,
        }
    }
}

impl DeepView for Observed {
    type V = ObservedView;

    open spec fn deep_view(&self) -> ObservedView {
        self@
    }
}

/// The outcome of resolving one directory.
#[derive(Debug, Clone, PartialEq, Eq)]
pub struct Resolved {
    /// The record of the mod.
    pub record: Mod,
    /// The sidecar to write back, where the stored one had no identifier.
    pub repair: Option<ModSidecar>,
}

/// The mathematical value of a [`Resolved`].
pub struct ResolvedView {
    pub record: ModView,
    pub repair: Option<SidecarView>,
}

impl View for Resolved {
    type V = ResolvedView;

    open spec fn view(&self) -> ResolvedView {
        ResolvedView {
            record: self.record@,
            repair: self.repair.deep_view(),
        }
    }
}

impl DeepView for Resolved {
    type V = ResolvedView;

    open spec fn deep_view(&self) -> ResolvedView {
        self@
    }
}

/// The sidecar that a scan goes by: the stored one, or the empty one where
/// none could be read.
pub open spec fn stored_sidecar(entry: ObservedView) -> SidecarView {
    match entry.sidecar {
        Some(s) => s,
        None => empty_sidecar(),
    }
}

/// The category of a mod: the stored one where it is set, else the first
/// catalog entry under which the display name falls, else unset.
pub open spec fn category_or(stored: Seq<char>, display: Seq<char>, catalog: Seq<Seq<char>>) -> Seq<
    char,
> {
    if stored.len() > 0 {
        stored
    } else {
        match matching_category(display, catalog) {
            Some(category) => category,
            None => Seq::empty(),
        }
    }
}

/// What resolving `entry` yields, given the names of the catalog, the
/// identifier to hand out where none is stored, and the version found in the
/// directory name.
pub open spec fn resolved_with(
    entry: ObservedView,
    catalog: Seq<Seq<char>>,
    candidate: Seq<char>,
    found: Option<Seq<char>>,
) -> ResolvedView {
    let stored = stored_sidecar(entry);
    let id = if stored.id.len() > 0 {
        stored.id
    } else {
        candidate
    };
    ResolvedView {
        record: ModView {
            id,
            author: stored.author,
            description: stored.description,
            version: version_or(stored.version, found),
            category: category_or(stored.category, display_name(entry.folder_name), catalog),
            url: stored.url,
            name: display_name(entry.folder_name),
            path: entry.path,
            thumbnail: entry.thumbnail,
            enabled: is_enabled_name(entry.folder_name),
        },
        repair: if stored.id.len() > 0 {
            None
        } else {
            Some(SidecarView { id: candidate, ..stored })
        },
    }
}

/// Whether `resolved` is what resolving `entry` against this catalog yields.
/// The identifier is the stored one; where none is stored it is a generated
/// one, which nothing but its shape is known of.
pub open spec fn resolves(entry: ObservedView, catalog: Seq<Seq<char>>, resolved: ResolvedView) -> bool {
    &&& resolved == resolved_with(
        entry,
        catalog,
        resolved.record.id,
        first_group_match(VERSION_PATTERN@, entry.folder_name),
    )
    &&& stored_sidecar(entry).id.len() == 0 ==> is_generated(resolved.record.id)
}

/// The test that the directories of a listing pass.
pub open spec fn is_directory_entry() -> spec_fn(ObservedView) -> bool {
    |e: ObservedView| e.is_directory
}

/// The entries of a listing that are directories, in listing order.
pub open spec fn directories(entries: Seq<ObservedView>) -> Seq<ObservedView> {
    entries.filter(is_directory_entry())
}

/// Identifier stability: once a sidecar holds an identifier, every resolve of
/// the directory yields that identifier and asks for no rewrite, whatever the
/// directory is called and wherever it lies by then.
pub proof fn lemma_identifier_stable(
    first: ObservedView,
    second: ObservedView,
    catalog: Seq<Seq<char>>,
    first_candidate: Seq<char>,
    second_candidate: Seq<char>,
    first_found: Option<Seq<char>>,
    second_found: Option<Seq<char>>,
)
    requires
        stored_sidecar(first).id.len() > 0,
        stored_sidecar(second) == stored_sidecar(first),
    ensures
        resolved_with(first, catalog, first_candidate, first_found).record.id == stored_sidecar(
            first,
        ).id,
        resolved_with(second, catalog, second_candidate, second_found).record.id
            == stored_sidecar(first).id,
        resolved_with(first, catalog, first_candidate, first_found).repair is None,
        resolved_with(second, catalog, second_candidate, second_found).repair is None,
{
}

/// An identifier that a resolve hands out sticks: once the sidecar that the
/// resolve asked to write is in place, every later resolve yields that same
/// identifier and asks for no rewrite.
pub proof fn lemma_backfill_sticks(
    first: ObservedView,
    later: ObservedView,
    catalog: Seq<Seq<char>>,
    candidate: Seq<char>,
    later_candidate: Seq<char>,
    first_found: Option<Seq<char>>,
    later_found: Option<Seq<char>>,
)
    requires
        stored_sidecar(first).id.len() == 0,
        is_generated(candidate),
        later.sidecar == resolved_with(first, catalog, candidate, first_found).repair,
    ensures
        resolved_with(first, catalog, candidate, first_found).record.id == candidate,
        resolved_with(later, catalog, later_candidate, later_found).record.id == candidate,
        resolved_with(later, catalog, later_candidate, later_found).repair is None,
{
}

/// The directory name is the one source of the name and the state: the record
/// that a directory resolves to names that directory, so a toggle to the state
/// that the record already has asks for no rename.
pub proof fn lemma_record_names_its_folder(
    entry: ObservedView,
    catalog: Seq<Seq<char>>,
    candidate: Seq<char>,
    found: Option<Seq<char>>,
)
    ensures
        ({
            let record = resolved_with(entry, catalog, candidate, found).record;
            &&& record.enabled == !disabled_prefix().is_prefix_of(entry.folder_name)
            &&& folder_name(record.name, record.enabled) == entry.folder_name
        }),
{
    lemma_folder_name_of_parts(entry.folder_name);
}

/// Round-trip naming: a directory named for a display name and a state
/// resolves to a record with that name and that state, whatever else the scan
/// sees. The one exception, left out here: an enabled mod whose display name
/// itself opens with the disabled prefix.
pub proof fn lemma_named_then_resolved(
    display: Seq<char>,
    enabled: bool,
    entry: ObservedView,
    catalog: Seq<Seq<char>>,
    candidate: Seq<char>,
    found: Option<Seq<char>>,
)
    requires
        enabled ==> !disabled_prefix().is_prefix_of(display),
        entry.folder_name == folder_name(display, enabled),
    ensures
        resolved_with(entry, catalog, candidate, found).record.name == display,
        resolved_with(entry, catalog, candidate, found).record.enabled == enabled,
{
    lemma_name_round_trip(display, enabled);
}

/// Resolves one directory, given the identifier to hand out where none is
/// stored and the version found in the directory name.
pub fn resolve_with(
    entry: &Observed,
    catalog: &[Category],
    candidate: String,
    found: Option<String>,
) -> (resolved: Resolved)
    ensures
        resolved@ == resolved_with(
            entry@,
            category_names(catalog@),
            candidate@,
            found.deep_view(),
        ),
{
    let stored = match &entry.sidecar {
        Some(s) => s.duplicate(),
        None => ModSidecar::empty(),
    };
    let (enabled, name) = split_folder_name(entry.folder_name.as_str());
    let (id, repair) = if !stored.id.as_str().is_empty() {
        (stored.id.clone(), None)
    } else {
        let mut repaired = stored.duplicate();
        repaired.id = candidate.clone();
        (candidate, Some(repaired))
    };
    let version = version_from(stored.version, found);
    let category = if !stored.category.as_str().is_empty() {
        stored.category
    } else {
        match find_matching_category(name.as_str(), catalog) {
            Some(category) => category,
            None => String::new(),
        }
    };
    Resolved {
        record: Mod {
            id,
            author: stored.author,
            description: stored.description,
            version,
            category,
            url: stored.url,
            name,
            path: entry.path.clone(),
            thumbnail: entry.thumbnail.clone(),
            enabled,
        },
        repair,
    }
}

/// Resolves one directory. An identifier is generated only where the sidecar
/// stores none, and the directory name is searched for a version only where
/// the sidecar stores none.
pub fn resolve(entry: &Observed, catalog: &[Category]) -> (resolved: Resolved)
    ensures
        resolves(entry@, category_names(catalog@), resolved@),
{
    let (has_id, has_version) = match &entry.sidecar {
        Some(s) => (!s.id.as_str().is_empty(), !s.version.as_str().is_empty()),
        None => (false, false),
    };
    let candidate = if has_id {
        String::new()
    } else {
        random_identifier()
    };
    let found = if has_version {
        None
    } else {
        first_group(VERSION_PATTERN, entry.folder_name.as_str())
    };
    resolve_with(entry, catalog, candidate, found)
}

/// Scans a library root, given what was seen of each of its entries. Fails
/// where the root is not a directory. Entries that are not directories are
/// passed over; the others are resolved one by one, in listing order.
pub fn scan(root_is_directory: bool, entries: &Vec<Observed>, catalog: &[Category]) -> (outcome:
    Result<Vec<Resolved>, LibraryError>)
    ensures
        !root_is_directory ==> outcome is Err && is_failure(
            outcome->Err_0,
            ErrorKind::InvalidPath,
            "Invalid directory path"@,
        ),
        root_is_directory ==> outcome is Ok && ({
            let found = outcome->Ok_0;
            let wanted = directories(entries.deep_view());
            &&& found.len() == wanted.len()
            &&& forall|i: int|
                0 <= i < found.len() ==> resolves(
                    wanted[i],
                    category_names(catalog@),
                    #[trigger] found[i]@,
                )
        }),
{
    if !root_is_directory {
        return Err(LibraryError::InvalidPath(String::from_str("Invalid directory path")));
    }
    let ghost all = entries.deep_view();
    let ghost is_dir = is_directory_entry();
    let mut found: Vec<Resolved> = Vec::new();
    let mut i: usize = 0;
    while i < entries.len()
        invariant
            i <= entries.len(),
            all == entries.deep_view(),
            is_dir == is_directory_entry(),
            found.len() == all.take(i as int).filter(is_dir).len(),
            forall|k: int|
                0 <= k < found.len() ==> resolves(
                    all.take(i as int).filter(is_dir)[k],
                    category_names(catalog@),
                    #[trigger] found[k]@,
                ),
        decreases entries.len() - i,
    {
        let entry = &entries[i];
        proof {
            assert(all.take(i + 1) =~= all.take(i as int).push(entry@));
            all.take(i as int).lemma_filter_push(entry@, is_dir);
        }
        if entry.is_directory {
            let resolved = resolve(entry, catalog);
            found.push(resolved);
        }
        i += 1;
    }
    assert(all.take(entries.len() as int) =~= all);
    Ok(found)
}

} // verus!
