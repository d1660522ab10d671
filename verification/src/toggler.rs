//! The activation toggler and the metadata editor: what to write and what to
//! rename so that a mod directory carries a given record.

use crate::error::{is_failure, ErrorKind, LibraryError};
use crate::naming::{disabled_prefix, folder_name, lemma_name_round_trip, rename_target};
use crate::record::{persisted_part, Mod, ModSidecar, ModView};
use crate::resolver::{resolved_with, ObservedView};
use vstd::prelude::*;
use vstd::string::StringExecFns;

verus! {

/// Lets an operation on a mod directory go on where the directory is there,
/// and fails with `InvalidPath` where it is not.
pub fn require_mod_directory(is_directory: bool) -> (outcome: Result<(), LibraryError>)
    ensures
        is_directory ==> outcome is Ok,
        !is_directory ==> outcome is Err && is_failure(
            outcome->Err_0,
            ErrorKind::InvalidPath,
            "Mod directory does not exist"@,
        ),
{
    if is_directory {
        Ok(())
    } else {
        Err(LibraryError::InvalidPath(String::from_str("Mod directory does not exist")))
    }
}

/// What the toggler does to a mod directory so that it holds a mod of this
/// display name and state. Fails with `InvalidPath` where the directory is
/// missing or its path has no base name. Else `Some` of the new base name
/// where the directory has to be renamed, within its parent, and `None` where
/// it already has that name.
pub fn set_enabled(
    is_directory: bool,
    current_folder: Option<&str>,
    desired_enabled: bool,
    desired_display_name: &str,
) -> (outcome: Result<Option<String>, LibraryError>)
    ensures
        !is_directory ==> outcome is Err && is_failure(
            outcome->Err_0,
            ErrorKind::InvalidPath,
            "Mod directory does not exist"@,
        ),
        is_directory && current_folder is None ==> outcome is Err && is_failure(
            outcome->Err_0,
            ErrorKind::InvalidPath,
            "Invalid mod directory name"@,
        ),
        is_directory && current_folder is Some ==> outcome is Ok && ({
            let wanted = folder_name(desired_display_name@, desired_enabled);
            let target = outcome->Ok_0;
            &&& wanted == current_folder->0@ ==> target is None
            &&& wanted != current_folder->0@ ==> target is Some && target->0@ == wanted
        }),
{
    match require_mod_directory(is_directory) {
        Ok(_) => {},
        Err(error) => {
            return Err(error);
        },
    }
    match current_folder {
        Some(current) => Ok(rename_target(current, desired_display_name, desired_enabled)),
        None => Err(LibraryError::InvalidPath(String::from_str("Invalid mod directory name"))),
    }
}

/// The sidecar to write into a mod directory so that it stores the metadata of
/// `record`. Fails with `InvalidPath` where the directory is missing. The
/// name and the state of the record are no business of the sidecar: they
/// reach the directory through `set_enabled`.
pub fn set_metadata(is_directory: bool, record: &Mod) -> (outcome: Result<ModSidecar, LibraryError>)
    ensures
        !is_directory ==> outcome is Err && is_failure(
            outcome->Err_0,
            ErrorKind::InvalidPath,
            "Mod directory does not exist"@,
        ),
        is_directory ==> outcome is Ok && outcome->Ok_0@ == persisted_part(record@),
{
    match require_mod_directory(is_directory) {
        Ok(_) => Ok(record.sidecar()),
        Err(error) => Err(error),
    }
}

/// Writing the metadata and naming the directory do not undo each other: a
/// directory that stores the sidecar of `record` and is named for the record's
/// name and state resolves to a record with the same identifier, author,
/// description, address, name and state, and with the same version and
/// category where those are set. The identifier has to be set, and, as
/// wherever a name is read back, an enabled mod's name must not open with the
/// disabled prefix.
pub proof fn lemma_metadata_then_resolved(
    record: ModView,
    entry: ObservedView,
    catalog: Seq<Seq<char>>,
    candidate: Seq<char>,
    found: Option<Seq<char>>,
)
    requires
        record.id.len() > 0,
        record.enabled ==> !disabled_prefix().is_prefix_of(record.name),
        entry.sidecar == Some(persisted_part(record)),
        entry.folder_name == folder_name(record.name, record.enabled),
    ensures
        ({
            let seen = resolved_with(entry, catalog, candidate, found).record;
            &&& seen.id == record.id
            &&& seen.author == record.author
            &&& seen.description == record.description
            &&& seen.url == record.url
            &&& seen.name == record.name
            &&& seen.enabled == record.enabled
            &&& record.version.len() > 0 ==> seen.version == record.version
            &&& record.category.len() > 0 ==> seen.category == record.category
        }),
        resolved_with(entry, catalog, candidate, found).repair is None,
{
    lemma_name_round_trip(record.name, record.enabled);
}

} // verus!
