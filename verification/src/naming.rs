//! The folder-name convention: a mod is disabled exactly when the base name of
//! its directory opens with the disabled prefix. The rest of the base name is
//! the mod's display name.

use crate::text::{chars_of, stands_at, string_of};
use vstd::prelude::*;
use vstd::string::StringExecFns;

verus! {

/// The marker that opens the directory name of a disabled mod.
pub const DISABLED_PREFIX: &'static str = "disabled ";

/// The characters of [`DISABLED_PREFIX`].
pub open spec fn disabled_prefix() -> Seq<char> {
    seq!['d', 'i', 's', 'a', 'b', 'l', 'e', 'd', ' ']
}

/// Whether a directory of this base name holds an enabled mod.
pub open spec fn is_enabled_name(folder: Seq<char>) -> bool {
    !disabled_prefix().is_prefix_of(folder)
}

/// The display name that a directory's base name carries.
pub open spec fn display_name(folder: Seq<char>) -> Seq<char> {
    if disabled_prefix().is_prefix_of(folder) {
        folder.skip(disabled_prefix().len() as int)
    } else {
        folder
    }
}

/// The base name of the directory of a mod with this display name and state.
pub open spec fn folder_name(display: Seq<char>, enabled: bool) -> Seq<char> {
    if enabled {
        display
    } else {
        disabled_prefix() + display
    }
}

/// [`DISABLED_PREFIX`] holds the characters of `disabled_prefix()`.
pub proof fn lemma_prefix_literal()
    ensures
        DISABLED_PREFIX@ == disabled_prefix(),
{
    reveal_strlit("disabled ");
}

/// A directory named for a display name and a state is read back as that name
/// and that state. The one exception, left out here: an enabled mod whose
/// display name itself opens with the disabled prefix.
pub proof fn lemma_name_round_trip(display: Seq<char>, enabled: bool)
    requires
        enabled ==> !disabled_prefix().is_prefix_of(display),
    ensures
        is_enabled_name(folder_name(display, enabled)) == enabled,
        display_name(folder_name(display, enabled)) == display,
{
}

/// The name and state read from a directory name give that directory name back.
pub proof fn lemma_folder_name_of_parts(folder: Seq<char>)
    ensures
        folder_name(display_name(folder), is_enabled_name(folder)) == folder,
{
}

/// Reads the state and the display name from a directory's base name.
pub fn split_folder_name(folder: &str) -> (parts: (bool, String))
    ensures
        parts.0 == is_enabled_name(folder@),
        parts.1@ == display_name(folder@),
{
    let chars = chars_of(folder);
    let prefix = chars_of(DISABLED_PREFIX);
    proof {
        lemma_prefix_literal();
    }
    if stands_at(&chars, &prefix, 0) {
        let name = string_of(&chars, prefix.len(), chars.len());
        (false, name)
    } else {
        (true, string_of(&chars, 0, chars.len()))
    }
}

/// The base name of the directory that holds a mod of this display name and state.
pub fn folder_name_for(display: &str, enabled: bool) -> (folder: String)
    ensures
        folder@ == folder_name(display@, enabled),
{
    proof {
        lemma_prefix_literal();
    }
    if enabled {
        String::from_str(display)
    } else {
        let mut folder = String::from_str(DISABLED_PREFIX);
        folder.append(display);
        folder
    }
}

/// What the activation toggler does to a directory whose base name is `current`
/// so that it holds a mod of this display name and state: `Some` of the new base
/// name where the directory has to be renamed, `None` where it already has it.
pub fn rename_target(current: &str, display: &str, enabled: bool) -> (target: Option<String>)
    ensures
        folder_name(display@, enabled) == current@ ==> target is None,
        folder_name(display@, enabled) != current@ ==> target is Some && target->0@ == folder_name(
            display@,
            enabled,
        ),
{
    let wanted = folder_name_for(display, enabled);
    let present = String::from_str(current);
    if wanted == present {
        None
    } else {
        Some(wanted)
    }
}

} // verus!
