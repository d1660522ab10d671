//! Generated identifiers for mods and presets.

use vstd::prelude::*;

verus! {

/// The length of a generated identifier.
pub const IDENTIFIER_LENGTH: usize = 36;

/// Whether `c` is a digit or one of the letters `a` to `f`.
pub open spec fn is_lower_hex(c: char) -> bool {
    ||| 0x30 <= c as u32 <= 0x39
    ||| 0x61 <= c as u32 <= 0x66
}

/// Whether a hyphen stands at this place of a generated identifier.
pub open spec fn is_hyphen_place(at: int) -> bool {
    at == 8 || at == 13 || at == 18 || at == 23
}

/// Whether `id` has the shape of a generated identifier: 36 characters, of
/// which the four at the hyphen places are hyphens and the others are
/// lower-case hexadecimal digits. Such an identifier is never empty, so it is
/// never mistaken for an unset one, and it holds nothing that a directory name
/// cannot hold.
pub open spec fn is_generated(id: Seq<char>) -> bool {
    &&& id.len() == IDENTIFIER_LENGTH
    &&& forall|at: int|
        0 <= at < id.len() ==> if is_hyphen_place(at) {
            #[trigger] id[at] == '-'
        } else {
            is_lower_hex(id[at])
        }
}

/// Draws a random identifier: `uuid::Uuid::new_v4`, rendered by the `Display`
/// impl of `Uuid`, which writes the hyphenated lower-case form, as in
/// `67e55044-10b1-426f-9247-bb680e5fe0c8`. The contract claims that shape and
/// nothing else of the outcome; two calls may differ. The call panics only
/// where the operating system cannot supply random bytes.
#[verifier::external_body]
pub(crate) fn random_identifier() -> (id: String)
    ensures
        is_generated(id@),
{
    uuid::Uuid::new_v4().to_string()
}

} // verus!
