//! The category fallback: a mod without a stored category takes the first
//! catalog entry whose name stands in the mod's display name, letter case aside.

use crate::record::{category_names, Category};
use crate::text::{chars_of, contains, contains_text, remove_char, string_of, without_char};
use vstd::prelude::*;

verus! {

/// The lower-case form of a text, as `str::to_lowercase` computes it.
pub uninterp spec fn lowercase(s: Seq<char>) -> Seq<char>;

/// `str::to_lowercase` returns the lower-case equivalent of the text. It
/// follows the Unicode tables of the standard library and depends on nothing
/// but the text, so the result has a name.
pub assume_specification[ str::to_lowercase ](s: &str) -> (lower: String)
    ensures
        lower@ == lowercase(s@),
;

/// The text that is looked for in a display name on behalf of a catalog entry:
/// the entry's name without backslashes, in lower case.
pub open spec fn category_key(category: Seq<char>) -> Seq<char> {
    lowercase(without_char(category, '\\'))
}

/// Whether a mod of this display name falls under the catalog entry of this name.
pub open spec fn falls_under(display: Seq<char>, category: Seq<char>) -> bool {
    contains_text(lowercase(display), category_key(category))
}

/// The first of `names` under which a mod of this display name falls.
pub open spec fn matching_category(display: Seq<char>, names: Seq<Seq<char>>) -> Option<
    Seq<char>,
>
    decreases names.len(),
{
    if names.len() == 0 {
        None
    } else if falls_under(display, names[0]) {
        Some(names[0])
    } else {
        matching_category(display, names.drop_first())
    }
}

/// `matching_category` returns an entry under which the name falls and before
/// which no such entry stands; it returns none only where there is none.
pub proof fn lemma_matching_category(display: Seq<char>, names: Seq<Seq<char>>)
    ensures
        match matching_category(display, names) {
            Some(found) => exists|i: int|
                0 <= i < names.len() && names[i] == found && falls_under(display, names[i])
                    && forall|j: int| 0 <= j < i ==> !falls_under(display, #[trigger] names[j]),
            None => forall|j: int| 0 <= j < names.len() ==> !falls_under(display, #[trigger] names[j]),
        },
    decreases names.len(),
{
    if names.len() > 0 && !falls_under(display, names[0]) {
        let rest = names.drop_first();
        lemma_matching_category(display, rest);
        match matching_category(display, rest) {
            Some(found) => {
                let i = choose|i: int|
                    0 <= i < rest.len() && rest[i] == found && falls_under(display, rest[i])
                        && forall|j: int| 0 <= j < i ==> !falls_under(display, #[trigger] rest[j]);
                assert forall|j: int| 0 <= j < i + 1 implies !falls_under(
                    display,
                    #[trigger] names[j],
                ) by {
                    if j > 0 {
                        assert(names[j] == rest[j - 1]);
                    }
                }
            },
            None => {
                assert forall|j: int| 0 <= j < names.len() implies !falls_under(
                    display,
                    #[trigger] names[j],
                ) by {
                    if j > 0 {
                        assert(names[j] == rest[j - 1]);
                    }
                }
            },
        }
    }
}

/// The place of the first of `keys` that stands in `text`, or `keys.len()`
/// where none does.
pub open spec fn first_key_in(text: Seq<char>, keys: Seq<Seq<char>>) -> int
    decreases keys.len(),
{
    if keys.len() == 0 || contains_text(text, keys[0]) {
        0
    } else {
        1 + first_key_in(text, keys.drop_first())
    }
}

/// `first_key_in` is the least place whose key stands in the text.
pub proof fn lemma_first_key_in(text: Seq<char>, keys: Seq<Seq<char>>)
    ensures
        0 <= first_key_in(text, keys) <= keys.len(),
        forall|j: int| 0 <= j < first_key_in(text, keys) ==> !contains_text(text, #[trigger] keys[j]),
        first_key_in(text, keys) < keys.len() ==> contains_text(
            text,
            keys[first_key_in(text, keys)],
        ),
    decreases keys.len(),
{
    if keys.len() == 0 || contains_text(text, keys[0]) {
    } else {
        let rest = keys.drop_first();
        lemma_first_key_in(text, rest);
        assert forall|j: int| 0 <= j < first_key_in(text, keys) implies !contains_text(
            text,
            #[trigger] keys[j],
        ) by {
            if j > 0 {
                assert(keys[j] == rest[j - 1]);
            }
        }
    }
}

/// The catalog entry at the first place whose key stands in the lowered
/// display name is the entry that `matching_category` picks.
proof fn lemma_match_by_keys(display: Seq<char>, names: Seq<Seq<char>>, keys: Seq<Seq<char>>)
    requires
        keys.len() == names.len(),
        forall|i: int| 0 <= i < names.len() ==> #[trigger] keys[i] == category_key(names[i]),
    ensures
        matching_category(display, names) == (if first_key_in(lowercase(display), keys)
            < names.len() {
            Some(names[first_key_in(lowercase(display), keys)])
        } else {
            None
        }),
    decreases names.len(),
{
    if names.len() > 0 && !falls_under(display, names[0]) {
        lemma_match_by_keys(display, names.drop_first(), keys.drop_first());
        lemma_first_key_in(lowercase(display), keys.drop_first());
    }
}

/// The place of the first of `keys` that stands in `text`, or `keys.len()`
/// where none does.
pub fn first_match(text: &Vec<char>, keys: &Vec<Vec<char>>) -> (place: usize)
    ensures
        place == first_key_in(text@, keys.deep_view()),
{
    let ghost all = keys.deep_view();
    let mut i: usize = 0;
    assert(all.skip(0) =~= all);
    while i < keys.len()
        invariant
            i <= keys.len(),
            all == keys.deep_view(),
            first_key_in(text@, all) == i + first_key_in(text@, all.skip(i as int)),
        decreases keys.len() - i,
    {
        proof {
            assert(all.skip(i as int)[0] == keys[i as int]@);
            assert(all.skip(i as int).drop_first() =~= all.skip(i + 1));
        }
        if contains(text, &keys[i]) {
            return i;
        }
        i += 1;
    }
    i
}

/// The keys of a catalog, in catalog order.
pub fn category_keys(categories: &[Category]) -> (keys: Vec<Vec<char>>)
    ensures
        keys.len() == categories.len(),
        forall|i: int|
            0 <= i < categories.len() ==> (#[trigger] keys[i])@ == category_key(
                categories[i].name@,
            ),
{
    let mut keys: Vec<Vec<char>> = Vec::new();
    let mut i: usize = 0;
    while i < categories.len()
        invariant
            i <= categories.len(),
            keys.len() == i,
            forall|k: int| 0 <= k < i ==> (#[trigger] keys[k])@ == category_key(categories[k].name@),
        decreases categories.len() - i,
    {
        let plain = remove_char(&chars_of(categories[i].name.as_str()), '\\');
        let lowered = string_of(&plain, 0, plain.len()).as_str().to_lowercase();
        proof {
            assert(plain@.subrange(0, plain@.len() as int) =~= plain@);
        }
        keys.push(chars_of(lowered.as_str()));
        i += 1;
    }
    keys
}

/// The name of the first catalog entry under which a mod of this display name
/// falls, if there is one.
pub fn find_matching_category(name: &str, categories: &[Category]) -> (found: Option<String>)
    ensures
        found.deep_view() == matching_category(name@, category_names(categories@)),
{
    let lowered = name.to_lowercase();
    let text = chars_of(lowered.as_str());
    let keys = category_keys(categories);
    let place = first_match(&text, &keys);
    proof {
        let names = category_names(categories@);
        assert forall|i: int| 0 <= i < names.len() implies #[trigger] keys.deep_view()[i]
            == category_key(names[i]) by {}
        lemma_match_by_keys(name@, names, keys.deep_view());
        lemma_first_key_in(text@, keys.deep_view());
    }
    if place < categories.len() {
        Some(categories[place].name.clone())
    } else {
        None
    }
}

} // verus!
