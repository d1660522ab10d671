//! The records that the library hands out: a mod as it stands on disk, the
//! metadata sidecar that is stored beside it, and an entry of the category catalog.

use vstd::prelude::*;

verus! {

/// The name of the sidecar file inside a mod directory.
pub const SIDECAR_FILE_NAME: &'static str = "mod.json";

/// One mod as currently observed on disk.
#[derive(Debug, Clone, PartialEq, Eq)]
pub struct Mod {
    /// Stable identifier, kept in the sidecar.
    pub id: String,
    /// Free-form metadata, kept in the sidecar; empty means unset.
    pub author: String,
    pub description: String,
    pub version: String,
    pub category: String,
    pub url: String,
    /// Display name, carried by the directory name.
    pub name: String,
    /// Location of the directory, as seen by the scan that produced the record.
    pub path: String,
    /// Location of the mod's thumbnail, empty where it has none.
    pub thumbnail: String,
    /// Activation state, carried by the directory name.
    pub enabled: bool,
}

/// The mathematical value of a [`Mod`].
pub struct ModView {
    pub id: Seq<char>,
    pub author: Seq<char>,
    pub description: Seq<char>,
    pub version: Seq<char>,
    pub category: Seq<char>,
    pub url: Seq<char>,
    pub name: Seq<char>,
    pub path: Seq<char>,
    pub thumbnail: Seq<char>,
    pub enabled: bool,
}

impl View for Mod {
    type V = ModView;

    open spec fn view(&self) -> ModView {
        ModView {
            id: self.id@,
            author: self.author@,
            description: self.description@,
            version: self.version@,
            category: self.category@,
            url: self.url@,
            name: self.name@,
            path: self.path@,
            thumbnail: self.thumbnail@,
            enabled: self.enabled,
        }
    }
}

impl DeepView for Mod {
    type V = ModView;

    open spec fn deep_view(&self) -> ModView {
        self@
    }
}

/// The part of a mod's record that is stored in its sidecar file. The display
/// name and the activation state are not in it: the directory name carries them.
#[derive(Debug, Clone, PartialEq, Eq)]
pub struct ModSidecar {
    pub id: String,
    pub author: String,
    pub description: String,
    pub version: String,
    pub category: String,
    pub url: String,
}

/// The mathematical value of a [`ModSidecar`].
pub struct SidecarView {
    pub id: Seq<char>,
    pub author: Seq<char>,
    pub description: Seq<char>,
    pub version: Seq<char>,
    pub category: Seq<char>,
    pub url: Seq<char>,
}

impl View for ModSidecar {
    type V = SidecarView;

    open spec fn view(&self) -> SidecarView {
        SidecarView {
            id: self.id@,
            author: self.author@,
            description: self.description@,
            version: self.version@,
            category: self.category@,
            url: self.url@,
        }
    }
}

impl DeepView for ModSidecar {
    type V = SidecarView;

    open spec fn deep_view(&self) -> SidecarView {
        self@
    }
}

/// One entry of the category catalog.
#[derive(Debug, Clone, PartialEq, Eq)]
pub struct Category {
    pub name: String,
    pub icon: String,
}

/// The names of a catalog, in catalog order.
pub open spec fn category_names(catalog: Seq<Category>) -> Seq<Seq<char>> {
    catalog.map_values(|c: Category| c.name@)
}

/// The sidecar with every field unset.
pub open spec fn empty_sidecar() -> SidecarView {
    SidecarView {
        id: Seq::empty(),
        author: Seq::empty(),
        description: Seq::empty(),
        version: Seq::empty(),
        category: Seq::empty(),
        url: Seq::empty(),
    }
}

/// What a record keeps in its sidecar.
pub open spec fn persisted_part(record: ModView) -> SidecarView {
    SidecarView {
        id: record.id,
        author: record.author,
        description: record.description,
        version: record.version,
        category: record.category,
        url: record.url,
    }
}

impl ModSidecar {
    /// The sidecar with every field unset, which stands for a sidecar file that
    /// is absent or cannot be read.
    pub fn empty() -> (sidecar: ModSidecar)
        ensures
            sidecar@ == empty_sidecar(),
    {
        ModSidecar {
            id: String::new(),
            author: String::new(),
            description: String::new(),
            version: String::new(),
            category: String::new(),
            url: String::new(),
        }
    }

    /// A copy of this sidecar.
    pub fn duplicate(&self) -> (copy: ModSidecar)
        ensures
            copy@ == self@,
    {
        ModSidecar {
            id: self.id.clone(),
            author: self.author.clone(),
            description: self.description.clone(),
            version: self.version.clone(),
            category: self.category.clone(),
            url: self.url.clone(),
        }
    }

    /// What was read from a sidecar file, or the empty sidecar where nothing
    /// could be read: a missing or corrupt file never stops a scan.
    pub fn or_empty(loaded: Option<ModSidecar>) -> (sidecar: ModSidecar)
        ensures
            sidecar@ == (match loaded.deep_view() {
                Some(s) => s,
                None => empty_sidecar(),
            }),
    {
        match loaded {
            Some(s) => s,
            None => ModSidecar::empty(),
        }
    }
}

impl Mod {
    /// The part of this record that its sidecar stores.
    pub fn sidecar(&self) -> (sidecar: ModSidecar)
        ensures
            sidecar@ == persisted_part(self@),
    {
        ModSidecar {
            id: self.id.clone(),
            author: self.author.clone(),
            description: self.description.clone(),
            version: self.version.clone(),
            category: self.category.clone(),
            url: self.url.clone(),
        }
    }
}

} // verus!
