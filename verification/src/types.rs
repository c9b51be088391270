//! The data model: mod and preset records, settings, statistics, errors,
//! and the file-system actions that lifecycle operations request.

use vstd::prelude::*;

verus! {

/// One installable unit of content: a named folder (or single file) with a
/// durable canonical copy under the private storage root and, while active,
/// a mirrored copy in the external active directory.
#[derive(Debug)]
pub struct Mod {
    /// Opaque unique identifier, assigned at install time, immutable.
    pub id: String,
    /// User-facing title, mutable.
    pub title: String,
    /// Optional user-facing description, mutable.
    pub description: Option<String>,
    /// Optional thumbnail reference, mutable.
    pub thumbnail: Option<String>,
    /// True iff this mod's content is expected to be mirrored into the
    /// external active directory under `original_name`.
    pub is_active: bool,
    /// Creation timestamp, immutable.
    pub date_added: String,
    /// Optional grouping tag chosen at install time; decides the storage
    /// sub-path; immutable after install.
    pub character: Option<String>,
    /// Absolute path of the canonical copy inside the private storage root.
    pub file_path: String,
    /// Base name of the installed source; the name of the mirrored entry in
    /// the external active directory. Derived once at install time.
    pub original_name: String,
}

/// The mathematical value of a [`Mod`]: the same fields over `Seq<char>`.
#[verifier::ext_equal]
pub ghost struct ModView {
    pub id: Seq<char>,
    pub title: Seq<char>,
    pub description: Option<Seq<char>>,
    pub thumbnail: Option<Seq<char>>,
    pub is_active: bool,
    pub date_added: Seq<char>,
    pub character: Option<Seq<char>>,
    pub file_path: Seq<char>,
    pub original_name: Seq<char>,
}

impl DeepView for Mod {
    type V = ModView;

    open spec fn deep_view(&self) -> ModView {
        ModView {
            id: self.id.deep_view(),
            title: self.title.deep_view(),
            description: self.description.deep_view(),
            thumbnail: self.thumbnail.deep_view(),
            is_active: self.is_active,
            date_added: self.date_added.deep_view(),
            character: self.character.deep_view(),
            file_path: self.file_path.deep_view(),
            original_name: self.original_name.deep_view(),
        }
    }
}

/// An identical copy of an optional string field.
fn clone_opt(o: &Option<String>) -> (r: Option<String>)
    ensures
        r == *o,
{
    match o {
        Some(s) => Some(s.clone()),
        None => None,
    }
}

/// An identical copy of a list of id strings.
fn clone_string_vec(v: &Vec<String>) -> (r: Vec<String>)
    ensures
        r@ == v@,
{
    let mut r: Vec<String> = Vec::new();
    let mut i: usize = 0;
    while i < v.len()
        invariant
            i <= v.len(),
            r@ == v@.take(i as int),
        decreases v.len() - i,
    {
        r.push(v[i].clone());
        proof {
            assert(r@ =~= v@.take(i as int + 1));
        }
        i += 1;
    }
    proof {
        assert(v@.take(v@.len() as int) =~= v@);
    }
    r
}

impl Mod {
    /// An identical record. The store hands out copies while the collection
    /// keeps ownership of its records.
    pub fn duplicate(&self) -> (r: Mod)
        ensures
            r == *self,
    {
        Mod {
            id: self.id.clone(),
            title: self.title.clone(),
            description: clone_opt(&self.description),
            thumbnail: clone_opt(&self.thumbnail),
            is_active: self.is_active,
            date_added: self.date_added.clone(),
            character: clone_opt(&self.character),
            file_path: self.file_path.clone(),
            original_name: self.original_name.clone(),
        }
    }
}

/// A named snapshot of which mods should be active together.
#[derive(Debug)]
pub struct Preset {
    /// Opaque unique identifier, assigned at creation.
    pub id: String,
    /// User label, mutable.
    pub name: String,
    /// Creation timestamp, immutable.
    pub created_at: String,
    /// Set on every mutation.
    pub updated_at: String,
    /// The desired active set of mod ids. May reference since-deleted mods;
    /// applying the preset skips ids with no matching record.
    pub mod_ids: Vec<String>,
}

/// The mathematical value of a [`Preset`].
#[verifier::ext_equal]
pub ghost struct PresetView {
    pub id: Seq<char>,
    pub name: Seq<char>,
    pub created_at: Seq<char>,
    pub updated_at: Seq<char>,
    pub mod_ids: Seq<Seq<char>>,
}

impl DeepView for Preset {
    type V = PresetView;

    open spec fn deep_view(&self) -> PresetView {
        PresetView {
            id: self.id.deep_view(),
            name: self.name.deep_view(),
            created_at: self.created_at.deep_view(),
            updated_at: self.updated_at.deep_view(),
            mod_ids: self.mod_ids.deep_view(),
        }
    }
}

impl Preset {
    /// An identical record.
    pub fn duplicate(&self) -> (r: Preset)
        ensures
            r.deep_view() == self.deep_view(),
    {
        let r = Preset {
            id: self.id.clone(),
            name: self.name.clone(),
            created_at: self.created_at.clone(),
            updated_at: self.updated_at.clone(),
            mod_ids: clone_string_vec(&self.mod_ids),
        };
        proof {
            assert(r.mod_ids.deep_view() =~= self.mod_ids.deep_view());
        }
        r
    }
}

/// The single configuration record: the external active-mods directory.
/// While it is unset, every activation or deactivation is refused.
#[derive(Debug)]
pub struct AppSettings {
    /// Path of the external directory that receives each active mod's tree.
    pub zzmi_mods_path: Option<String>,
}

impl DeepView for AppSettings {
    type V = Option<Seq<char>>;

    open spec fn deep_view(&self) -> Option<Seq<char>> {
        self.zzmi_mods_path.deep_view()
    }
}

/// Read-only counts over the two collections.
#[derive(Debug, PartialEq, Eq)]
pub struct ModStats {
    pub installed_mods: usize,
    pub active_mods: usize,
    pub inactive_mods: usize,
    pub presets: usize,
}

/// One file-system mutation that an operation asks its caller to perform.
///
/// The caller performs actions in the order given, before committing the
/// updated collection to the store.
#[derive(Debug)]
pub enum FsAction {
    /// Make sure a directory exists, creating it and its parents if needed.
    EnsureDir { path: String },
    /// Recursively copy the tree (or single file) at `src` to `dst`.
    CopyTree { src: String, dst: String },
    /// Make sure nothing exists at `path`, removing a directory tree or a
    /// single file if one is there. A path that is already absent needs no
    /// work: the action is satisfied as it stands.
    RemoveTree { path: String },
}

/// The mathematical value of an [`FsAction`].
#[verifier::ext_equal]
pub ghost enum ActionView {
    EnsureDir { path: Seq<char> },
    CopyTree { src: Seq<char>, dst: Seq<char> },
    RemoveTree { path: Seq<char> },
}

impl DeepView for FsAction {
    type V = ActionView;

    open spec fn deep_view(&self) -> ActionView {
        match self {
            FsAction::EnsureDir { path } => ActionView::EnsureDir { path: path.deep_view() },
            FsAction::CopyTree { src, dst } => ActionView::CopyTree {
                src: src.deep_view(),
                dst: dst.deep_view(),
            },
            FsAction::RemoveTree { path } => ActionView::RemoveTree { path: path.deep_view() },
        }
    }
}

/// The errors the library reports. Which operation returns which error, and
/// on exactly which input, is stated in each operation's contract.
#[derive(Debug, PartialEq, Eq, Structural)]
pub enum LibError {
    /// No mod record carries the requested id.
    ModNotFound,
    /// No preset record carries the requested id.
    PresetNotFound,
    /// The source path handed to install does not exist.
    SourceMissing,
    /// The source path handed to install exists but is not a directory.
    SourceNotDirectory,
    /// The external active-mods directory is not configured.
    ExternalDirNotSet,
    /// The platform offers no configuration directory.
    ConfigDirUnavailable,
    /// A persisted document exists but could not be read.
    StoreReadFailed,
    /// A persisted document exists but is not valid JSON for its collection.
    StoreMalformed,
}

/// What the caller found when it tried to read one persisted document.
///
/// The caller only reports; the library decides what each outcome means for
/// the operation at hand (see `store::mods_from_read` and its companions).
#[derive(Debug)]
pub enum DocRead<T> {
    /// The document file does not exist.
    Missing,
    /// The document was read and decoded into the collection it holds.
    Contents(T),
    /// The document file exists but could not be read.
    ReadFailed,
    /// The document file was read but does not decode; its text is corrupt.
    Malformed,
}

} // verus!
