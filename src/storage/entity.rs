//! The storage record, its validated name and its engine settings.
use vstd::prelude::*;

use crate::id::mint_id;
use crate::storage::engine::fs::{self, BaseDir, FSNewError};
use crate::storage::engine::Engine;
use crate::validation::{check_length, length_verdict, ValidationError};

verus! {

/// Storage unique identifier.
pub type ID = u128;

/// Shortest name a storage may have, in characters.
pub const NAME_MIN: usize = 3;

/// Longest name a storage may have, in characters.
pub const NAME_MAX: usize = 255;

/// Whether `s` is acceptable as a storage name.
pub open spec fn valid_name(s: Seq<char>) -> bool {
    NAME_MIN <= s.len() <= NAME_MAX
}

/// A storage name: 3 to 255 characters.
#[derive(Debug, PartialEq, Eq)]
pub struct Name {
    value: String,
}

impl View for Name {
    type V = Seq<char>;

    closed spec fn view(&self) -> Seq<char> {
        self.value@
    }
}

impl Name {
    #[verifier::type_invariant]
    spec fn inv(&self) -> bool {
        valid_name(self.value@)
    }

    /// Validates `value` as a storage name.
    pub fn new(value: &str) -> (r: Result<Name, ValidationError>)
        ensures
            r is Ok <==> valid_name(value@),
            r matches Ok(n) ==> n@ == value@,
            r matches Err(e) ==> Err::<(), ValidationError>(e) == length_verdict(
                value@.len(),
                NAME_MIN,
                NAME_MAX,
            ),
    {
        match check_length(value, NAME_MIN, NAME_MAX) {
            Ok(()) => Ok(Name { value: value.to_owned() }),
            Err(e) => Err(e),
        }
    }

    /// A name read back from where storages are kept, which only ever holds
    /// validated names: the length is not counted again.
    pub fn new_valid(value: String) -> (r: Name)
        requires
            valid_name(value@),
        ensures
            r@ == value@,
    {
        Name { value }
    }

    /// The name as text; it is always 3 to 255 characters long.
    pub fn as_str(&self) -> (r: &str)
        ensures
            r@ == self@,
            valid_name(r@),
    {
        proof {
            use_type_invariant(self);
        }
        self.value.as_str()
    }

    /// A copy of this name.
    pub fn duplicate(&self) -> (r: Name)
        ensures
            r@ == self@,
    {
        proof {
            use_type_invariant(self);
        }
        Name { value: self.value.clone() }
    }
}

/// Which engine holds a storage's files, and with what parameters.
#[derive(Debug, PartialEq, Eq)]
pub enum Settings {
    /// Files are kept in a directory of the local filesystem.
    FS {
        /// Directory where all uploaded files are placed.
        base_path: String,
    },
}

/// Settings as values.
pub enum SettingsView {
    FS { base_path: Seq<char> },
}

impl View for Settings {
    type V = SettingsView;

    open spec fn view(&self) -> SettingsView {
        match self {
            Settings::FS { base_path } => SettingsView::FS { base_path: base_path@ },
        }
    }
}

impl Settings {
    /// A copy of these settings.
    pub fn duplicate(&self) -> (r: Settings)
        ensures
            r@ == self@,
    {
        match self {
            Settings::FS { base_path } => Settings::FS { base_path: base_path.clone() },
        }
    }
}

/// Where an uploaded file landed, on the engine that holds it.
#[derive(Debug, PartialEq, Eq)]
pub enum Path {
    /// A path on the local filesystem.
    FS(String),
}

/// A path as a value.
pub enum PathView {
    FS(Seq<char>),
}

impl View for Path {
    type V = PathView;

    open spec fn view(&self) -> PathView {
        match self {
            Path::FS(p) => PathView::FS(p@),
        }
    }
}

/// A storage: its id, its name and the settings of its engine.
#[derive(Debug)]
pub struct Storage {
    /// Set when the storage is created, never changed.
    pub id: ID,
    /// Replaced, with the settings, by an update.
    pub name: Name,
    /// Replaced, with the name, by an update.
    pub settings: Settings,
}

/// A storage as a value.
pub struct StorageView {
    pub id: ID,
    pub name: Seq<char>,
    pub settings: SettingsView,
}

impl View for Storage {
    type V = StorageView;

    open spec fn view(&self) -> StorageView {
        StorageView { id: self.id, name: self.name@, settings: self.settings@ }
    }
}

impl Storage {
    /// A new storage with a freshly minted id. Nothing is stored or
    /// connected.
    pub fn new(name: Name, settings: Settings) -> (r: Storage)
        ensures
            r.name@ == name@,
            r.settings@ == settings@,
    {
        Storage { id: mint_id(), name, settings }
    }

    /// Connects this storage to its engine, given what preparing the
    /// engine's base directory found there.
    pub fn connect(&self, found: BaseDir) -> (r: Result<Engine, FSNewError>)
        ensures
            match self.settings@ {
                SettingsView::FS { base_path } => match found {
                    BaseDir::Existing | BaseDir::Created => r matches Ok(Engine::FS(e)) && e@
                        == base_path,
                    BaseDir::NotDirectory => r == Err::<Engine, FSNewError>(
                        FSNewError::BasePathNotDir,
                    ),
                    BaseDir::CreateFailed(m) => r matches Err(
                        FSNewError::FailedToCreateBaseDir(c),
                    ) && c@ == m@,
                },
            },
    {
        match &self.settings {
            Settings::FS { base_path } => match fs::Engine::new(base_path.clone(), found) {
                Ok(e) => Ok(Engine::FS(e)),
                Err(e) => Err(e),
            },
        }
    }

    /// A copy of this storage.
    pub fn duplicate(&self) -> (r: Storage)
        ensures
            r@ == self@,
    {
        Storage { id: self.id, name: self.name.duplicate(), settings: self.settings.duplicate() }
    }
}

} // verus!
