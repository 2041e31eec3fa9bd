//! Services: thin orchestration over a repository and the engines.
use vstd::prelude::*;
use vstd::string::StringExecFns;

use crate::cursor::Cursor;
use crate::id::mint_id;
use crate::storage::engine::fs::{join, BaseDir, FSNewError};
use crate::storage::entity::{Name, Path, PathView, Settings, SettingsView, Storage, ID};
use crate::storage::repository::{deleted, inserted, lookup, next_cursor, page, position, row_of, updated};
use crate::storage::{option_view, rows_view, InsertDTO, Repository, UpdateDTO};
use crate::PaginatedData;

verus! {

/// Creates storages.
pub struct Creator<R> {
    pub storages_repository: R,
}

impl<R: Repository> Creator<R> {
    pub fn new(storages_repository: R) -> (r: Self)
        ensures
            r.storages_repository == storages_repository,
    {
        Creator { storages_repository }
    }

    /// Creates a storage under `id` and gives the id back. On a backend that
    /// cannot fail, this succeeds exactly when no storage has that id.
    pub fn create_with_id(&mut self, id: ID, name: Name, settings: Settings) -> (r: Result<
        ID,
        String,
    >)
        ensures
            r matches Ok(i) ==> i == id,
            r is Ok ==> lookup(old(self).storages_repository.rows(), id) is None
                && final(self).storages_repository.rows() == inserted(
                old(self).storages_repository.rows(),
                row_of(id, name@, settings@),
            ),
            r is Err ==> final(self).storages_repository.rows()
                == old(self).storages_repository.rows(),
            old(self).storages_repository.infallible() ==> (r is Ok <==> lookup(
                old(self).storages_repository.rows(),
                id,
            ) is None),
            final(self).storages_repository.infallible()
                == old(self).storages_repository.infallible(),
    {
        let dto = InsertDTO { id, name, settings };
        match self.storages_repository.insert(&dto) {
            Ok(()) => Ok(dto.id),
            Err(e) => Err(e),
        }
    }

    /// Creates a storage under a freshly minted id and gives the id back. On
    /// a backend that cannot fail, it can only fail where storages exist
    /// already and the minted id is taken.
    pub fn create(&mut self, name: Name, settings: Settings) -> (r: Result<ID, String>)
        ensures
            r matches Ok(id) ==> lookup(old(self).storages_repository.rows(), id) is None
                && final(self).storages_repository.rows() == inserted(
                old(self).storages_repository.rows(),
                row_of(id, name@, settings@),
            ),
            r is Err ==> final(self).storages_repository.rows()
                == old(self).storages_repository.rows(),
            old(self).storages_repository.infallible() && r is Err ==> old(
                self,
            ).storages_repository.rows().len() > 0,
            final(self).storages_repository.infallible()
                == old(self).storages_repository.infallible(),
    {
        self.create_with_id(mint_id(), name, settings)
    }
}

/// The listing position a cursor stands for: after its last id, or the
/// beginning where there is no cursor.
pub open spec fn cursor_from(cursor: Option<Cursor>) -> Option<ID> {
    match cursor {
        Some(c) => c.last_id,
        None => None,
    }
}

/// Lists storages, a page at a time.
pub struct Lister<R> {
    pub storages_repository: R,
}

impl<R: Repository> Lister<R> {
    pub fn new(storages_repository: R) -> (r: Self)
        ensures
            r.storages_repository == storages_repository,
    {
        Lister { storages_repository }
    }

    /// The page that `cursor` points at, from the beginning where it is
    /// `None`.
    pub fn list(&self, cursor: Option<Cursor>) -> (r: Result<PaginatedData<Storage>, String>)
        ensures
            r matches Ok(p) ==> rows_view(p.data@) == page(
                self.storages_repository.rows(),
                cursor_from(cursor),
            ) && p.cursor == next_cursor(
                page(self.storages_repository.rows(), cursor_from(cursor)),
            ),
            self.storages_repository.infallible() ==> r is Ok,
    {
        let from = match cursor {
            Some(c) => c.last_id,
            None => None,
        };
        self.storages_repository.list(from)
    }
}

/// Reads single storages.
pub struct Getter<R> {
    pub storages_repository: R,
}

impl<R: Repository> Getter<R> {
    pub fn new(storages_repository: R) -> (r: Self)
        ensures
            r.storages_repository == storages_repository,
    {
        Getter { storages_repository }
    }

    /// The storage with `id`, or `None` where there is none.
    pub fn get(&self, id: ID) -> (r: Result<Option<Storage>, String>)
        ensures
            r matches Ok(o) ==> option_view(o) == lookup(self.storages_repository.rows(), id),
            self.storages_repository.infallible() ==> r is Ok,
    {
        self.storages_repository.get(id)
    }
}

/// Why an update failed.
#[derive(Debug, PartialEq, Eq)]
pub enum UpdateError {
    /// The repository failed; its error.
    DB(String),
    /// No storage has the id.
    NotFound,
}

impl UpdateError {
    /// The reason text of this error.
    pub fn to_string(&self) -> (r: String)
        ensures
            match self {
                UpdateError::DB(e) => r@ == "repository error: "@ + e@,
                UpdateError::NotFound => r@ == "not found"@,
            },
    {
        match self {
            UpdateError::DB(e) => {
                let mut s = String::from_str("repository error: ");
                s.append(e.as_str());
                s
            },
            UpdateError::NotFound => String::from_str("not found"),
        }
    }
}

/// What an update gives back for the repository's answer: the new storage,
/// `NotFound` where no storage had the id, `DB` with the repository's error.
pub fn update_outcome(res: Result<Option<Storage>, String>) -> (r: Result<Storage, UpdateError>)
    ensures
        match res {
            Ok(Some(s)) => r matches Ok(t) && t@ == s@,
            Ok(None) => r == Err::<Storage, UpdateError>(UpdateError::NotFound),
            Err(e) => r == Err::<Storage, UpdateError>(UpdateError::DB(e)),
        },
{
    match res {
        Ok(Some(s)) => Ok(s),
        Ok(None) => Err(UpdateError::NotFound),
        Err(e) => Err(UpdateError::DB(e)),
    }
}

/// Replaces storages' names and settings.
pub struct Updater<R> {
    pub storages_repository: R,
}

impl<R: Repository> Updater<R> {
    pub fn new(storages_repository: R) -> (r: Self)
        ensures
            r.storages_repository == storages_repository,
    {
        Updater { storages_repository }
    }

    /// Replaces the name and settings of the storage with `id` wholesale and
    /// gives back the new storage; `NotFound` where no storage has that id.
    pub fn update(&mut self, id: ID, name: Name, settings: Settings) -> (r: Result<
        Storage,
        UpdateError,
    >)
        ensures
            r matches Ok(s) ==> position(old(self).storages_repository.rows(), id) is Some && s@
                == row_of(id, name@, settings@),
            r matches Err(UpdateError::NotFound) ==> position(
                old(self).storages_repository.rows(),
                id,
            ) is None,
            r matches Err(UpdateError::NotFound) ==> final(self).storages_repository.rows() == old(
                self,
            ).storages_repository.rows(),
            !(r is Err && r->Err_0 is DB) ==> final(self).storages_repository.rows() == updated(
                old(self).storages_repository.rows(),
                id,
                name@,
                settings@,
            ),
            r matches Err(UpdateError::DB(_)) ==> final(self).storages_repository.rows() == old(
                self,
            ).storages_repository.rows(),
            old(self).storages_repository.infallible() ==> (r is Ok <==> position(
                old(self).storages_repository.rows(),
                id,
            ) is Some),
            r matches Err(UpdateError::DB(_)) ==> !old(self).storages_repository.infallible(),
            final(self).storages_repository.infallible()
                == old(self).storages_repository.infallible(),
    {
        let dto = UpdateDTO { name, settings };
        update_outcome(self.storages_repository.update(id, &dto))
    }
}

/// Removes storages.
pub struct Deleter<R> {
    pub storages_repository: R,
}

impl<R: Repository> Deleter<R> {
    pub fn new(storages_repository: R) -> (r: Self)
        ensures
            r.storages_repository == storages_repository,
    {
        Deleter { storages_repository }
    }

    /// Removes the storage with `id`; succeeds also where there is none.
    pub fn delete(&mut self, id: ID) -> (r: Result<(), String>)
        ensures
            r is Ok ==> final(self).storages_repository.rows() == deleted(
                old(self).storages_repository.rows(),
                id,
            ),
            r is Err ==> final(self).storages_repository.rows()
                == old(self).storages_repository.rows(),
            old(self).storages_repository.infallible() ==> r is Ok,
            final(self).storages_repository.infallible()
                == old(self).storages_repository.infallible(),
    {
        self.storages_repository.delete(id)
    }
}

/// Why an upload failed.
#[derive(Debug, PartialEq, Eq)]
pub enum FileUploadError {
    /// Reading the storage failed; the repository's error.
    GetStorage(String),
    /// No storage has the id.
    StorageNotFound,
    /// The storage's engine could not be set up.
    ConnectStorage(FSNewError),
    /// Writing the file failed; the underlying error.
    PutFileToStorage(String),
}

/// What the lookup step of an upload gives back for the repository's answer:
/// the storage, `StorageNotFound` where no storage had the id, `GetStorage`
/// with the repository's error.
pub fn locate_outcome(res: Result<Option<Storage>, String>) -> (r: Result<Storage, FileUploadError>)
    ensures
        match res {
            Ok(Some(s)) => r matches Ok(t) && t@ == s@,
            Ok(None) => r == Err::<Storage, FileUploadError>(FileUploadError::StorageNotFound),
            Err(e) => r == Err::<Storage, FileUploadError>(FileUploadError::GetStorage(e)),
        },
{
    match res {
        Ok(Some(s)) => Ok(s),
        Ok(None) => Err(FileUploadError::StorageNotFound),
        Err(e) => Err(FileUploadError::GetStorage(e)),
    }
}

/// Uploads files to storages. An upload takes three steps, with the file
/// system work of the caller between them: `locate` the storage, prepare the
/// base directory of its engine and `place_upload` the file, then copy the
/// bytes and `finish_upload`. Nothing is recorded before the bytes are written.
pub struct FileUploader<R> {
    pub getter: Getter<R>,
}

impl<R: Repository> FileUploader<R> {
    pub fn new(getter: Getter<R>) -> (r: Self)
        ensures
            r.getter == getter,
    {
        FileUploader { getter }
    }

    /// The storage to upload into; `StorageNotFound` where no storage has
    /// `id`.
    pub fn locate(&self, id: ID) -> (r: Result<Storage, FileUploadError>)
        ensures
            r matches Ok(s) ==> lookup(self.getter.storages_repository.rows(), id) == Some(s@),
            r matches Err(FileUploadError::StorageNotFound) ==> lookup(
                self.getter.storages_repository.rows(),
                id,
            ) is None,
            r matches Err(e) ==> e is GetStorage || e is StorageNotFound,
            r matches Err(FileUploadError::GetStorage(_)) ==> !self.getter.storages_repository.infallible(),
            self.getter.storages_repository.infallible() ==> (r is Ok <==> lookup(
                self.getter.storages_repository.rows(),
                id,
            ) is Some),
    {
        locate_outcome(self.getter.get(id))
    }
}

/// Connects `storage` to its engine, given what preparing the base
/// directory found, and gives the path the file `name` is to be written
/// to.
pub fn place_upload(storage: &Storage, found: BaseDir, name: &str) -> (r: Result<
    Path,
    FileUploadError,
>)
    ensures
        match storage.settings@ {
            SettingsView::FS { base_path } => match found {
                BaseDir::Existing | BaseDir::Created => r matches Ok(p) && p@ == PathView::FS(
                    join(base_path, name@),
                ),
                BaseDir::NotDirectory => r == Err::<Path, FileUploadError>(
                    FileUploadError::ConnectStorage(FSNewError::BasePathNotDir),
                ),
                BaseDir::CreateFailed(m) => r matches Err(
                    FileUploadError::ConnectStorage(FSNewError::FailedToCreateBaseDir(c)),
                ) && c@ == m@,
            },
        },
{
    match storage.connect(found) {
        Ok(engine) => Ok(engine.put(name)),
        Err(e) => Err(FileUploadError::ConnectStorage(e)),
    }
}

/// The outcome of an upload once the bytes were copied to `path`, or
/// failed to be.
pub fn finish_upload(path: Path, written: Result<(), String>) -> (r: Result<Path, FileUploadError>)
    ensures
        match written {
            Ok(()) => r == Ok::<Path, FileUploadError>(path),
            Err(e) => r == Err::<Path, FileUploadError>(FileUploadError::PutFileToStorage(e)),
        },
{
    match written {
        Ok(()) => Ok(path),
        Err(e) => Err(FileUploadError::PutFileToStorage(e)),
    }
}

} // verus!
