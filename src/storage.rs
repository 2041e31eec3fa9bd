//! Storages: named records whose settings say which engine holds their
//! files, the repository they are kept in, and the services over both.
use vstd::prelude::*;

mod entity;

pub mod engine;
pub mod repository;
pub mod service;

pub use entity::{
    valid_name, Name, Path, PathView, Settings, SettingsView, Storage, StorageView, ID, NAME_MAX,
    NAME_MIN,
};

use crate::storage::repository::{
    deleted, inserted, lookup, next_cursor, page, position, row_of, sorted_by_id, updated,
};
use crate::PaginatedData;

verus! {

/// Storages as values.
pub open spec fn rows_view(data: Seq<Storage>) -> Seq<StorageView> {
    data.map_values(|s: Storage| s@)
}

/// A storage, if any, as a value.
pub open spec fn option_view(o: Option<Storage>) -> Option<StorageView> {
    match o {
        Some(s) => Some(s@),
        None => None,
    }
}

/// Everything needed to add a storage.
pub struct InsertDTO {
    /// Identifier of the new storage; must not be taken.
    pub id: ID,
    /// Name of the new storage.
    pub name: Name,
    /// Settings of the new storage.
    pub settings: Settings,
}

/// Everything needed to replace a storage's name and settings.
pub struct UpdateDTO {
    /// The new name.
    pub name: Name,
    /// The new settings.
    pub settings: Settings,
}

/// Where storages are kept: rows in ascending id order, ids unique. A
/// failing backend reports an error and leaves the rows as they were.
pub trait Repository {
    /// The rows, in ascending id order.
    spec fn rows(&self) -> Seq<StorageView>;

    /// Whether the backend cannot fail: then every call succeeds, but an
    /// insert under a taken id. Backends that reach outside the process can
    /// fail at any call and keep the default.
    open spec fn infallible(&self) -> bool {
        false
    }

    /// Adds a storage with the given values; its id must not be taken.
    fn insert(&mut self, dto: &InsertDTO) -> (r: Result<(), String>)
        ensures
            sorted_by_id(final(self).rows()),
            r is Ok ==> lookup(old(self).rows(), dto.id) is None && final(self).rows() == inserted(
                old(self).rows(),
                row_of(dto.id, dto.name@, dto.settings@),
            ),
            r is Err ==> final(self).rows() == old(self).rows(),
            old(self).infallible() ==> (r is Ok <==> lookup(old(self).rows(), dto.id) is None),
            final(self).infallible() == old(self).infallible(),
    ;

    /// The page of storages after `from`, or from the beginning where it is
    /// `None`, with the cursor of the next page.
    fn list(&self, from: Option<ID>) -> (r: Result<PaginatedData<Storage>, String>)
        ensures
            sorted_by_id(self.rows()),
            r matches Ok(p) ==> rows_view(p.data@) == page(self.rows(), from) && p.cursor
                == next_cursor(page(self.rows(), from)),
            self.infallible() ==> r is Ok,
    ;

    /// The storage with `id`, or `None` where there is none.
    fn get(&self, id: ID) -> (r: Result<Option<Storage>, String>)
        ensures
            sorted_by_id(self.rows()),
            r matches Ok(o) ==> option_view(o) == lookup(self.rows(), id),
            self.infallible() ==> r is Ok,
    ;

    /// Replaces the name and settings of the storage with `id`, giving back
    /// the new row; `None` where no storage has that id.
    fn update(&mut self, id: ID, dto: &UpdateDTO) -> (r: Result<Option<Storage>, String>)
        ensures
            sorted_by_id(final(self).rows()),
            r is Ok ==> final(self).rows() == updated(
                old(self).rows(),
                id,
                dto.name@,
                dto.settings@,
            ),
            r matches Ok(o) ==> (o is Some <==> position(old(self).rows(), id) is Some),
            r matches Ok(Some(s)) ==> s@ == row_of(id, dto.name@, dto.settings@),
            r is Err ==> final(self).rows() == old(self).rows(),
            old(self).infallible() ==> r is Ok,
            final(self).infallible() == old(self).infallible(),
    ;

    /// Removes the storage with `id`; where there is none, nothing changes
    /// and this still succeeds.
    fn delete(&mut self, id: ID) -> (r: Result<(), String>)
        ensures
            sorted_by_id(final(self).rows()),
            r is Ok ==> final(self).rows() == deleted(old(self).rows(), id),
            r is Err ==> final(self).rows() == old(self).rows(),
            old(self).infallible() ==> r is Ok,
            final(self).infallible() == old(self).infallible(),
    ;
}

} // verus!
