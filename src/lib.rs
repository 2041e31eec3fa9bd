//! Catalog of named storages, each backed by a pluggable engine, with a
//! keyset-paginated repository and an opaque pagination cursor.
use vstd::prelude::*;

pub mod config;
pub mod cursor;
pub mod id;
pub mod oauth;
pub mod storage;
pub mod user;
pub mod validation;

use crate::cursor::Cursor;

verus! {

/// Most rows a single listing returns.
pub const LIMIT: usize = 25;

/// One page of a listing.
#[derive(Debug)]
pub struct PaginatedData<T> {
    /// The rows of this page.
    pub data: Vec<T>,
    /// Where the next page starts; `None` once the listing is exhausted.
    pub cursor: Option<Cursor>,
}

} // verus!
