//! Engines: the live side of a storage, which places and removes its files.
use vstd::prelude::*;

pub mod fs;

use crate::storage::entity::{Path, PathView};

verus! {

/// A connected engine, one variant per kind of settings.
#[derive(Debug)]
pub enum Engine {
    FS(fs::Engine),
}

impl Engine {
    /// Where a file named `name` is put: the engine's own path for it. The
    /// bytes are then copied there, in full, by the caller.
    pub fn put(&self, name: &str) -> (r: Path)
        ensures
            match self {
                Engine::FS(e) => r@ == PathView::FS(fs::join(e@, name@)),
            },
    {
        match self {
            Engine::FS(e) => Path::FS(e.put(name)),
        }
    }
}

} // verus!
