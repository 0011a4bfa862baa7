//! The per-scan workspace. A workspace is sized for one database shape and
//! is only ever paired with a database of that exact shape; cloning yields an
//! independent workspace of the same shape, so two scans can run at once
//! without sharing.

use vstd::prelude::*;

use crate::database::{Database, DbView, clone_bytes, encode_db};
use crate::error::Error;

verus! {

/// A mutable per-scan workspace, shaped for one database. Its view is the
/// shape it was allocated for: the artifact bytes of its database.
#[derive(Debug)]
pub struct Scratch {
    pub(crate) shape: Vec<u8>,
}

impl View for Scratch {
    type V = Seq<u8>;

    closed spec fn view(&self) -> Seq<u8> {
        self.shape@
    }
}

impl Scratch {
    /// Whether this workspace fits a database of the given content: it was
    /// allocated for a database with exactly that artifact.
    pub open spec fn fits(&self, v: DbView) -> bool {
        self@ == encode_db(v)
    }

    /// Allocates a workspace sized for the given database. Always succeeds,
    /// and the workspace fits exactly that database's shape.
    pub fn new(database: &Database) -> (r: Result<Self, Error>)
        ensures
            r matches Ok(s) && s.fits(database@),
    {
        Ok(Scratch { shape: database.encode_all() })
    }

    /// The byte footprint of this workspace: in this model, one byte per
    /// artifact byte of the database it was allocated for. Always succeeds.
    pub fn size(&self) -> (r: Result<usize, Error>)
        ensures
            r matches Ok(n) && n == self@.len(),
    {
        Ok(self.shape.len())
    }
}

impl Clone for Scratch {
    /// Deep copy: an independent workspace of the same shape, so the clone
    /// and the original can serve two scans at once and be released
    /// separately.
    fn clone(&self) -> (r: Self)
        ensures
            r@ == self@,
    {
        Scratch { shape: clone_bytes(&self.shape) }
    }
}

} // verus!
