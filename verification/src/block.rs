//! Block scanning: a database compiled for whole-buffer scanning, and the
//! scanner pairing it with an exclusively owned workspace of its shape.

use vstd::prelude::*;

use crate::database::{Database, DbView, compile_err_ok, compile_ok, lowered_all, pattern_views};
use crate::error::Error;
use crate::flags::ScanMode;
use crate::matching::{MatchEvent, MatchHandler, Scan, deliver_events, delivered_state,
    delivery_outcome};
use crate::pattern::Pattern;
use crate::scratch::Scratch;

verus! {

/// A database compiled for whole-buffer scanning.
#[derive(Debug)]
pub struct BlockDatabase {
    pub(crate) inner: Database,
}

impl View for BlockDatabase {
    type V = DbView;

    closed spec fn view(&self) -> DbView {
        self.inner@
    }
}

impl BlockDatabase {
    /// Compiles the given patterns for block scanning, under exactly the
    /// contract of `Database::new` with the block mode.
    pub fn new(patterns: Vec<Pattern>) -> (r: Result<Self, Error>)
        requires
            patterns@.len() <= 0x7fff_ffff,
        ensures
            ({
                let ps = pattern_views(patterns@);
                match r {
                    Ok(db) => compile_ok(ps) && db@ == (DbView {
                        mode: ScanMode::Block,
                        entries: lowered_all(ps),
                    }),
                    Err(e) => !compile_ok(ps) && compile_err_ok(ps, e),
                }
            }),
    {
        match Database::new(patterns, ScanMode::Block) {
            Ok(inner) => Ok(BlockDatabase { inner }),
            Err(e) => Err(e),
        }
    }

    /// Allocates a scanner over this database: the scanner borrows the
    /// database and owns a fresh workspace of its shape.
    pub fn create_scanner(&self) -> (r: Result<BlockScanner<'_>, Error>)
        ensures
            r matches Ok(s) && s.database() == self@ && s.wf(),
    {
        BlockScanner::new(self)
    }

    /// The byte footprint of the compiled artifact. Always succeeds.
    pub fn size(&self) -> (r: Result<usize, Error>)
        ensures
            r matches Ok(n) && n == crate::database::encode_db(self@).len(),
    {
        self.inner.size()
    }
}

impl Clone for BlockDatabase {
    /// Deep copy with the same content; the clone is independent of the
    /// original, so either can be dropped without touching the other.
    fn clone(&self) -> (r: Self)
        ensures
            r@ == self@,
    {
        BlockDatabase { inner: self.inner.clone() }
    }
}

/// A block scanner: a borrowed database paired with an exclusively owned
/// workspace of that database's shape.
#[derive(Debug)]
pub struct BlockScanner<'db> {
    pub(crate) db: &'db BlockDatabase,
    pub(crate) scratch: Scratch,
}

impl<'db> BlockScanner<'db> {
    /// The content of the database this scanner scans against.
    pub closed spec fn database(&self) -> DbView {
        self.db@
    }

    /// The workspace is shaped for exactly this scanner's database, so the
    /// pairing handed to the engine is always valid.
    pub closed spec fn wf(&self) -> bool {
        self.scratch.fits(self.db@)
    }

    /// Pairs a fresh workspace with the given database.
    pub fn new(db: &'db BlockDatabase) -> (r: Result<Self, Error>)
        ensures
            r matches Ok(s) && s.database() == db@ && s.wf(),
    {
        let scratch = match Scratch::new(&db.inner) {
            Ok(s) => s,
            Err(e) => {
                return Err(e);
            },
        };
        Ok(BlockScanner { db, scratch })
    }

    /// Delivers the match events of one finished block scan to the handler,
    /// in the engine's reporting order, stopping right after the handler
    /// first answers `Terminate`. The call reports `Terminate` exactly when
    /// the handler stopped it early; with this scanner's valid pairing no
    /// engine failure is left. The scanner itself is unchanged.
    pub fn scan<H: MatchHandler>(&mut self, events: &Vec<MatchEvent>, handler: &mut H) -> (r:
        Result<Scan, Error>)
        requires
            old(self).wf(),
        ensures
            final(self).wf(),
            final(self).database() == old(self).database(),
            final(handler)@ == delivered_state::<H>(old(handler)@, events@),
            r matches Ok(s) && s == delivery_outcome::<H>(old(handler)@, events@),
    {
        let outcome = deliver_events(events, handler);
        Ok(outcome)
    }
}

impl<'db> Clone for BlockScanner<'db> {
    /// A second scanner over the same database, with its own independent
    /// workspace of the same shape.
    fn clone(&self) -> (r: Self)
        ensures
            r.database() == self.database(),
            r.wf() == self.wf(),
    {
        BlockScanner { db: self.db, scratch: self.scratch.clone() }
    }
}

} // verus!
