//! Streaming scanning: a database compiled for chunk-by-chunk scanning, the
//! scanner pairing it with a workspace, and the stream session whose match
//! state spans chunk boundaries. A session is opened, scanned any number of
//! times, and closed exactly once: closing consumes the session, so no call
//! can reach a closed stream.

use vstd::prelude::*;

use crate::database::{Database, DbView, compile_err_ok, compile_ok, encode_db, lowered_all,
    pattern_views};
use crate::error::{Error, HyperscanErrorCode};
use crate::flags::ScanMode;
use crate::matching::{MatchEvent, MatchHandler, Scan, deliver_events, delivered_count,
    delivered_state, delivery_outcome, lemma_delivered_count_bounds};
use crate::pattern::Pattern;
use crate::scratch::Scratch;

verus! {

/// A database compiled for streaming scanning.
#[derive(Debug)]
pub struct StreamingDatabase {
    pub(crate) inner: Database,
}

impl View for StreamingDatabase {
    type V = DbView;

    closed spec fn view(&self) -> DbView {
        self.inner@
    }
}

impl StreamingDatabase {
    /// Compiles the given patterns for streaming scanning, under exactly the
    /// contract of `Database::new` with the streaming mode.
    pub fn new(patterns: Vec<Pattern>) -> (r: Result<Self, Error>)
        requires
            patterns@.len() <= 0x7fff_ffff,
        ensures
            ({
                let ps = pattern_views(patterns@);
                match r {
                    Ok(db) => compile_ok(ps) && db@ == (DbView {
                        mode: ScanMode::Stream,
                        entries: lowered_all(ps),
                    }),
                    Err(e) => !compile_ok(ps) && compile_err_ok(ps, e),
                }
            }),
    {
        match Database::new(patterns, ScanMode::Stream) {
            Ok(inner) => Ok(StreamingDatabase { inner }),
            Err(e) => Err(e),
        }
    }

    /// Allocates a scanner over this database: the scanner borrows the
    /// database and owns a fresh workspace of its shape.
    pub fn create_scanner(&self) -> (r: Result<StreamingScanner<'_>, Error>)
        ensures
            r matches Ok(s) && s.database() == self@ && s.wf(),
    {
        StreamingScanner::new(self)
    }

    /// The byte footprint of the compiled artifact. Always succeeds.
    pub fn size(&self) -> (r: Result<usize, Error>)
        ensures
            r matches Ok(n) && n == encode_db(self@).len(),
    {
        self.inner.size()
    }

    /// The byte footprint of the state one open stream keeps for this
    /// database, under the contract of `Database::stream_size`; this
    /// database is always in streaming mode, so a mode error is never
    /// returned.
    pub fn stream_size(&self) -> (r: Result<usize, Error>)
        ensures
            ({
                if !(self@.mode is Stream) {
                    r matches Err(e) && e matches Error::Hyperscan(c, v) && c
                        == HyperscanErrorCode::DbModeError && v == -7
                } else if 8 + 8 * self@.entries.len() <= usize::MAX {
                    r matches Ok(n) && n == 8 + 8 * self@.entries.len()
                } else {
                    r matches Err(e) && e matches Error::Hyperscan(c, v) && c
                        == HyperscanErrorCode::InsufficientSpace && v == -12
                }
            }),
    {
        self.inner.stream_size()
    }
}

impl Clone for StreamingDatabase {
    /// Deep copy with the same content; the clone is independent of the
    /// original, so either can be dropped without touching the other.
    fn clone(&self) -> (r: Self)
        ensures
            r@ == self@,
    {
        StreamingDatabase { inner: self.inner.clone() }
    }
}

/// A streaming scanner: a borrowed streaming database paired with an
/// exclusively owned workspace of that database's shape.
#[derive(Debug)]
pub struct StreamingScanner<'db> {
    pub(crate) db: &'db StreamingDatabase,
    pub(crate) scratch: Scratch,
}

impl<'db> StreamingScanner<'db> {
    /// The content of the database this scanner scans against.
    pub closed spec fn database(&self) -> DbView {
        self.db@
    }

    /// The workspace is shaped for exactly this scanner's database.
    pub closed spec fn wf(&self) -> bool {
        self.scratch.fits(self.db@)
    }

    /// Pairs a fresh workspace with the given database.
    pub fn new(db: &'db StreamingDatabase) -> (r: Result<Self, Error>)
        ensures
            r matches Ok(s) && s.database() == db@ && s.wf(),
    {
        let scratch = match Scratch::new(&db.inner) {
            Ok(s) => s,
            Err(e) => {
                return Err(e);
            },
        };
        Ok(StreamingScanner { db, scratch })
    }

    /// Opens a stream session against this scanner's database. The fresh
    /// session has reported nothing yet, and it carries its own workspace of
    /// the database's shape, so the scanner stays free for other streams.
    pub fn open_stream(&self) -> (r: Result<StreamScanner, Error>)
        requires
            self.wf(),
        ensures
            r matches Ok(ss) && ss.database() == self.database() && ss.wf() && ss.reported()
                == Seq::<MatchEvent>::empty(),
    {
        let scratch = self.scratch.clone();
        Ok(StreamScanner {
            scratch,
            shape: Ghost(self.db@),
            log: Ghost(Seq::empty()),
        })
    }
}

impl<'db> Clone for StreamingScanner<'db> {
    /// A second scanner over the same database, with its own independent
    /// workspace of the same shape.
    fn clone(&self) -> (r: Self)
        ensures
            r.database() == self.database(),
            r.wf() == self.wf(),
    {
        StreamingScanner { db: self.db, scratch: self.scratch.clone() }
    }
}

/// One open stream: match state accumulated across chunk boundaries, the
/// workspace the stream scans with, and the log of every match it has
/// reported. Closing consumes the session, so a closed stream can be
/// neither scanned nor closed again.
pub struct StreamScanner {
    pub(crate) scratch: Scratch,
    pub(crate) shape: Ghost<DbView>,
    pub(crate) log: Ghost<Seq<MatchEvent>>,
}

impl StreamScanner {
    /// The content of the database this stream scans against.
    pub closed spec fn database(&self) -> DbView {
        self.shape@
    }

    /// The workspace is shaped for exactly this stream's database.
    pub closed spec fn wf(&self) -> bool {
        self.scratch.fits(self.shape@)
    }

    /// Every match this stream has reported so far, in reporting order.
    pub closed spec fn reported(&self) -> Seq<MatchEvent> {
        self.log@
    }

    /// Delivers the match events of one scanned chunk to the handler, in
    /// the engine's reporting order, stopping right after the handler first
    /// answers `Terminate`. The stream's report log grows by exactly the
    /// delivered prefix, so the matches reported across a whole session are
    /// the chunks' reports joined in order. Early termination leaves the
    /// stream open: closing stays the caller's responsibility.
    pub fn scan<H: MatchHandler>(&mut self, events: &Vec<MatchEvent>, handler: &mut H) -> (r:
        Result<Scan, Error>)
        requires
            old(self).wf(),
        ensures
            final(self).wf(),
            final(self).database() == old(self).database(),
            final(self).reported() == old(self).reported() + events@.take(
                delivered_count::<H>(old(handler)@, events@),
            ),
            final(handler)@ == delivered_state::<H>(old(handler)@, events@),
            r matches Ok(s) && s == delivery_outcome::<H>(old(handler)@, events@),
    {
        proof {
            lemma_delivered_count_bounds::<H>(handler@, events@);
        }
        let ghost n = delivered_count::<H>(handler@, events@);
        let outcome = deliver_events(events, handler);
        self.log = Ghost(self.log@ + events@.take(n));
        Ok(outcome)
    }

    /// Closes the stream: the engine flushes the matches still pending at
    /// end of data, and this call delivers them like a scan; then the
    /// stream is gone — the session is consumed, so closing twice or
    /// scanning after close cannot be written. The call reports `Terminate`
    /// exactly when the handler cut the final delivery short.
    pub fn close<H: MatchHandler>(self, pending: &Vec<MatchEvent>, handler: &mut H) -> (r: Result<
        Scan,
        Error,
    >)
        requires
            self.wf(),
        ensures
            final(handler)@ == delivered_state::<H>(old(handler)@, pending@),
            r matches Ok(s) && s == delivery_outcome::<H>(old(handler)@, pending@),
    {
        let outcome = deliver_events(pending, handler);
        Ok(outcome)
    }
}

} // verus!
