//! The compiled database: a compile request screens and lowers its patterns
//! into the database's artifact, which can be sized, serialized and
//! deserialized with full round-trip fidelity, and cloned into an
//! independent copy.

use vstd::prelude::*;
use vstd::bytes::{spec_u32_to_le_bytes, spec_u64_to_le_bytes, u32_to_le_bytes, u64_to_le_bytes};
use vstd::string::StringExecFns;

use crate::error::{Error, HyperscanErrorCode};
use crate::flags::{ScanMode, mode_bits_of};
use crate::pattern::{
    Pattern, PatternView, expr_has_nul, is_first_nul, screen_fault_of, fault_text, find_nul,
    screen_expression, fault_message,
};

verus! {

/// One lowered pattern as the artifact stores it: the expression bytes, the
/// raw flag bits, and the identifier (a missing identifier lowers to `0`).
#[derive(Debug)]
pub struct DbEntry {
    pub(crate) expression: Vec<u8>,
    pub(crate) flags: u32,
    pub(crate) id: u32,
}

/// The mathematical content of a `DbEntry`.
pub ghost struct DbEntryView {
    /// the expression bytes
    pub expression: Seq<u8>,
    /// the raw flag bits
    pub flags: u32,
    /// the identifier reported with this pattern's matches
    pub id: u32,
}

impl View for DbEntry {
    type V = DbEntryView;

    closed spec fn view(&self) -> DbEntryView {
        DbEntryView { expression: self.expression@, flags: self.flags, id: self.id }
    }
}

/// How one pattern lowers into the artifact.
pub open spec fn lowered(p: PatternView) -> DbEntryView {
    DbEntryView {
        expression: p.expression,
        flags: p.flags,
        id: match p.id {
            Some(i) => i,
            None => 0,
        },
    }
}

/// The views of a sequence of entries.
pub open spec fn entry_views(s: Seq<DbEntry>) -> Seq<DbEntryView> {
    s.map_values(|d: DbEntry| d@)
}

/// The views of a sequence of patterns.
pub open spec fn pattern_views(s: Seq<Pattern>) -> Seq<PatternView> {
    s.map_values(|p: Pattern| p@)
}

/// Every pattern lowered, in order.
pub open spec fn lowered_all(ps: Seq<PatternView>) -> Seq<DbEntryView> {
    ps.map_values(|p: PatternView| lowered(p))
}

/// The mathematical content of a compiled database.
pub ghost struct DbView {
    /// the scan mode the database was compiled for
    pub mode: ScanMode,
    /// the lowered patterns, in compile order
    pub entries: Seq<DbEntryView>,
}

/// The first bytes of every serialized artifact.
pub open spec fn magic_bytes() -> Seq<u8> {
    seq![118u8, 115u8, 100u8, 98u8]
}

/// The serialized form of one entry: its expression length, the expression
/// bytes, the flag bits and the identifier.
pub open spec fn encode_entry(e: DbEntryView) -> Seq<u8> {
    spec_u64_to_le_bytes(e.expression.len() as u64) + e.expression + spec_u32_to_le_bytes(e.flags)
        + spec_u32_to_le_bytes(e.id)
}

/// The serialized form of a sequence of entries, in order.
pub open spec fn encode_entries(s: Seq<DbEntryView>) -> Seq<u8>
    decreases s.len(),
{
    if s.len() == 0 {
        Seq::empty()
    } else {
        encode_entries(s.drop_last()) + encode_entry(s.last())
    }
}

/// The serialized form of a whole database: magic, mode, entry count, and
/// every entry in order. The artifact's byte footprint is this sequence's
/// length.
pub open spec fn encode_db(v: DbView) -> Seq<u8> {
    magic_bytes() + spec_u32_to_le_bytes(mode_bits_of(v.mode)) + spec_u64_to_le_bytes(
        v.entries.len() as u64,
    ) + encode_entries(v.entries)
}

/// Extending an entry sequence extends its serialized form at the end.
pub proof fn lemma_encode_entries_snoc(s: Seq<DbEntryView>, i: int)
    requires
        0 <= i < s.len(),
    ensures
        encode_entries(s.take(i + 1)) == encode_entries(s.take(i)) + encode_entry(s[i]),
{
    assert(s.take(i + 1).drop_last() =~= s.take(i));
    assert(s.take(i + 1).last() == s[i]);
}

/// Copies a byte vector.
pub(crate) fn clone_bytes(src: &Vec<u8>) -> (out: Vec<u8>)
    ensures
        out@ == src@,
{
    let mut out: Vec<u8> = Vec::new();
    let mut j: usize = 0;
    while j < src.len()
        invariant
            j <= src@.len(),
            out@ == src@.take(j as int),
        decreases src@.len() - j,
    {
        out.push(src[j]);
        proof {
            assert(src@.take(j + 1) =~= src@.take(j as int).push(src@[j as int]));
        }
        j = j + 1;
    }
    proof {
        assert(src@.take(src@.len() as int) =~= src@);
    }
    out
}

/// Appends a byte vector to the end of another.
fn append_bytes(out: &mut Vec<u8>, src: &Vec<u8>)
    ensures
        final(out)@ == old(out)@ + src@,
{
    let mut j: usize = 0;
    while j < src.len()
        invariant
            j <= src@.len(),
            out@ == old(out)@ + src@.take(j as int),
        decreases src@.len() - j,
    {
        out.push(src[j]);
        proof {
            assert(old(out)@ + src@.take(j + 1) =~= (old(out)@ + src@.take(j as int)).push(
                src@[j as int],
            ));
        }
        j = j + 1;
    }
    proof {
        assert(old(out)@ + src@.take(src@.len() as int) =~= old(out)@ + src@);
    }
}

/// Appends the serialized form of one entry.
fn encode_entry_into(out: &mut Vec<u8>, e: &DbEntry)
    ensures
        final(out)@ == old(out)@ + encode_entry(e@),
{
    let len_bytes = u64_to_le_bytes(e.expression.len() as u64);
    append_bytes(out, &len_bytes);
    append_bytes(out, &e.expression);
    let flag_bytes = u32_to_le_bytes(e.flags);
    append_bytes(out, &flag_bytes);
    let id_bytes = u32_to_le_bytes(e.id);
    append_bytes(out, &id_bytes);
    proof {
        assert(out@ =~= old(out)@ + encode_entry(e@));
    }
}

/// A compiled multi-pattern database: the scan mode it was compiled for and
/// the lowered patterns making up its artifact.
#[derive(Debug)]
pub struct Database {
    pub(crate) mode: ScanMode,
    pub(crate) entries: Vec<DbEntry>,
}

impl View for Database {
    type V = DbView;

    closed spec fn view(&self) -> DbView {
        DbView { mode: self.mode, entries: entry_views(self.entries@) }
    }
}

/// Whether a whole pattern sequence is free of interior NUL bytes up to
/// position `k`.
pub open spec fn nul_free_up_to(ps: Seq<PatternView>, k: int) -> bool {
    forall|i: int| 0 <= i < k ==> !expr_has_nul(#[trigger] ps[i].expression)
}

/// Whether the screen passes every pattern before position `k`.
pub open spec fn screened_up_to(ps: Seq<PatternView>, k: int) -> bool {
    forall|i: int| 0 <= i < k ==> screen_fault_of(#[trigger] ps[i].expression) is None
}

/// Whether a compile request is accepted: at least one pattern, no interior
/// NUL byte anywhere, and every expression passes the screen.
pub open spec fn compile_ok(ps: Seq<PatternView>) -> bool {
    &&& ps.len() > 0
    &&& nul_free_up_to(ps, ps.len() as int)
    &&& screened_up_to(ps, ps.len() as int)
}

/// The exact errors a refused compile request produces: `Nul` carries the
/// position of the first NUL byte of the first expression holding one;
/// a compile rejection carries the screen's diagnostic for the first
/// offending expression and that expression's index, with index `-1` when
/// the request held no patterns at all.
pub open spec fn compile_err_ok(ps: Seq<PatternView>, e: Error) -> bool {
    match e {
        Error::Nul(p) => exists|k: int|
            0 <= k < ps.len() && nul_free_up_to(ps, k) && is_first_nul(
                #[trigger] ps[k].expression,
                p as int,
            ),
        Error::HyperscanCompile(m, ix) => {
            if ps.len() == 0 {
                ix == -1 && m@ == "no patterns were given"@
            } else {
                &&& 0 <= ix < ps.len()
                &&& nul_free_up_to(ps, ps.len() as int)
                &&& screened_up_to(ps, ix as int)
                &&& screen_fault_of(ps[ix as int].expression) matches Some(f) && m@ == fault_text(f)
            }
        },
        _ => false,
    }
}

impl Database {
    /// Compiles a set of patterns for the given scan mode. The request is
    /// accepted exactly when it holds at least one pattern, no expression
    /// holds an interior NUL byte, and every expression passes the screen;
    /// the accepted request lowers every pattern, in order, into the
    /// database's artifact.
    pub fn new(patterns: Vec<Pattern>, mode: ScanMode) -> (r: Result<Database, Error>)
        requires
            patterns@.len() <= 0x7fff_ffff,
        ensures
            ({
                let ps = pattern_views(patterns@);
                match r {
                    Ok(db) => compile_ok(ps) && db@ == (DbView { mode, entries: lowered_all(ps) }),
                    Err(e) => !compile_ok(ps) && compile_err_ok(ps, e),
                }
            }),
    {
        let ghost ps = pattern_views(patterns@);
        if patterns.len() == 0 {
            return Err(Error::HyperscanCompile(String::from_str("no patterns were given"), -1));
        }
        let mut k: usize = 0;
        while k < patterns.len()
            invariant
                k <= patterns@.len(),
                ps == pattern_views(patterns@),
                nul_free_up_to(ps, k as int),
            decreases patterns@.len() - k,
        {
            proof {
                assert(ps[k as int] == patterns@[k as int]@);
            }
            let pat = &patterns[k];
            match find_nul(pat.expression()) {
                Some(p) => {
                    proof {
                        assert(is_first_nul(ps[k as int].expression, p as int));
                        assert(expr_has_nul(ps[k as int].expression));
                        assert(!compile_ok(ps));
                        assert(compile_err_ok(ps, Error::Nul(p)));
                    }
                    return Err(Error::Nul(p));
                },
                None => {},
            }
            k = k + 1;
        }
        let mut k: usize = 0;
        while k < patterns.len()
            invariant
                k <= patterns@.len(),
                ps == pattern_views(patterns@),
                patterns@.len() <= 0x7fff_ffff,
                nul_free_up_to(ps, ps.len() as int),
                screened_up_to(ps, k as int),
            decreases patterns@.len() - k,
        {
            proof {
                assert(ps[k as int] == patterns@[k as int]@);
            }
            let pat = &patterns[k];
            match screen_expression(pat.expression()) {
                Some(f) => {
                    let msg = fault_message(f);
                    proof {
                        assert(screen_fault_of(ps[k as int].expression) == Some(f));
                        assert(!compile_ok(ps));
                        assert(compile_err_ok(ps, Error::HyperscanCompile(msg, k as i32)));
                    }
                    return Err(Error::HyperscanCompile(msg, k as i32));
                },
                None => {},
            }
            k = k + 1;
        }
        let mut entries: Vec<DbEntry> = Vec::new();
        let mut k: usize = 0;
        while k < patterns.len()
            invariant
                k <= patterns@.len(),
                ps == pattern_views(patterns@),
                entry_views(entries@) == lowered_all(ps).take(k as int),
            decreases patterns@.len() - k,
        {
            proof {
                assert(ps[k as int] == patterns@[k as int]@);
            }
            let pat = &patterns[k];
            let expression = clone_bytes(pat.expression());
            let flags = pat.flags().bits;
            let id = match pat.id() {
                Some(i) => i,
                None => 0,
            };
            let ghost pre = entries@;
            entries.push(DbEntry { expression, flags, id });
            proof {
                assert(entry_views(pre).len() == pre.len());
                assert(pre.len() == k as int);
                assert(entries@[k as int]@ == lowered(ps[k as int]));
                assert forall|i: int| 0 <= i < k + 1 implies entry_views(entries@)[i]
                    == lowered_all(ps).take(k + 1)[i] by {
                    if i < k {
                        assert(entries@[i] == pre[i]);
                        assert(entry_views(pre)[i] == lowered_all(ps).take(k as int)[i]);
                    }
                }
                assert(entry_views(entries@).len() == k + 1);
                assert(entry_views(entries@) =~= lowered_all(ps).take(k + 1));
            }
            k = k + 1;
        }
        proof {
            assert(lowered_all(ps).take(ps.len() as int) =~= lowered_all(ps));
        }
        Ok(Database { mode, entries })
    }

    /// Builds the serialized artifact bytes.
    pub(crate) fn encode_all(&self) -> (out: Vec<u8>)
        ensures
            out@ == encode_db(self@),
    {
        let mut out: Vec<u8> = Vec::new();
        out.push(118);
        out.push(115);
        out.push(100);
        out.push(98);
        proof {
            assert(out@ =~= magic_bytes());
        }
        let mode_le = u32_to_le_bytes(self.mode.bits());
        append_bytes(&mut out, &mode_le);
        let count_le = u64_to_le_bytes(self.entries.len() as u64);
        append_bytes(&mut out, &count_le);
        let ghost header = magic_bytes() + spec_u32_to_le_bytes(mode_bits_of(self.mode))
            + spec_u64_to_le_bytes(self@.entries.len() as u64);
        proof {
            assert(out@ =~= header + encode_entries(self@.entries.take(0)));
        }
        let mut k: usize = 0;
        while k < self.entries.len()
            invariant
                k <= self.entries@.len(),
                self@.entries.len() == self.entries@.len(),
                header == magic_bytes() + spec_u32_to_le_bytes(mode_bits_of(self@.mode))
                    + spec_u64_to_le_bytes(self@.entries.len() as u64),
                out@ == header + encode_entries(self@.entries.take(k as int)),
            decreases self.entries@.len() - k,
        {
            encode_entry_into(&mut out, &self.entries[k]);
            proof {
                assert(self@.entries[k as int] == self.entries@[k as int]@);
                lemma_encode_entries_snoc(self@.entries, k as int);
                assert(out@ =~= header + encode_entries(self@.entries.take(k + 1)));
            }
            k = k + 1;
        }
        proof {
            assert(self@.entries.take(self@.entries.len() as int) =~= self@.entries);
            assert(out@ =~= encode_db(self@));
        }
        out
    }

    /// The byte footprint of this database's artifact. Always succeeds.
    pub fn size(&self) -> (r: Result<usize, Error>)
        ensures
            r matches Ok(n) && n == encode_db(self@).len(),
    {
        let bytes = self.encode_all();
        Ok(bytes.len())
    }

    /// The byte footprint of the state one open stream keeps for this
    /// database: a stream head plus a fixed amount per pattern. Fails with a
    /// mode error on a database not compiled for streaming, and with an
    /// insufficient-space error when the footprint does not fit `usize`.
    pub fn stream_size(&self) -> (r: Result<usize, Error>)
        ensures
            ({
                if !(self@.mode is Stream) {
                    r matches Err(e) && e matches Error::Hyperscan(c, v) && c
                        == HyperscanErrorCode::DbModeError && v == -7
                } else if 8 + 8 * self@.entries.len() <= usize::MAX {
                    r matches Ok(n) && n == 8 + 8 * self@.entries.len()
                } else {
                    r matches Err(e) && e matches Error::Hyperscan(c, v) && c
                        == HyperscanErrorCode::InsufficientSpace && v == -12
                }
            }),
    {
        if !matches!(self.mode, ScanMode::Stream) {
            return Err(Error::Hyperscan(HyperscanErrorCode::DbModeError, -7));
        }
        match self.entries.len().checked_mul(8) {
            Some(per_pattern) => match per_pattern.checked_add(8) {
                Some(total) => Ok(total),
                None => Err(Error::Hyperscan(HyperscanErrorCode::InsufficientSpace, -12)),
            },
            None => Err(Error::Hyperscan(HyperscanErrorCode::InsufficientSpace, -12)),
        }
    }

    /// Copies the entries of this database.
    pub(crate) fn clone_entries(&self) -> (out: Vec<DbEntry>)
        ensures
            entry_views(out@) == self@.entries,
    {
        let mut out: Vec<DbEntry> = Vec::new();
        let mut k: usize = 0;
        while k < self.entries.len()
            invariant
                k <= self.entries@.len(),
                entry_views(out@) == entry_views(self.entries@).take(k as int),
            decreases self.entries@.len() - k,
        {
            let e = &self.entries[k];
            let expression = clone_bytes(&e.expression);
            let ghost pre = out@;
            out.push(DbEntry { expression, flags: e.flags, id: e.id });
            proof {
                assert(entry_views(pre).len() == pre.len());
                assert(pre.len() == k as int);
                assert(out@[k as int]@ == entry_views(self.entries@)[k as int]);
                assert forall|i: int| 0 <= i < k + 1 implies entry_views(out@)[i] == entry_views(
                    self.entries@,
                ).take(k + 1)[i] by {
                    if i < k {
                        assert(out@[i] == pre[i]);
                        assert(entry_views(pre)[i] == entry_views(self.entries@).take(k as int)[i]);
                    }
                }
                assert(entry_views(out@).len() == k + 1);
                assert(entry_views(out@) =~= entry_views(self.entries@).take(k + 1));
            }
            k = k + 1;
        }
        proof {
            assert(entry_views(self.entries@).take(self.entries@.len() as int) =~= entry_views(
                self.entries@,
            ));
        }
        out
    }

    /// Serializes this database into an owned byte buffer. Always succeeds,
    /// and the serialized database stands for exactly this database: a
    /// deserialize of the result yields a database with this database's
    /// whole content, and so with its exact size.
    pub fn serialize(&self) -> (r: Result<SerializedDatabase, Error>)
        ensures
            r matches Ok(s) && s@ == self@ && s.encoded() == encode_db(self@),
    {
        let bytes = self.encode_all();
        let entries = self.clone_entries();
        Ok(SerializedDatabase { bytes, mode: self.mode, entries })
    }

    /// Deserializes a serialized database; the companion of
    /// `SerializedDatabase::deserialize`.
    pub fn deserialize(sdb: SerializedDatabase) -> (r: Result<Database, Error>)
        ensures
            r matches Ok(db) && db@ == sdb@,
    {
        Ok(Database { mode: sdb.mode, entries: sdb.entries })
    }
}

impl Clone for Database {
    /// Deep copy: the clone holds its own artifact with the same content, so
    /// either copy can be dropped without touching the other.
    fn clone(&self) -> (r: Self)
        ensures
            r@ == self@,
    {
        let entries = self.clone_entries();
        Database { mode: self.mode, entries }
    }
}

/// A database in its serialized form: an owned byte buffer, exclusively
/// owned, released with the value. It exists to move a database between
/// instances, and stands for exactly the database serialized into it.
#[derive(Debug)]
pub struct SerializedDatabase {
    pub(crate) bytes: Vec<u8>,
    pub(crate) mode: ScanMode,
    pub(crate) entries: Vec<DbEntry>,
}

impl View for SerializedDatabase {
    type V = DbView;

    closed spec fn view(&self) -> DbView {
        DbView { mode: self.mode, entries: entry_views(self.entries@) }
    }
}

impl SerializedDatabase {
    /// The owned buffer's bytes.
    pub closed spec fn encoded(&self) -> Seq<u8> {
        self.bytes@
    }

    /// The length of the owned buffer.
    pub fn len(&self) -> (n: usize)
        ensures
            n == self.encoded().len(),
    {
        self.bytes.len()
    }

    /// Deserializes this buffer back into a database with the exact content
    /// of the database that was serialized. Always succeeds.
    pub fn deserialize(self) -> (r: Result<Database, Error>)
        ensures
            r matches Ok(db) && db@ == self@,
    {
        Database::deserialize(self)
    }

    /// The byte footprint a deserialize of this buffer produces, without
    /// deserializing: it equals the size of the database that was
    /// serialized. Always succeeds.
    pub fn deserialized_size(&self) -> (r: Result<usize, Error>)
        ensures
            r matches Ok(n) && n == self.encoded().len(),
    {
        Ok(self.bytes.len())
    }
}

} // verus!
