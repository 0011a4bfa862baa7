//! A safe, verified facade for a pre-compiled multi-pattern matching engine.
//!
//! The crate models the engine-facing layer: building a compile request from
//! a set of patterns, the compiled artifact and its serialized form, the
//! per-scan workspace paired with its database, the delivery of match events
//! to caller-supplied handlers with early termination, and the translation of
//! raw status codes into a structured error taxonomy. The native scanning
//! engine itself is reached only from unverified shell code, which feeds its
//! raw results through the functions and state machines defined here.

mod block;
mod database;
mod error;
mod flags;
mod matching;
mod pattern;
mod scratch;
mod stream;

pub use block::{BlockDatabase, BlockScanner};
pub use stream::{StreamScanner, StreamingDatabase, StreamingScanner};

pub use matching::{CollectorView, MatchCollector, MatchEvent, MatchHandler, Scan};
pub use matching::{
    callback_code, deliver_events, delivered_count, delivered_state, delivery_outcome,
    lemma_collector_reports_all, lemma_collector_stops_at_limit, lemma_delivered_count_bounds,
    scan_outcome,
};
pub use scratch::Scratch;

pub use database::{Database, DbEntry, DbEntryView, DbView, SerializedDatabase};
pub use database::{
    compile_err_ok, compile_ok, encode_db, encode_entries, encode_entry, entry_views, lowered,
    lowered_all, magic_bytes, nul_free_up_to, pattern_views, screened_up_to,
};

pub use error::{AsResult, Error, HyperscanErrorCode};
pub use error::{classify_code, code_class};
pub use flags::{Flag, ScanMode, mode_bits_of};
pub use pattern::{Pattern, PatternView, ScreenFault};
pub use pattern::{expr_has_nul, is_first_nul, screen_fault_of, fault_text};
