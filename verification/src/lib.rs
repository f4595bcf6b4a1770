//! Process-activity detector core: a catalog of executable signatures, exact
//! (case-insensitive, suffix-normalized) name matching against running
//! processes, a start/stop/switch transition state machine, and the retry
//! backoff policy for the catalog fetch.

pub mod backoff;
pub mod catalog;
pub mod detect;
pub mod matching;
pub mod scanner;
pub mod transition;
