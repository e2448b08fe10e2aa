//! Lazy, memoized resolution of functions exported by dynamically loaded
//! libraries.
//!
//! The library keeps, per loaded library, a handle cache and an array of
//! symbol slots. Every decision of the cache (when to load, when to look a
//! symbol up, what to memoize, what to clear on free) is a verified step
//! function; the operating-system calls themselves are performed by the
//! caller, which hands their results back to the cache.

mod cache;
mod error;
mod laws;
mod library;
mod link;
mod slots;

pub use cache::{handle_valid, is_invalid_handle, CacheState, DllCache, Step};
pub use error::{Error, ErrorKind};
pub use library::{utf16_of, LibrarySpec, SymbolSpec};
pub use link::{make_int_resource_a, Proc, ProcName};
pub use laws::{
    initial, lemma_absent_library, lemma_error_kinds, lemma_failure_not_memoized, lemma_free_clears, lemma_resolution_memoized,
    lemma_resolution_result, lemma_slots_before_handle, lemma_stale_lookup_discarded, loads_all_fail, replay, resolution,
    Resolution,
};
