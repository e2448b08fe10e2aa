//! What a whole resolution does, when its steps run one after another
//! against a platform whose load returns `load` and whose lookup returns
//! `lookup`, and the laws that the cache obeys.

use crate::cache::{handle_valid, unresolved, CacheState, Step};
use crate::error::ErrorKind;
use vstd::prelude::*;

verus! {

/// The outcome of one resolution, with the number of platform calls made.
pub struct Resolution {
    pub state: CacheState,
    pub result: Result<usize, ErrorKind>,
    pub loads: nat,
    pub lookups: nat,
}

/// The result a final step reports.
pub open spec fn outcome(step: Step) -> Result<usize, ErrorKind> {
    match step {
        Step::Resolved(p) => Ok(p),
        Step::Failed(k) => Err(k),
        _ => Err(ErrorKind::Lib),
    }
}

/// From a state in which the lookup of symbol `i` was just issued.
pub open spec fn after_lookup(s: CacheState, i: int, g: u64, lookup: usize, loads: nat) -> Resolution {
    Resolution {
        state: s.found(i, g, lookup),
        result: outcome(s.found_step(i, g, lookup)),
        loads,
        lookups: 1,
    }
}

/// Resolving symbol `i` of a library with `n` symbols, from state `s`.
pub open spec fn resolution(s: CacheState, i: int, n: nat, load: usize, lookup: usize) -> Resolution {
    match s.begin(i) {
        Step::Lookup { handle: _, generation } => after_lookup(s, i, generation, lookup, 0),
        Step::Load => {
            let s1 = s.loaded(load, n);
            match s.loaded_step(load, i, n) {
                Step::Lookup { handle: _, generation } => after_lookup(s1, i, generation, lookup, 1),
                step => Resolution { state: s1, result: outcome(step), loads: 1, lookups: 0 },
            }
        },
        step => Resolution { state: s, result: outcome(step), loads: 0, lookups: 0 },
    }
}

/// The result of a resolution: a memoized address, else `Lib` when the
/// library is neither loaded nor loads, else `Proc` when the lookup finds
/// nothing, else the address found.
pub proof fn lemma_resolution_result(s: CacheState, i: int, n: nat, load: usize, lookup: usize)
    requires
        s.wf(n),
        0 <= i < n,
    ensures
        resolution(s, i, n, load, lookup).result == (if s.slot(i) != 0 {
            Ok(s.slot(i))
        } else if !handle_valid(s.handle) && !handle_valid(load) {
            Err(ErrorKind::Lib)
        } else if lookup == 0 {
            Err(ErrorKind::Proc)
        } else {
            Ok(lookup)
        }),
        resolution(s, i, n, load, lookup).state.wf(n),
{
    let s1 = s.loaded(load, n);
    if s.slot(i) == 0 && !handle_valid(s.handle) && handle_valid(load) {
        assert(s1.slot(i) == 0);
    }
}

/// Idempotent resolution: once a symbol has resolved to `p`, resolving it
/// again returns `p` and calls the platform no more, whatever it would
/// answer.
pub proof fn lemma_resolution_memoized(
    s: CacheState,
    i: int,
    n: nat,
    load: usize,
    lookup: usize,
    load2: usize,
    lookup2: usize,
)
    requires
        s.wf(n),
        0 <= i < n,
        resolution(s, i, n, load, lookup).result is Ok,
    ensures
        ({
            let r = resolution(s, i, n, load, lookup);
            resolution(r.state, i, n, load2, lookup2) == (Resolution {
                state: r.state,
                result: r.result,
                loads: 0,
                lookups: 0,
            })
        }),
{
    lemma_resolution_result(s, i, n, load, lookup);
}

/// No cached failure: after a failed resolution the next one calls the
/// platform again; a library that did not load is loaded again, and a
/// symbol that was not found is looked up again.
pub proof fn lemma_failure_not_memoized(
    s: CacheState,
    i: int,
    n: nat,
    load: usize,
    lookup: usize,
    load2: usize,
    lookup2: usize,
)
    requires
        s.wf(n),
        0 <= i < n,
        resolution(s, i, n, load, lookup).result is Err,
    ensures
        ({
            let r = resolution(s, i, n, load, lookup);
            let again = resolution(r.state, i, n, load2, lookup2);
            &&& r.result == Err::<usize, ErrorKind>(ErrorKind::Lib) ==> again.loads == 1
            &&& r.result == Err::<usize, ErrorKind>(ErrorKind::Proc) ==> again.lookups == 1
            &&& again.loads + again.lookups >= 1
        }),
{
    lemma_resolution_result(s, i, n, load, lookup);
}

/// Disjoint error kinds: for a symbol not yet resolved, a library that does
/// not load gives `Lib`, and a loaded library without the symbol gives
/// `Proc`.
pub proof fn lemma_error_kinds(s: CacheState, i: int, n: nat, load: usize, lookup: usize)
    requires
        s.wf(n),
        0 <= i < n,
        s.slot(i) == 0,
    ensures
        !handle_valid(s.handle) && !handle_valid(load) ==> resolution(s, i, n, load, lookup).result
            == Err::<usize, ErrorKind>(ErrorKind::Lib),
        (handle_valid(s.handle) || handle_valid(load)) && lookup == 0 ==> resolution(
            s,
            i,
            n,
            load,
            lookup,
        ).result == Err::<usize, ErrorKind>(ErrorKind::Proc),
{
    lemma_resolution_result(s, i, n, load, lookup);
}

/// The state of a cache that has never been used, as `DllCache::empty`
/// leaves it.
pub open spec fn initial() -> CacheState {
    CacheState { handle: 0, generation: 0, slots: None }
}

/// The state after resolving, one after another, the calls of `calls`; each
/// call is the symbol, what the load returns, and what the lookup returns.
pub open spec fn replay(s: CacheState, n: nat, calls: Seq<(int, usize, usize)>) -> CacheState
    decreases calls.len(),
{
    if calls.len() == 0 {
        s
    } else {
        let c = calls.last();
        resolution(replay(s, n, calls.drop_last()), c.0, n, c.1, c.2).state
    }
}

/// Whether every call of `calls` names a declared symbol and meets a load
/// that fails.
pub open spec fn loads_all_fail(n: nat, calls: Seq<(int, usize, usize)>) -> bool {
    forall|k: int|
        0 <= k < calls.len() ==> 0 <= #[trigger] calls[k].0 < n && !handle_valid(calls[k].1)
}

/// While every load has failed, no handle is published and no slot holds
/// an address.
proof fn lemma_never_loaded(n: nat, calls: Seq<(int, usize, usize)>)
    requires
        loads_all_fail(n, calls),
    ensures
        replay(initial(), n, calls).wf(n),
        !handle_valid(replay(initial(), n, calls).handle),
        forall|j: int| 0 <= j < n ==> #[trigger] replay(initial(), n, calls).slot(j) == 0,
    decreases calls.len(),
{
    if calls.len() > 0 {
        let prev = calls.drop_last();
        assert forall|k: int| 0 <= k < prev.len() implies 0 <= #[trigger] prev[k].0 < n
            && !handle_valid(prev[k].1) by {
            assert(prev[k] == calls[k]);
        }
        lemma_never_loaded(n, prev);
        let c = calls.last();
        assert(calls[calls.len() - 1] == c);
        let s = replay(initial(), n, prev);
        let s1 = s.loaded(c.1, n);
        assert forall|j: int| 0 <= j < n implies #[trigger] s1.slot(j) == 0 by {
            if s.slots is None {
                assert(s1.slots.unwrap() == unresolved(n));
                assert(unresolved(n)[j] == 0);
            } else {
                assert(s.slot(j) == 0);
                assert(s1.slot(j) == s.slot(j));
            }
        }
    }
}

/// Disjoint error kinds, the library half: a library that no load ever
/// finds gives `Lib`, and no lookup is made, whatever symbols were resolved
/// on the cache before.
pub proof fn lemma_absent_library(
    n: nat,
    calls: Seq<(int, usize, usize)>,
    i: int,
    load: usize,
    lookup: usize,
)
    requires
        loads_all_fail(n, calls),
        0 <= i < n,
        !handle_valid(load),
    ensures
        ({
            let r = resolution(replay(initial(), n, calls), i, n, load, lookup);
            &&& r.result == Err::<usize, ErrorKind>(ErrorKind::Lib)
            &&& r.loads == 1
            &&& r.lookups == 0
        }),
{
    lemma_never_loaded(n, calls);
}

/// Ordering: every transition keeps the slot array allocated, with one slot
/// per symbol, whenever a valid handle is published.
pub proof fn lemma_slots_before_handle(s: CacheState, n: nat, raw: usize, i: int, g: u64, p: usize)
    requires
        s.wf(n),
        0 <= i < n,
    ensures
        s.loaded(raw, n).wf(n),
        s.found(i, g, p).wf(n),
        s.freed().wf(n),
        handle_valid(s.loaded(raw, n).handle) ==> s.loaded(raw, n).slots is Some,
        handle_valid(s.found(i, g, p).handle) ==> s.found(i, g, p).slots is Some,
        handle_valid(s.freed().handle) ==> s.freed().slots is Some,
{
}

/// Free clears state: after a free of a loaded library every slot is
/// unresolved, and the next resolution of any symbol loads the library
/// afresh and looks the symbol up afresh.
pub proof fn lemma_free_clears(s: CacheState, n: nat, i: int, load: usize, lookup: usize)
    requires
        s.wf(n),
        s.freeable(),
        0 <= i < n,
    ensures
        forall|j: int| 0 <= j < n ==> #[trigger] s.freed().slot(j) == 0,
        !handle_valid(s.freed().handle),
        resolution(s.freed(), i, n, load, lookup).loads == 1,
        handle_valid(load) ==> resolution(s.freed(), i, n, load, lookup).lookups == 1,
        resolution(s.freed(), i, n, load, lookup).result == (if !handle_valid(load) {
            Err(ErrorKind::Lib)
        } else if lookup == 0 {
            Err(ErrorKind::Proc)
        } else {
            Ok(lookup)
        }),
{
    let f = s.freed();
    assert(f.slots.unwrap() =~= unresolved(n));
    assert(f.slot(i) == 0);
    lemma_resolution_result(f, i, n, load, lookup);
    let s1 = f.loaded(load, n);
    assert(s1.slot(i) == 0);
}

/// A lookup issued before a free is stale afterwards: its address is never
/// memoized into the cleared slots.
pub proof fn lemma_stale_lookup_discarded(s: CacheState, n: nat, i: int, p: usize)
    requires
        s.wf(n),
        s.freeable(),
        0 <= i < n,
    ensures
        s.freed().found(i, s.generation, p) == s.freed(),
        s.freed().found_step(i, s.generation, p) == Step::Load,
{
    let f = s.freed();
    assert(f.slots.unwrap() =~= unresolved(n));
    assert(f.slot(i) == 0);
}

} // verus!
