use crate::error::ErrorKind;
use crate::library::LibrarySpec;
use crate::slots::{new_slot_cell, set_slot_array, slot_array, slot_array_of, take_slot_array};
use once_cell::sync::OnceCell;
use vstd::prelude::*;

verus! {

/// A library handle is unusable when it is null or the all-ones value.
pub open spec fn handle_valid(h: usize) -> bool {
    h != 0 && h != usize::MAX
}

/// Whether a raw library handle is unusable.
pub fn is_invalid_handle(h: usize) -> (r: bool)
    ensures
        r == !handle_valid(h),
{
    h == 0 || h == usize::MAX
}

/// The generation that follows `g`; it wraps around at the top.
pub open spec fn next_generation(g: u64) -> u64 {
    if g == u64::MAX {
        0
    } else {
        (g + 1) as u64
    }
}

/// A slot array of `n` unresolved slots.
pub open spec fn unresolved(n: nat) -> Seq<usize> {
    Seq::new(n, |_j: int| 0usize)
}

/// A slot array of `n` unresolved slots.
fn unresolved_slots(n: usize) -> (v: Vec<usize>)
    ensures
        v@ == unresolved(n as nat),
{
    let mut v: Vec<usize> = Vec::new();
    let mut i: usize = 0;
    while i < n
        invariant
            i <= n,
            v@ == unresolved(i as nat),
        decreases n - i,
    {
        v.push(0);
        i = i + 1;
        assert(v@ =~= unresolved(i as nat));
    }
    v
}

/// What the caller of the cache is to do next, or the outcome.
#[derive(Debug, Clone, Copy, PartialEq, Eq, Structural)]
pub enum Step {
    /// The symbol resolved to this address.
    Resolved(usize),
    /// Resolution failed; nothing was memoized.
    Failed(ErrorKind),
    /// Load the library, then report the handle with `on_loaded`.
    Load,
    /// Look the symbol up in `handle`, then report the address with
    /// `on_found`, passing `generation` back.
    Lookup { handle: usize, generation: u64 },
}

/// The cache's state as the contracts see it: the published handle, the
/// load generation (counting frees), and the slot array once allocated,
/// where 0 marks an unresolved slot.
pub struct CacheState {
    pub handle: usize,
    pub generation: u64,
    pub slots: Option<Seq<usize>>,
}

impl CacheState {
    /// The memoized address of symbol `i`, or 0.
    pub open spec fn slot(self, i: int) -> usize {
        match self.slots {
            Some(s) => s[i],
            None => 0,
        }
    }

    /// The slot array always has one slot per declared symbol, and it is
    /// allocated before any valid handle is published.
    pub open spec fn wf(self, n: nat) -> bool {
        &&& (self.slots is Some ==> self.slots.unwrap().len() == n)
        &&& (handle_valid(self.handle) ==> self.slots is Some)
    }

    /// First step of resolving symbol `i`: a memoized address is returned at
    /// once; otherwise the symbol is looked up in the published handle, or
    /// the library is loaded first.
    pub open spec fn begin(self, i: int) -> Step {
        if self.slot(i) != 0 {
            Step::Resolved(self.slot(i))
        } else if handle_valid(self.handle) {
            Step::Lookup { handle: self.handle, generation: self.generation }
        } else {
            Step::Load
        }
    }

    /// The state once a load returned `raw`: the slot array is allocated if
    /// it was not, then `raw` is published, valid or not.
    pub open spec fn loaded(self, raw: usize, n: nat) -> CacheState {
        CacheState {
            handle: raw,
            generation: self.generation,
            slots: if self.slots is Some {
                self.slots
            } else {
                Some(unresolved(n))
            },
        }
    }

    /// What follows a load that returned `raw`, for symbol `i`.
    pub open spec fn loaded_step(self, raw: usize, i: int, n: nat) -> Step {
        if !handle_valid(raw) {
            Step::Failed(ErrorKind::Lib)
        } else {
            self.loaded(raw, n).begin(i)
        }
    }

    /// Whether a lookup issued in generation `g` still belongs to this state.
    pub open spec fn current(self, g: u64) -> bool {
        g == self.generation && self.slots is Some
    }

    /// The state once the lookup of symbol `i` issued in generation `g`
    /// returned `p`: a non-null address of the current generation is
    /// memoized; anything else leaves the state as it was.
    pub open spec fn found(self, i: int, g: u64, p: usize) -> CacheState {
        if self.current(g) && p != 0 {
            CacheState { slots: Some(self.slots.unwrap().update(i, p)), ..self }
        } else {
            self
        }
    }

    /// What follows that lookup: a stale one starts over.
    pub open spec fn found_step(self, i: int, g: u64, p: usize) -> Step {
        if !self.current(g) {
            self.begin(i)
        } else if p == 0 {
            Step::Failed(ErrorKind::Proc)
        } else {
            Step::Resolved(p)
        }
    }

    /// Whether a library is loaded, so that `free` has something to release.
    pub open spec fn freeable(self) -> bool {
        handle_valid(self.handle)
    }

    /// The state after `free`: handle cleared, every slot unresolved, and a
    /// new generation, so that lookups issued before are recognised as stale.
    pub open spec fn freed(self) -> CacheState {
        if self.freeable() {
            CacheState {
                handle: 0,
                generation: next_generation(self.generation),
                slots: match self.slots {
                    Some(s) => Some(unresolved(s.len())),
                    None => None,
                },
            }
        } else {
            self
        }
    }
}

/// The runtime cache of one library: its handle and its symbol slots.
pub struct DllCache {
    lib: LibrarySpec,
    handle: usize,
    procs: OnceCell<Vec<usize>>,
    generation: u64,
}

impl View for DllCache {
    type V = CacheState;

    closed spec fn view(&self) -> CacheState {
        CacheState {
            handle: self.handle,
            generation: self.generation,
            slots: slot_array_of(self.procs),
        }
    }
}

impl DllCache {
    /// The library this cache serves.
    pub closed spec fn spec_lib(&self) -> LibrarySpec {
        self.lib
    }

    /// The number of declared symbols.
    pub open spec fn n(&self) -> nat {
        self.spec_lib().symbols@.len()
    }

    pub open spec fn wf(&self) -> bool {
        self@.wf(self.n())
    }

    /// A cache with no library loaded and no slot array.
    pub fn empty(lib: LibrarySpec) -> (r: Self)
        ensures
            r.spec_lib() == lib,
            r@ == (CacheState { handle: 0, generation: 0, slots: None }),
            r.wf(),
    {
        DllCache { lib, handle: 0, procs: new_slot_cell(), generation: 0 }
    }

    /// The library this cache serves.
    pub fn library(&self) -> (r: &LibrarySpec)
        ensures
            *r == self.spec_lib(),
    {
        &self.lib
    }

    /// The published handle, when it is valid.
    pub fn cached_handle(&self) -> (r: Option<usize>)
        ensures
            r == (if handle_valid(self@.handle) {
                Some(self@.handle)
            } else {
                None
            }),
    {
        if is_invalid_handle(self.handle) {
            None
        } else {
            Some(self.handle)
        }
    }

    /// The memoized address of symbol `index`, or 0.
    fn slot(&self, index: usize) -> (r: usize)
        requires
            self.wf(),
            index < self.n(),
        ensures
            r == self@.slot(index as int),
    {
        match slot_array(&self.procs) {
            Some(v) => v[index],
            None => 0,
        }
    }

    /// Records the handle a load returned. The slot array is allocated first,
    /// so that no one sees a valid handle without it.
    pub fn load_and_cache_lib(&mut self, raw: usize) -> (r: usize)
        requires
            old(self).wf(),
        ensures
            final(self).spec_lib() == old(self).spec_lib(),
            final(self)@ == old(self)@.loaded(raw, old(self).n()),
            final(self).wf(),
            r == raw,
    {
        if slot_array(&self.procs).is_none() {
            let _ = set_slot_array(&mut self.procs, unresolved_slots(self.lib.len()));
        }
        self.handle = raw;
        raw
    }

    /// Starts resolving symbol `index`.
    pub fn get_proc(&self, index: usize) -> (r: Step)
        requires
            self.wf(),
            index < self.n(),
        ensures
            r == self@.begin(index as int),
    {
        let p = self.slot(index);
        if p != 0 {
            Step::Resolved(p)
        } else if !is_invalid_handle(self.handle) {
            Step::Lookup { handle: self.handle, generation: self.generation }
        } else {
            Step::Load
        }
    }

    /// Continues resolving symbol `index` once a load returned `raw`.
    pub fn on_loaded(&mut self, index: usize, raw: usize) -> (r: Step)
        requires
            old(self).wf(),
            index < old(self).n(),
        ensures
            final(self).spec_lib() == old(self).spec_lib(),
            final(self)@ == old(self)@.loaded(raw, old(self).n()),
            final(self).wf(),
            r == old(self)@.loaded_step(raw, index as int, old(self).n()),
    {
        self.load_and_cache_lib(raw);
        if is_invalid_handle(raw) {
            Step::Failed(ErrorKind::Lib)
        } else {
            self.get_proc(index)
        }
    }

    /// Finishes resolving symbol `index` once the lookup issued in
    /// `generation` returned `ptr`.
    pub fn on_found(&mut self, index: usize, generation: u64, ptr: usize) -> (r: Step)
        requires
            old(self).wf(),
            index < old(self).n(),
        ensures
            final(self).spec_lib() == old(self).spec_lib(),
            final(self)@ == old(self)@.found(index as int, generation, ptr),
            final(self).wf(),
            r == old(self)@.found_step(index as int, generation, ptr),
    {
        if generation != self.generation || slot_array(&self.procs).is_none() {
            return self.get_proc(index);
        }
        if ptr == 0 {
            return Step::Failed(ErrorKind::Proc);
        }
        let taken = take_slot_array(&mut self.procs);
        match taken {
            Some(mut v) => {
                v[index] = ptr;
                let _ = set_slot_array(&mut self.procs, v);
            },
            None => {},
        }
        Step::Resolved(ptr)
    }

    /// Clears the handle and every slot, ahead of releasing the library.
    /// Returns the handle to release, or `None` when nothing is loaded.
    pub fn free_lib(&mut self) -> (r: Option<usize>)
        requires
            old(self).wf(),
        ensures
            final(self).spec_lib() == old(self).spec_lib(),
            final(self)@ == old(self)@.freed(),
            final(self).wf(),
            r == (if old(self)@.freeable() {
                Some(old(self)@.handle)
            } else {
                None
            }),
    {
        if is_invalid_handle(self.handle) {
            return None;
        }
        let handle = self.handle;
        self.handle = 0;
        let taken = take_slot_array(&mut self.procs);
        match taken {
            Some(v) => {
                let _ = set_slot_array(&mut self.procs, unresolved_slots(v.len()));
            },
            None => {},
        }
        self.generation = if self.generation == u64::MAX {
            0
        } else {
            self.generation + 1
        };
        Some(handle)
    }
}

} // verus!
