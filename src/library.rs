use crate::link::{expected_proc_name, proc_name_view, Proc, ProcName};
use vstd::prelude::*;
use vstd::string::StrSliceExecFns;

verus! {

/// The UTF-16 code units of one character.
pub open spec fn utf16_units(c: char) -> Seq<u16> {
    let v = c as u32;
    if v < 0x10000 {
        seq![v as u16]
    } else {
        seq![(0xD800 + (v - 0x10000) / 0x400) as u16, (0xDC00 + (v - 0x10000) % 0x400) as u16]
    }
}

/// The UTF-16 encoding of a string.
pub open spec fn utf16_of(s: Seq<char>) -> Seq<u16>
    decreases s.len(),
{
    if s.len() == 0 {
        seq![]
    } else {
        utf16_of(s.drop_last()) + utf16_units(s.last())
    }
}

/// One declared function of a library: how it is identified, and what the
/// lookup primitive is handed for it.
#[derive(Debug)]
pub struct SymbolSpec {
    pub link: Proc,
    pub name: ProcName,
}

/// What is known of a library at declaration time.
#[derive(Debug)]
pub struct LibrarySpec {
    /// The name the library is searched under.
    pub name: &'static str,
    /// `name` as a NUL-terminated UTF-16 string, for the load primitive.
    pub wide_name: Vec<u16>,
    /// The flags handed to the load primitive.
    pub flags: u32,
    /// The declared functions; a function's index here is its slot index.
    pub symbols: Vec<SymbolSpec>,
}

/// `name` as a NUL-terminated UTF-16 string.
fn wide_name_of(name: &str) -> (r: Vec<u16>)
    ensures
        r@ == utf16_of(name@).push(0u16),
{
    let n = name.unicode_len();
    let mut out: Vec<u16> = Vec::new();
    let mut i: usize = 0;
    while i < n
        invariant
            n == name@.len(),
            i <= n,
            out@ == utf16_of(name@.subrange(0, i as int)),
        decreases n - i,
    {
        let c = name.get_char(i);
        let v = c as u32;
        if v < 0x10000 {
            out.push(v as u16);
        } else {
            out.push((0xD800 + (v - 0x10000) / 0x400) as u16);
            out.push((0xDC00 + (v - 0x10000) % 0x400) as u16);
        }
        assert(name@.subrange(0, i + 1).drop_last() =~= name@.subrange(0, i as int));
        i = i + 1;
    }
    assert(name@.subrange(0, n as int) =~= name@);
    out.push(0u16);
    out
}

impl LibrarySpec {
    /// Declares a library and its functions, in slot order.
    pub fn new(name: &'static str, flags: u32, procs: Vec<Proc>) -> (r: LibrarySpec)
        ensures
            r.name == name,
            r.wide_name@ == utf16_of(name@).push(0u16),
            r.flags == flags,
            r.symbols@.len() == procs@.len(),
            forall|i: int|
                0 <= i < procs@.len() ==> #[trigger] r.symbols@[i].link == procs@[i]
                    && proc_name_view(r.symbols@[i].name) == expected_proc_name(procs@[i]),
    {
        let mut symbols: Vec<SymbolSpec> = Vec::new();
        let mut i: usize = 0;
        while i < procs.len()
            invariant
                i <= procs@.len(),
                symbols@.len() == i,
                forall|j: int|
                    0 <= j < i ==> #[trigger] symbols@[j].link == procs@[j]
                        && proc_name_view(symbols@[j].name) == expected_proc_name(procs@[j]),
            decreases procs@.len() - i,
        {
            let link = procs[i].clone();
            let name = link.proc_name();
            symbols.push(SymbolSpec { link, name });
            i = i + 1;
        }
        LibrarySpec { name, wide_name: wide_name_of(name), flags, symbols }
    }

    /// The number of declared functions.
    pub fn len(&self) -> (r: usize)
        ensures
            r == self.symbols@.len(),
    {
        self.symbols.len()
    }
}

} // verus!
