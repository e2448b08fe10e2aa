use core::marker::PhantomData;
use crate::link::{proc_text, Proc};
use vstd::prelude::*;
use vstd::string::StringExecFns;

verus! {

/// The two ways in which resolving a symbol can fail.
#[derive(Debug, Clone, Copy, PartialEq, Eq, Structural)]
pub enum ErrorKind {
    /// The owning library could not be loaded.
    Lib,
    /// The library is loaded, but the symbol is not exported by it.
    Proc,
}

/// The message that reports a failure of kind `kind` for symbol `proc` of
/// library `lib`.
pub open spec fn error_message(kind: ErrorKind, lib: Seq<char>, proc: Proc) -> Seq<char> {
    match kind {
        ErrorKind::Lib => "Could not load "@ + lib + ", needed for "@ + proc_text(proc),
        ErrorKind::Proc => "Could not load "@ + lib + "#"@ + proc_text(proc),
    }
}

/// A resolution failure, tagged with the declared function `D` it belongs to.
pub struct Error<D> {
    pub kind: ErrorKind,
    pub _dll: PhantomData<D>,
}

impl<D> Error<D> {
    /// The owning library could not be loaded.
    pub fn lib() -> (r: Self)
        ensures
            r.kind == ErrorKind::Lib,
    {
        Error { kind: ErrorKind::Lib, _dll: PhantomData }
    }

    /// The symbol could not be found in the loaded library.
    pub fn proc() -> (r: Self)
        ensures
            r.kind == ErrorKind::Proc,
    {
        Error { kind: ErrorKind::Proc, _dll: PhantomData }
    }

    /// A readable account of the failure, naming the library and the symbol:
    /// `lib, needed for proc` when the library did not load, `lib#proc` when
    /// the symbol was not found in it.
    pub fn message(&self, lib: &str, proc: &Proc) -> (r: String)
        ensures
            r@ == error_message(self.kind, lib@, *proc),
    {
        let mut out = String::from_str("Could not load ");
        out.append(lib);
        match self.kind {
            ErrorKind::Lib => out.append(", needed for "),
            ErrorKind::Proc => out.append("#"),
        }
        let text = proc.text();
        out.append(text.as_str());
        out
    }
}

impl<D> Copy for Error<D> {

}

impl<D> Clone for Error<D> {
    fn clone(&self) -> (r: Self)
        ensures
            r.kind == self.kind,
    {
        Error { kind: self.kind, _dll: PhantomData }
    }
}

impl<D> From<ErrorKind> for Error<D> {
    fn from(kind: ErrorKind) -> (r: Self) {
        Error { kind, _dll: PhantomData }
    }
}

impl<D> vstd::std_specs::convert::FromSpecImpl<ErrorKind> for Error<D> {
    open spec fn obeys_from_spec() -> bool {
        true
    }

    open spec fn from_spec(kind: ErrorKind) -> Self {
        Error { kind, _dll: PhantomData }
    }
}

} // verus!
