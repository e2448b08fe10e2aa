use vstd::prelude::*;
use vstd::string::StrSliceExecFns;
use vstd::string::StringExecFns;
use vstd::string::StringSliceAdditionalSpecFns;

verus! {

/// How a function is identified inside its library: by exported name, or by
/// ordinal (its index in the export table).
#[derive(Debug)]
pub enum Proc {
    Name(&'static str),
    Ordinal(u16),
}

/// What the lookup primitive is handed for a symbol: the exported name as a
/// NUL-terminated byte string, or the ordinal carried in the integer value of
/// the name pointer.
#[derive(Debug, Clone, PartialEq, Eq)]
pub enum ProcName {
    Bytes(Vec<u8>),
    Resource(usize),
}

/// The name pointer value that stands for an ordinal: the ordinal widened to
/// a machine word.
pub fn make_int_resource_a(i: u16) -> (r: usize)
    ensures
        r == i as usize,
{
    i as usize
}

/// The character of a decimal digit.
pub open spec fn digit_char(d: nat) -> char {
    if d == 0 {
        '0'
    } else if d == 1 {
        '1'
    } else if d == 2 {
        '2'
    } else if d == 3 {
        '3'
    } else if d == 4 {
        '4'
    } else if d == 5 {
        '5'
    } else if d == 6 {
        '6'
    } else if d == 7 {
        '7'
    } else if d == 8 {
        '8'
    } else {
        '9'
    }
}

/// The decimal notation of `n`, without leading zeros.
pub open spec fn decimal(n: nat) -> Seq<char>
    decreases n,
{
    if n < 10 {
        seq![digit_char(n)]
    } else {
        decimal(n / 10).push(digit_char(n % 10))
    }
}

/// How a link descriptor reads in messages: the name itself, or the ordinal
/// in decimal.
pub open spec fn proc_text(p: Proc) -> Seq<char> {
    match p {
        Proc::Name(name) => name@,
        Proc::Ordinal(ordinal) => decimal(ordinal as nat),
    }
}

/// Lookup arguments are compared by what they hold.
pub open spec fn proc_name_view(p: ProcName) -> Result<Seq<u8>, usize> {
    match p {
        ProcName::Bytes(b) => Ok(b@),
        ProcName::Resource(r) => Err(r),
    }
}

/// The lookup argument that a descriptor asks for, as `proc_name_view` shows it.
pub open spec fn expected_proc_name(p: Proc) -> Result<Seq<u8>, usize> {
    match p {
        Proc::Name(name) => Ok(name.spec_bytes().push(0u8)),
        Proc::Ordinal(ordinal) => Err(ordinal as usize),
    }
}

fn digit_str(d: u16) -> (r: &'static str)
    requires
        d < 10,
    ensures
        r@ == seq![digit_char(d as nat)],
{
    proof {
        reveal_strlit("0");
        reveal_strlit("1");
        reveal_strlit("2");
        reveal_strlit("3");
        reveal_strlit("4");
        reveal_strlit("5");
        reveal_strlit("6");
        reveal_strlit("7");
        reveal_strlit("8");
        reveal_strlit("9");
    }
    if d == 0 {
        "0"
    } else if d == 1 {
        "1"
    } else if d == 2 {
        "2"
    } else if d == 3 {
        "3"
    } else if d == 4 {
        "4"
    } else if d == 5 {
        "5"
    } else if d == 6 {
        "6"
    } else if d == 7 {
        "7"
    } else if d == 8 {
        "8"
    } else {
        "9"
    }
}

/// Appends the decimal notation of `n` to `out`.
fn push_decimal(out: &mut String, n: u16)
    ensures
        final(out)@ == old(out)@ + decimal(n as nat),
    decreases n,
{
    if n < 10 {
        out.append(digit_str(n));
    } else {
        push_decimal(out, n / 10);
        out.append(digit_str(n % 10));
        assert(decimal(n as nat) == decimal((n / 10) as nat).push(digit_char((n % 10) as nat)));
    }
}

impl Clone for Proc {
    fn clone(&self) -> (r: Self)
        ensures
            r == *self,
    {
        match self {
            Proc::Name(name) => Proc::Name(name),
            Proc::Ordinal(ordinal) => Proc::Ordinal(*ordinal),
        }
    }
}

impl Proc {
    /// The descriptor as it reads in messages.
    pub fn text(&self) -> (r: String)
        ensures
            r@ == proc_text(*self),
    {
        match self {
            Proc::Name(name) => String::from_str(name),
            Proc::Ordinal(ordinal) => {
                let mut out = String::new();
                push_decimal(&mut out, *ordinal);
                out
            },
        }
    }

    /// The argument handed to the lookup primitive for this descriptor.
    pub fn proc_name(&self) -> (r: ProcName)
        ensures
            proc_name_view(r) == expected_proc_name(*self),
    {
        match self {
            Proc::Name(name) => {
                let bytes = name.as_bytes();
                let mut out: Vec<u8> = Vec::new();
                let mut i: usize = 0;
                while i < bytes.len()
                    invariant
                        i <= bytes@.len(),
                        bytes@ == name.spec_bytes(),
                        out@ == bytes@.subrange(0, i as int),
                    decreases bytes@.len() - i,
                {
                    out.push(bytes[i]);
                    i = i + 1;
                }
                out.push(0u8);
                assert(out@ == name.spec_bytes().push(0u8));
                ProcName::Bytes(out)
            },
            Proc::Ordinal(ordinal) => ProcName::Resource(make_int_resource_a(*ordinal)),
        }
    }
}

} // verus!
