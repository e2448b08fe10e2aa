use windows_dll::{DllCache, Error, ErrorKind, LibrarySpec, Proc, ProcName, Step};

/// One library known to the test double.
struct FakeLib {
    name: &'static str,
    base: usize,
    names: Vec<(&'static str, usize)>,
    ordinals: Vec<(u16, usize)>,
}

/// A platform whose libraries live in a table; it counts every call. Each
/// load of a library hands out a new handle, so that addresses of one load
/// differ from those of the next.
struct FakeOs {
    libs: Vec<FakeLib>,
    loads: usize,
    lookups: usize,
    frees: usize,
    handles: Vec<(usize, usize)>,
}

impl FakeOs {
    fn new(libs: Vec<FakeLib>) -> FakeOs {
        FakeOs { libs, loads: 0, lookups: 0, frees: 0, handles: Vec::new() }
    }

    fn load(&mut self, wide_name: &[u16], _flags: u32) -> usize {
        self.loads += 1;
        assert_eq!(wide_name.last(), Some(&0u16));
        let name = String::from_utf16(&wide_name[..wide_name.len() - 1]).unwrap();
        for (k, lib) in self.libs.iter().enumerate() {
            if lib.name == name {
                let handle = lib.base + 0x10000 * self.loads;
                self.handles.push((handle, k));
                return handle;
            }
        }
        0
    }

    fn lookup(&mut self, handle: usize, name: &ProcName) -> usize {
        self.lookups += 1;
        let k = match self.handles.iter().find(|(h, _)| *h == handle) {
            Some((_, k)) => *k,
            None => return 0,
        };
        let lib = &self.libs[k];
        match name {
            ProcName::Bytes(bytes) => {
                assert_eq!(bytes.last(), Some(&0u8));
                let wanted = &bytes[..bytes.len() - 1];
                for (n, offset) in &lib.names {
                    if n.as_bytes() == wanted {
                        return handle + offset;
                    }
                }
                0
            }
            ProcName::Resource(ordinal) => {
                for (o, offset) in &lib.ordinals {
                    if *o as usize == *ordinal {
                        return handle + offset;
                    }
                }
                0
            }
        }
    }

    fn free(&mut self, handle: usize) -> bool {
        self.frees += 1;
        let before = self.handles.len();
        self.handles.retain(|(h, _)| *h != handle);
        self.handles.len() < before
    }
}

/// Runs a resolution of symbol `index` to its end.
fn resolve(cache: &mut DllCache, os: &mut FakeOs, index: usize) -> Result<usize, ErrorKind> {
    let mut step = cache.get_proc(index);
    loop {
        step = match step {
            Step::Resolved(p) => return Ok(p),
            Step::Failed(kind) => return Err(kind),
            Step::Load => {
                let lib = cache.library();
                let raw = os.load(&lib.wide_name, lib.flags);
                cache.on_loaded(index, raw)
            }
            Step::Lookup { handle, generation } => {
                let p = os.lookup(handle, &cache.library().symbols[index].name);
                cache.on_found(index, generation, p)
            }
        };
    }
}

fn symbol_exists(cache: &mut DllCache, os: &mut FakeOs, index: usize) -> bool {
    resolve(cache, os, index).is_ok()
}

fn free(cache: &mut DllCache, os: &mut FakeOs) -> bool {
    match cache.free_lib() {
        Some(handle) => os.free(handle),
        None => false,
    }
}

fn lib_exists(cache: &mut DllCache, os: &mut FakeOs) -> bool {
    match cache.cached_handle() {
        Some(_) => true,
        None => {
            let lib = cache.library();
            let raw = os.load(&lib.wide_name, lib.flags);
            let handle = cache.load_and_cache_lib(raw);
            !windows_dll::is_invalid_handle(handle)
        }
    }
}

fn alpha_os() -> FakeOs {
    FakeOs::new(vec![FakeLib {
        name: "alpha",
        base: 0x7000_0000,
        names: vec![("foo", 0x10)],
        ordinals: vec![],
    }])
}

fn alpha_cache() -> DllCache {
    DllCache::empty(LibrarySpec::new("alpha", 0, vec![Proc::Name("foo"), Proc::Name("bar")]))
}

#[test]
fn scenario_alpha() {
    let mut os = alpha_os();
    let mut cache = alpha_cache();
    let p = resolve(&mut cache, &mut os, 0).unwrap();
    assert!(!symbol_exists(&mut cache, &mut os, 1));
    let lookups = os.lookups;
    let loads = os.loads;
    assert_eq!(resolve(&mut cache, &mut os, 0), Ok(p));
    assert_eq!(os.lookups, lookups);
    assert_eq!(os.loads, loads);
    assert!(free(&mut cache, &mut os));
    assert!(symbol_exists(&mut cache, &mut os, 0));
    assert_eq!(os.loads, loads + 1);
    assert_eq!(os.lookups, lookups + 1);
}

#[test]
fn repeated_resolution_makes_no_calls() {
    let mut os = alpha_os();
    let mut cache = alpha_cache();
    let p = resolve(&mut cache, &mut os, 0).unwrap();
    assert_eq!((os.loads, os.lookups), (1, 1));
    for _ in 0..10 {
        assert_eq!(resolve(&mut cache, &mut os, 0), Ok(p));
    }
    assert_eq!((os.loads, os.lookups), (1, 1));
    assert_eq!(cache.get_proc(0), Step::Resolved(p));
}

#[test]
fn missing_library_is_retried() {
    let mut os = alpha_os();
    let mut cache =
        DllCache::empty(LibrarySpec::new("beta", 0, vec![Proc::Name("foo")]));
    assert_eq!(resolve(&mut cache, &mut os, 0), Err(ErrorKind::Lib));
    assert_eq!(os.loads, 1);
    assert_eq!(resolve(&mut cache, &mut os, 0), Err(ErrorKind::Lib));
    assert_eq!(os.loads, 2);
    assert_eq!(os.lookups, 0);
}

#[test]
fn missing_symbol_is_retried() {
    let mut os = alpha_os();
    let mut cache = alpha_cache();
    assert_eq!(resolve(&mut cache, &mut os, 1), Err(ErrorKind::Proc));
    assert_eq!((os.loads, os.lookups), (1, 1));
    assert_eq!(resolve(&mut cache, &mut os, 1), Err(ErrorKind::Proc));
    assert_eq!((os.loads, os.lookups), (1, 2));
}

#[test]
fn library_that_appears_later_is_found() {
    let mut os = FakeOs::new(vec![]);
    let mut cache = alpha_cache();
    assert_eq!(resolve(&mut cache, &mut os, 0), Err(ErrorKind::Lib));
    os.libs.push(FakeLib { name: "alpha", base: 0x7000_0000, names: vec![("foo", 0x10)], ordinals: vec![] });
    assert!(resolve(&mut cache, &mut os, 0).is_ok());
}

#[test]
fn disjoint_error_kinds() {
    let mut os = alpha_os();
    let mut absent_lib =
        DllCache::empty(LibrarySpec::new("gamma", 0, vec![Proc::Name("foo")]));
    let mut present_lib = alpha_cache();
    assert_eq!(resolve(&mut absent_lib, &mut os, 0), Err(ErrorKind::Lib));
    assert_eq!(resolve(&mut present_lib, &mut os, 1), Err(ErrorKind::Proc));
}

#[test]
fn free_clears_every_slot() {
    let mut os = alpha_os();
    let mut cache = alpha_cache();
    let p = resolve(&mut cache, &mut os, 0).unwrap();
    assert!(free(&mut cache, &mut os));
    assert_eq!(cache.get_proc(0), Step::Load);
    assert_eq!(cache.get_proc(1), Step::Load);
    assert_eq!(cache.cached_handle(), None);
    let q = resolve(&mut cache, &mut os, 0).unwrap();
    assert_ne!(p, q);
    assert_eq!(os.frees, 1);
}

#[test]
fn free_of_unloaded_library_is_a_no_op() {
    let mut os = alpha_os();
    let mut cache = alpha_cache();
    assert!(!free(&mut cache, &mut os));
    assert_eq!(os.frees, 0);
    assert_eq!(resolve(&mut cache, &mut os, 1), Err(ErrorKind::Proc));
    assert!(free(&mut cache, &mut os));
    assert!(!free(&mut cache, &mut os));
    assert_eq!(os.frees, 1);
}

#[test]
fn library_exists_loads_once() {
    let mut os = alpha_os();
    let mut cache = alpha_cache();
    assert!(lib_exists(&mut cache, &mut os));
    assert!(lib_exists(&mut cache, &mut os));
    assert_eq!(os.loads, 1);
    let mut missing = DllCache::empty(LibrarySpec::new("delta", 0, vec![]));
    assert!(!lib_exists(&mut missing, &mut os));
    assert!(!lib_exists(&mut missing, &mut os));
    assert_eq!(os.loads, 3);
}

#[test]
fn lookup_issued_before_free_is_stale() {
    let mut os = alpha_os();
    let mut cache = alpha_cache();
    assert!(lib_exists(&mut cache, &mut os));
    let (handle, generation) = match cache.get_proc(0) {
        Step::Lookup { handle, generation } => (handle, generation),
        other => panic!("unexpected step {:?}", other),
    };
    let p = os.lookup(handle, &cache.library().symbols[0].name);
    assert!(free(&mut cache, &mut os));
    assert_eq!(cache.on_found(0, generation, p), Step::Load);
    assert_eq!(cache.get_proc(0), Step::Load);
}

#[test]
fn concurrent_resolvers_agree() {
    let mut os = alpha_os();
    let mut cache = alpha_cache();
    assert_eq!(cache.get_proc(0), Step::Load);
    assert_eq!(cache.get_proc(0), Step::Load);
    let lib = cache.library();
    let first = os.load(&lib.wide_name, lib.flags);
    let second = os.load(&lib.wide_name, lib.flags);
    let a = cache.on_loaded(0, first);
    let b = cache.on_loaded(0, second);
    let (Step::Lookup { handle: ha, generation: ga }, Step::Lookup { handle: hb, generation: gb }) = (a, b) else {
        panic!("both resolvers should look the symbol up");
    };
    let pa = os.lookup(ha, &cache.library().symbols[0].name);
    let pb = os.lookup(hb, &cache.library().symbols[0].name);
    assert_eq!(cache.on_found(0, ga, pa), Step::Resolved(pa));
    assert_eq!(cache.on_found(0, gb, pb), Step::Resolved(pb));
    assert_eq!(cache.get_proc(0), Step::Resolved(pb));
    assert_eq!(cache.cached_handle(), Some(second));
}

#[test]
fn invalid_handle_values() {
    assert!(windows_dll::is_invalid_handle(0));
    assert!(windows_dll::is_invalid_handle(usize::MAX));
    assert!(!windows_dll::is_invalid_handle(0x7000_0000));
    let mut os = alpha_os();
    let mut cache = alpha_cache();
    assert_eq!(cache.on_loaded(0, usize::MAX), Step::Failed(ErrorKind::Lib));
    assert_eq!(cache.get_proc(0), Step::Load);
    assert!(resolve(&mut cache, &mut os, 0).is_ok());
}

fn uxtheme_os() -> FakeOs {
    FakeOs::new(vec![FakeLib {
        name: "uxtheme.dll",
        base: 0x6000_0000,
        names: vec![],
        ordinals: vec![(133, 0x133), (137, 0x137)],
    }])
}

#[test]
fn link_ordinal_link_ordinal() {
    let mut os = uxtheme_os();
    let mut cache = DllCache::empty(LibrarySpec::new("uxtheme.dll", 0, vec![Proc::Ordinal(137)]));
    let p = resolve(&mut cache, &mut os, 0).unwrap();
    assert_eq!(p, 0x6000_0000 + 0x10000 + 0x137);
}

#[test]
fn link_ordinal_link_ordinal_with_arguments() {
    let mut os = uxtheme_os();
    let mut cache = DllCache::empty(LibrarySpec::new("uxtheme.dll", 0, vec![Proc::Ordinal(133)]));
    assert!(symbol_exists(&mut cache, &mut os, 0));
    assert_eq!(cache.library().symbols[0].name, ProcName::Resource(133));
}

fn user32_os() -> FakeOs {
    FakeOs::new(vec![FakeLib {
        name: "user32.dll",
        base: 0x5000_0000,
        names: vec![("SetWindowCompositionAttribute", 0x40)],
        ordinals: vec![],
    }])
}

fn user32_cache() -> DllCache {
    DllCache::empty(LibrarySpec::new("user32.dll", 0, vec![Proc::Name("SetWindowCompositionAttribute")]))
}

#[test]
fn link_name_link_name() {
    let mut os = user32_os();
    let mut cache = user32_cache();
    assert_eq!(resolve(&mut cache, &mut os, 0), Ok(0x5000_0000 + 0x10000 + 0x40));
}

#[test]
fn fn_exists_function_exists() {
    let mut os = user32_os();
    let mut cache = user32_cache();
    assert!(symbol_exists(&mut cache, &mut os, 0));
}

#[test]
fn fallible_return_result() {
    let mut os = user32_os();
    let mut cache = DllCache::empty(LibrarySpec::new("user32.dll", 0, vec![Proc::Name("NoSuchFunction")]));
    let r: Result<usize, Error<()>> = resolve(&mut cache, &mut os, 0).map_err(Error::from);
    let e = r.err().unwrap();
    assert_eq!(e.kind, ErrorKind::Proc);
    assert_eq!(e.message("user32.dll", &Proc::Name("NoSuchFunction")), "Could not load user32.dll#NoSuchFunction");
}

#[test]
fn error_is_1_byte() {
    struct SetWindowCompositionAttribute;
    assert_eq!(core::mem::size_of::<Error<SetWindowCompositionAttribute>>(), 1);
}

#[allow(non_snake_case)]
struct OSVERSIONINFOW {
    dwOSVersionInfoSize: u32,
    dwMajorVersion: u32,
    dwMinorVersion: u32,
    dwBuildNumber: u32,
    dwPlatformId: u32,
    szCSDVersion: [u16; 128],
}

/// What the double's `RtlGetVersion` does: fill in the version, succeed.
#[allow(non_snake_case)]
fn fake_RtlGetVersion(vi: &mut OSVERSIONINFOW) -> i32 {
    vi.dwMajorVersion = 10;
    vi.dwBuildNumber = 19045;
    0
}

#[test]
fn call_propagate_errors() -> Result<(), String> {
    let mut os = FakeOs::new(vec![FakeLib {
        name: "ntdll",
        base: 0x4000_0000,
        names: vec![("RtlGetVersion", 0x80)],
        ordinals: vec![],
    }]);
    let mut cache = DllCache::empty(LibrarySpec::new("ntdll", 0, vec![Proc::Name("RtlGetVersion")]));
    let mut vi = OSVERSIONINFOW {
        dwOSVersionInfoSize: 0,
        dwMajorVersion: 0,
        dwMinorVersion: 0,
        dwBuildNumber: 0,
        dwPlatformId: 0,
        szCSDVersion: [0; 128],
    };

    let func = resolve(&mut cache, &mut os, 0)
        .map_err(|kind| Error::<OSVERSIONINFOW>::from(kind).message("ntdll", &Proc::Name("RtlGetVersion")))?;
    assert_eq!(func, 0x4000_0000 + 0x10000 + 0x80);
    let status = fake_RtlGetVersion(&mut vi);

    if status >= 0 {
        assert_eq!(vi.dwBuildNumber, 19045);
        assert_eq!(vi.szCSDVersion.len(), 128);
        Ok(())
    } else {
        Err("RtlGetVersion error")?
    }
}
