use call_libs::{library_path, loader_start, loader_step, HostOs, LoadError, LoaderAction, LoaderState};

#[test]
fn missing_library_aborts_with_not_found() {
    let (s, a) = loader_start(HostOs::Linux);
    assert_eq!(a, LoaderAction::Open { path: "external_lib/lib_build/libexternal_dy.so" });
    let (s, a) = loader_step(s, false);
    assert_eq!(s, LoaderState::Failed(LoadError::LibraryNotFound));
    assert_eq!(a, LoaderAction::Abort(LoadError::LibraryNotFound));
    // a failed run stays failed
    assert_eq!(loader_step(s, true), (s, LoaderAction::Abort(LoadError::LibraryNotFound)));
}

#[test]
fn missing_symbol_aborts() {
    let (s, _) = loader_start(HostOs::Windows);
    let (s, a) = loader_step(s, true);
    assert_eq!(a, LoaderAction::Resolve { symbol: "dyloading_add" });
    let (s, a) = loader_step(s, false);
    assert_eq!(s, LoaderState::Failed(LoadError::SymbolNotFound));
    assert_eq!(a, LoaderAction::Abort(LoadError::SymbolNotFound));
}

#[test]
fn successful_load_calls_once_then_finishes() {
    let (s, _) = loader_start(HostOs::Linux);
    let (s, _) = loader_step(s, true);
    let (s, a) = loader_step(s, true);
    assert_eq!(s, LoaderState::Calling);
    assert_eq!(a, LoaderAction::Invoke { a: 8, b: 9, label: "Jack", capacity: 1024 });
    let (s, a) = loader_step(s, true);
    assert_eq!((s, a), (LoaderState::Done, LoaderAction::Finish));
    assert_eq!(loader_step(s, false), (LoaderState::Done, LoaderAction::Finish));
}

#[test]
fn loader_ends_within_three_steps() {
    for pattern in 0u8..8 {
        let (mut s, _) = loader_start(HostOs::Linux);
        let mut steps = 0;
        while !matches!(s, LoaderState::Done | LoaderState::Failed(_)) {
            let (n, _) = loader_step(s, pattern & (1 << steps) != 0);
            s = n;
            steps += 1;
        }
        assert!(steps <= 3);
    }
}

#[test]
fn library_paths_per_platform() {
    assert_eq!(library_path(HostOs::Linux), "external_lib/lib_build/libexternal_dy.so");
    assert_eq!(library_path(HostOs::Windows), "external_lib/lib_build/external_dy.dll");
}
