//! The decisions of loading an add function from a library file at run
//! time. The caller performs each action (open the file, look the symbol up,
//! call it) and reports whether it succeeded; every failure ends the run.
use vstd::prelude::*;

verus! {

/// The host platforms whose library file naming the loader knows.
#[derive(Clone, Copy, Debug, PartialEq, Eq, Structural)]
pub enum HostOs {
    Linux,
    Windows,
}

/// Why loading stopped.
#[derive(Clone, Copy, Debug, PartialEq, Eq, Structural)]
pub enum LoadError {
    /// The library file is missing or cannot be opened.
    LibraryNotFound,
    /// The library has no entry point of the expected name.
    SymbolNotFound,
}

/// Where the loader stands.
#[derive(Clone, Copy, Debug, PartialEq, Eq, Structural)]
pub enum LoaderState {
    /// Waiting to hear whether the library file opened.
    Opening,
    /// Waiting to hear whether the symbol was found.
    Resolving,
    /// Waiting for the call to return.
    Calling,
    /// The call returned; nothing is left to do.
    Done,
    /// Loading failed; the run is over.
    Failed(LoadError),
}

/// What the caller is to do next.
#[derive(Clone, Copy, Debug, PartialEq, Eq)]
pub enum LoaderAction {
    /// Open the library file at `path`.
    Open { path: &'static str },
    /// Look up the entry point `symbol` in the opened library.
    Resolve { symbol: &'static str },
    /// Call the entry point once on `a`, `b` and a buffer of `capacity`
    /// characters prepared with `label`.
    Invoke { a: i32, b: i32, label: &'static str, capacity: usize },
    /// Stop: the run succeeded.
    Finish,
    /// Stop at once with this error.
    Abort(LoadError),
}

/// The path of the library file on `os`.
pub open spec fn spec_library_path(os: HostOs) -> &'static str {
    match os {
        HostOs::Linux => "external_lib/lib_build/libexternal_dy.so",
        HostOs::Windows => "external_lib/lib_build/external_dy.dll",
    }
}

/// The path of the library file on `os`.
pub fn library_path(os: HostOs) -> (r: &'static str)
    ensures
        r == spec_library_path(os),
{
    match os {
        HostOs::Linux => "external_lib/lib_build/libexternal_dy.so",
        HostOs::Windows => "external_lib/lib_build/external_dy.dll",
    }
}

/// The first state and action: open the library file of `os`.
pub fn loader_start(os: HostOs) -> (r: (LoaderState, LoaderAction))
    ensures
        r == (LoaderState::Opening, LoaderAction::Open { path: spec_library_path(os) }),
{
    (LoaderState::Opening, LoaderAction::Open { path: library_path(os) })
}

/// The state and action that follow `state` once the caller reports whether
/// the action it was given succeeded.
pub open spec fn next(state: LoaderState, succeeded: bool) -> (LoaderState, LoaderAction) {
    match state {
        LoaderState::Opening => if succeeded {
            (LoaderState::Resolving, LoaderAction::Resolve { symbol: "dyloading_add" })
        } else {
            (
                LoaderState::Failed(LoadError::LibraryNotFound),
                LoaderAction::Abort(LoadError::LibraryNotFound),
            )
        },
        LoaderState::Resolving => if succeeded {
            (
                LoaderState::Calling,
                LoaderAction::Invoke { a: 8, b: 9, label: "Jack", capacity: 1024 },
            )
        } else {
            (
                LoaderState::Failed(LoadError::SymbolNotFound),
                LoaderAction::Abort(LoadError::SymbolNotFound),
            )
        },
        LoaderState::Calling => (LoaderState::Done, LoaderAction::Finish),
        LoaderState::Done => (LoaderState::Done, LoaderAction::Finish),
        LoaderState::Failed(e) => (LoaderState::Failed(e), LoaderAction::Abort(e)),
    }
}

/// Takes one step: the state and action that follow `state` once the caller
/// reports whether its action succeeded.
pub fn loader_step(state: LoaderState, succeeded: bool) -> (r: (LoaderState, LoaderAction))
    ensures
        r == next(state, succeeded),
{
    match state {
        LoaderState::Opening => if succeeded {
            (LoaderState::Resolving, LoaderAction::Resolve { symbol: "dyloading_add" })
        } else {
            (
                LoaderState::Failed(LoadError::LibraryNotFound),
                LoaderAction::Abort(LoadError::LibraryNotFound),
            )
        },
        LoaderState::Resolving => if succeeded {
            (
                LoaderState::Calling,
                LoaderAction::Invoke { a: 8, b: 9, label: "Jack", capacity: 1024 },
            )
        } else {
            (
                LoaderState::Failed(LoadError::SymbolNotFound),
                LoaderAction::Abort(LoadError::SymbolNotFound),
            )
        },
        LoaderState::Calling => (LoaderState::Done, LoaderAction::Finish),
        LoaderState::Done => (LoaderState::Done, LoaderAction::Finish),
        LoaderState::Failed(e) => (LoaderState::Failed(e), LoaderAction::Abort(e)),
    }
}

/// A state is final once loading has finished or failed.
pub open spec fn is_final(state: LoaderState) -> bool {
    state is Done || state is Failed
}

/// How many steps at most are left from `state`.
pub open spec fn steps_left(state: LoaderState) -> nat {
    match state {
        LoaderState::Opening => 3,
        LoaderState::Resolving => 2,
        LoaderState::Calling => 1,
        _ => 0,
    }
}

/// Loading fails fast: a failed open ends the run at once with
/// `LibraryNotFound`, a failed lookup with `SymbolNotFound`, nothing is
/// retried, and a failed run stays failed.
pub proof fn law_loader_fails_fast(state: LoaderState)
    ensures
        state is Opening ==> next(state, false) == (
            LoaderState::Failed(LoadError::LibraryNotFound),
            LoaderAction::Abort(LoadError::LibraryNotFound),
        ),
        state is Resolving ==> next(state, false) == (
            LoaderState::Failed(LoadError::SymbolNotFound),
            LoaderAction::Abort(LoadError::SymbolNotFound),
        ),
        !is_final(state) && !(state is Calling) ==> is_final(next(state, false).0) && next(
            state,
            false,
        ).1 is Abort,
        forall|ok: bool|
            state is Failed ==> #[trigger] next(state, ok) == (state, LoaderAction::Abort(
                state->Failed_0,
            )),
{
}

/// Loading never hangs: every step from a state that is not final moves to
/// one with fewer steps left, so a run ends within three steps.
pub proof fn law_loader_ends(state: LoaderState, succeeded: bool)
    ensures
        !is_final(state) ==> steps_left(next(state, succeeded).0) < steps_left(state),
        steps_left(state) == 0 ==> is_final(state),
        steps_left(state) <= 3,
{
}

} // verus!
