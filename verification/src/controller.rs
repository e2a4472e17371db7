//! The kernel buffer controller: the startup protocol that makes sure the
//! bus driver's transfer-buffer parameter is large enough for one full
//! frame before the device is opened.
//!
//! The protocol drives an external, stateful subsystem — a loadable
//! kernel driver — through a sequence of non-atomic steps: read the
//! current parameter, and when it differs from the target, check that the
//! driver is a reloadable module, unload it if loaded, reload it with the
//! target value, and read the parameter back to confirm. Each step can
//! fail on its own, with a distinct error.
//!
//! The decisions are captured here as a state machine. [`start`] yields
//! the initial state and the first action to perform; the surrounding
//! application performs each requested [`Action`] against the operating
//! system, hands the observed outcome back as an [`Event`], and calls
//! [`step`] for the next state and action, until the state is terminal.
//! The machine itself performs no side effects, so every decision it
//! takes is verified for every outcome the environment can report.

use vstd::prelude::*;

verus! {

/// Why buffer-size reconciliation failed. Each protocol step that can go
/// wrong has its own variant, preserving diagnosability.
#[derive(Debug, PartialEq, Eq)]
pub enum CtrlError {
    /// The parameter's well-known file could not be read.
    IoError { detail: String },
    /// The parameter's text is not a decimal value within 16-bit range.
    ParseError,
    /// The unload action reported failure; carries its diagnostic text.
    ModuleUnloadError { detail: String },
    /// The load action reported failure; carries its diagnostic text.
    ModuleLoadError { detail: String },
    /// The driver is compiled into the kernel, so the parameter cannot be
    /// changed without a reboot: fatal and non-retryable.
    ConfigurationImpossible,
    /// The reload reported success, but the parameter read back afterwards
    /// still differs from the target.
    ConfigurationVerificationFailed,
}

/// Failure modes of one read of the buffer-size parameter.
#[derive(Debug, Clone, PartialEq, Eq)]
pub enum ReadError {
    /// The parameter file was unreadable.
    Io { detail: String },
    /// Its contents are not a decimal value within 16-bit range.
    Parse,
}

/// An external action the controller asks the application to perform.
#[derive(Debug, PartialEq, Eq)]
pub enum Action {
    /// Read the driver's current buffer-size parameter.
    ReadSize,
    /// Ask whether the driver exists as a loadable module at all.
    ProbeInstallable,
    /// Ask whether the driver is currently loaded.
    ProbeLoaded,
    /// Unload the driver.
    Unload,
    /// Load the driver, optionally passing a buffer-size parameter.
    Load { bufsiz: Option<u16> },
}

/// The observed outcome of a completed action, reported back to [`step`].
#[derive(Debug, PartialEq, Eq)]
pub enum Event {
    /// Outcome of [`Action::ReadSize`].
    SizeRead { result: Result<u16, ReadError> },
    /// Outcome of [`Action::ProbeInstallable`].
    InstallableProbed { installable: bool },
    /// Outcome of [`Action::ProbeLoaded`].
    LoadedProbed { loaded: bool },
    /// Outcome of [`Action::Unload`]; the error carries the diagnostic
    /// text of the external tool.
    UnloadFinished { result: Result<(), String> },
    /// Outcome of [`Action::Load`]; the error carries the diagnostic
    /// text of the external tool.
    LoadFinished { result: Result<(), String> },
}

/// The controller's state. Every non-terminal state waits for the outcome
/// of exactly one pending action and remembers the target size.
#[derive(Debug, PartialEq, Eq)]
pub enum CtrlState {
    /// Waiting for the initial parameter read.
    AwaitInitialSize { target: u16 },
    /// The size differs from the target; waiting to learn whether the
    /// driver is a loadable module.
    AwaitInstallable { target: u16 },
    /// Waiting to learn whether the driver is currently loaded.
    AwaitLoadedProbe { target: u16 },
    /// Waiting for the unload to finish.
    AwaitUnload { target: u16 },
    /// Waiting for the reload to finish.
    AwaitLoad { target: u16 },
    /// Waiting for the confirming parameter read after the reload.
    AwaitVerifySize { target: u16 },
    /// The parameter is known to equal the target.
    Done,
    /// Reconciliation failed; the process must not begin serving.
    Failed { error: CtrlError },
}

/// The reconciliation error corresponding to a failed parameter read.
pub open spec fn spec_read_error(e: ReadError) -> CtrlError {
    match e {
        ReadError::Io { detail } => CtrlError::IoError { detail },
        ReadError::Parse => CtrlError::ParseError,
    }
}

/// Whether the state is terminal: no action is pending and no event is
/// expected any more.
pub open spec fn is_terminal(state: CtrlState) -> bool {
    state is Done || state is Failed
}

/// Whether `event` is the outcome of the action pending in `state`. The
/// application only ever hands back the outcome of the action it was
/// asked to perform, so in a run this always holds.
pub open spec fn expects(state: CtrlState, event: Event) -> bool {
    match (state, event) {
        (CtrlState::AwaitInitialSize { .. }, Event::SizeRead { .. }) => true,
        (CtrlState::AwaitInstallable { .. }, Event::InstallableProbed { .. }) => true,
        (CtrlState::AwaitLoadedProbe { .. }, Event::LoadedProbed { .. }) => true,
        (CtrlState::AwaitUnload { .. }, Event::UnloadFinished { .. }) => true,
        (CtrlState::AwaitLoad { .. }, Event::LoadFinished { .. }) => true,
        (CtrlState::AwaitVerifySize { .. }, Event::SizeRead { .. }) => true,
        _ => false,
    }
}

/// The transition function. Given the current state and the outcome of
/// the pending action, yields the next state and the next action to
/// perform, if any. An event that is not the outcome of the pending
/// action (which a faithful application never produces) changes nothing
/// and asks for nothing.
pub open spec fn spec_step(state: CtrlState, event: Event) -> (CtrlState, Option<Action>) {
    match (state, event) {
        (CtrlState::AwaitInitialSize { target }, Event::SizeRead { result }) => match result {
            Ok(size) => if size == target {
                // Fast path: already as required, nothing to reload.
                (CtrlState::Done, None)
            } else {
                (CtrlState::AwaitInstallable { target }, Some(Action::ProbeInstallable))
            },
            Err(e) => (CtrlState::Failed { error: spec_read_error(e) }, None),
        },
        (CtrlState::AwaitInstallable { target }, Event::InstallableProbed { installable }) => {
            if installable {
                (CtrlState::AwaitLoadedProbe { target }, Some(Action::ProbeLoaded))
            } else {
                (CtrlState::Failed { error: CtrlError::ConfigurationImpossible }, None)
            }
        },
        (CtrlState::AwaitLoadedProbe { target }, Event::LoadedProbed { loaded }) => {
            if loaded {
                (CtrlState::AwaitUnload { target }, Some(Action::Unload))
            } else {
                // Unloading is a no-op when the driver is not loaded.
                (
                    CtrlState::AwaitLoad { target },
                    Some(Action::Load { bufsiz: Some(target) }),
                )
            }
        },
        (CtrlState::AwaitUnload { target }, Event::UnloadFinished { result }) => match result {
            Ok(_) => (
                CtrlState::AwaitLoad { target },
                Some(Action::Load { bufsiz: Some(target) }),
            ),
            Err(detail) => (
                CtrlState::Failed { error: CtrlError::ModuleUnloadError { detail } },
                None,
            ),
        },
        (CtrlState::AwaitLoad { target }, Event::LoadFinished { result }) => match result {
            Ok(_) => (CtrlState::AwaitVerifySize { target }, Some(Action::ReadSize)),
            Err(detail) => (
                CtrlState::Failed { error: CtrlError::ModuleLoadError { detail } },
                None,
            ),
        },
        (CtrlState::AwaitVerifySize { target }, Event::SizeRead { result }) => match result {
            Ok(size) => if size == target {
                (CtrlState::Done, None)
            } else {
                (
                    CtrlState::Failed { error: CtrlError::ConfigurationVerificationFailed },
                    None,
                )
            },
            Err(e) => (CtrlState::Failed { error: spec_read_error(e) }, None),
        },
        _ => (state, None),
    }
}

/// Starts a reconciliation run towards `target`: the first step is always
/// to read the current parameter.
pub fn start(target: u16) -> (r: (CtrlState, Action))
    ensures
        r.0 == (CtrlState::AwaitInitialSize { target }),
        r.1 == Action::ReadSize,
{
    (CtrlState::AwaitInitialSize { target }, Action::ReadSize)
}

/// Performs one transition of the controller; the executable twin of
/// [`spec_step`].
pub fn step(state: CtrlState, event: Event) -> (r: (CtrlState, Option<Action>))
    ensures
        r == spec_step(state, event),
{
    match (state, event) {
        (CtrlState::AwaitInitialSize { target }, Event::SizeRead { result }) => match result {
            Ok(size) => if size == target {
                (CtrlState::Done, None)
            } else {
                (CtrlState::AwaitInstallable { target }, Some(Action::ProbeInstallable))
            },
            Err(e) => match e {
                ReadError::Io { detail } => (
                    CtrlState::Failed { error: CtrlError::IoError { detail } },
                    None,
                ),
                ReadError::Parse => (
                    CtrlState::Failed { error: CtrlError::ParseError },
                    None,
                ),
            },
        },
        (CtrlState::AwaitInstallable { target }, Event::InstallableProbed { installable }) => {
            if installable {
                (CtrlState::AwaitLoadedProbe { target }, Some(Action::ProbeLoaded))
            } else {
                (CtrlState::Failed { error: CtrlError::ConfigurationImpossible }, None)
            }
        },
        (CtrlState::AwaitLoadedProbe { target }, Event::LoadedProbed { loaded }) => {
            if loaded {
                (CtrlState::AwaitUnload { target }, Some(Action::Unload))
            } else {
                (
                    CtrlState::AwaitLoad { target },
                    Some(Action::Load { bufsiz: Some(target) }),
                )
            }
        },
        (CtrlState::AwaitUnload { target }, Event::UnloadFinished { result }) => match result {
            Ok(_) => (
                CtrlState::AwaitLoad { target },
                Some(Action::Load { bufsiz: Some(target) }),
            ),
            Err(detail) => (
                CtrlState::Failed { error: CtrlError::ModuleUnloadError { detail } },
                None,
            ),
        },
        (CtrlState::AwaitLoad { target }, Event::LoadFinished { result }) => match result {
            Ok(_) => (CtrlState::AwaitVerifySize { target }, Some(Action::ReadSize)),
            Err(detail) => (
                CtrlState::Failed { error: CtrlError::ModuleLoadError { detail } },
                None,
            ),
        },
        (CtrlState::AwaitVerifySize { target }, Event::SizeRead { result }) => match result {
            Ok(size) => if size == target {
                (CtrlState::Done, None)
            } else {
                (
                    CtrlState::Failed { error: CtrlError::ConfigurationVerificationFailed },
                    None,
                )
            },
            Err(e) => match e {
                ReadError::Io { detail } => (
                    CtrlState::Failed { error: CtrlError::IoError { detail } },
                    None,
                ),
                ReadError::Parse => (
                    CtrlState::Failed { error: CtrlError::ParseError },
                    None,
                ),
            },
        },
        (s, _) => (s, None),
    }
}

/// Whether the state is terminal; the executable twin of [`is_terminal`].
pub fn finished(state: &CtrlState) -> (r: bool)
    ensures
        r == is_terminal(*state),
{
    match state {
        CtrlState::Done => true,
        CtrlState::Failed { .. } => true,
        _ => false,
    }
}

/// Folds [`spec_step`] over a sequence of observed events, starting in
/// `state`, and collects the actions the controller asks for along the
/// way. The fold stops at a terminal state; events beyond it are ignored.
pub open spec fn run_from(state: CtrlState, events: Seq<Event>) -> (CtrlState, Seq<Action>)
    decreases events.len(),
{
    if events.len() == 0 || is_terminal(state) {
        (state, Seq::empty())
    } else {
        let (next, action) = spec_step(state, events[0]);
        let rest = run_from(next, events.drop_first());
        match action {
            Some(a) => (rest.0, seq![a] + rest.1),
            None => (rest.0, rest.1),
        }
    }
}

/// The target a state is reconciling towards, while reconciliation is
/// still under way.
pub open spec fn state_target(state: CtrlState) -> Option<u16> {
    match state {
        CtrlState::AwaitInitialSize { target } => Some(target),
        CtrlState::AwaitInstallable { target } => Some(target),
        CtrlState::AwaitLoadedProbe { target } => Some(target),
        CtrlState::AwaitUnload { target } => Some(target),
        CtrlState::AwaitLoad { target } => Some(target),
        CtrlState::AwaitVerifySize { target } => Some(target),
        CtrlState::Done => None,
        CtrlState::Failed { .. } => None,
    }
}

/// An event that is not the outcome of the pending action — which a
/// faithful application never hands back — changes nothing and asks for
/// nothing.
pub proof fn lemma_unexpected_event_is_ignored(state: CtrlState, event: Event)
    requires
        !expects(state, event),
    ensures
        spec_step(state, event) == (state, None::<Action>),
{
}

/// Whatever the environment reports, every load the controller ever asks
/// for carries the reconciliation target as the buffer-size parameter.
pub proof fn lemma_loads_carry_target(state: CtrlState, events: Seq<Event>, target: u16)
    requires
        state_target(state) == Some(target) || is_terminal(state),
    ensures
        forall|i: int|
            0 <= i < run_from(state, events).1.len() ==> ((#[trigger] run_from(
                state,
                events,
            ).1[i]) matches Action::Load { bufsiz } ==> bufsiz == Some(target)),
    decreases events.len(),
{
    if events.len() == 0 || is_terminal(state) {
    } else {
        let (next, action) = spec_step(state, events[0]);
        assert(state_target(next) == Some(target) || is_terminal(next));
        lemma_loads_carry_target(next, events.drop_first(), target);
        let rest = run_from(next, events.drop_first());
        match action {
            Some(a) => {
                assert(a matches Action::Load { bufsiz } ==> bufsiz == Some(target));
                assert(run_from(state, events).1 == seq![a] + rest.1);
                assert forall|i: int|
                    0 <= i < run_from(state, events).1.len() implies ((#[trigger] run_from(
                    state,
                    events,
                ).1[i]) matches Action::Load { bufsiz } ==> bufsiz == Some(target)) by {
                    if i == 0 {
                        assert(run_from(state, events).1[i] == a);
                    } else {
                        assert(run_from(state, events).1[i] == rest.1[i - 1]);
                    }
                }
            },
            None => {
                assert(run_from(state, events).1 == rest.1);
            },
        }
    }
}

/// Whether any action in the sequence touches the driver's load state.
pub open spec fn touches_module(actions: Seq<Action>) -> bool {
    exists|i: int| 0 <= i < actions.len() && (actions[i] is Unload || actions[i] is Load)
}

/// Fast path: when the first read already reports the target, one
/// reconciliation run succeeds at once and asks for no further action at
/// all — in particular, it never unloads or loads the driver.
pub proof fn lemma_fast_path(target: u16, events: Seq<Event>)
    requires
        events.len() > 0,
        events[0] == (Event::SizeRead { result: Ok(target) }),
    ensures
        run_from(CtrlState::AwaitInitialSize { target }, events).0 == CtrlState::Done,
        run_from(CtrlState::AwaitInitialSize { target }, events).1 == Seq::<Action>::empty(),
{
    let s0 = CtrlState::AwaitInitialSize { target };
    assert(spec_step(s0, events[0]) == (CtrlState::Done, None::<Action>));
    assert(run_from(CtrlState::Done, events.drop_first()) == (
        CtrlState::Done,
        Seq::<Action>::empty(),
    ));
}

/// Idempotence of the fast path: a second run against a backend that
/// still reports the target behaves exactly like the first — it finishes
/// successfully and performs zero unload or load actions.
pub proof fn lemma_fast_path_idempotent(
    target: u16,
    first_events: Seq<Event>,
    second_events: Seq<Event>,
)
    requires
        first_events.len() > 0,
        first_events[0] == (Event::SizeRead { result: Ok(target) }),
        second_events.len() > 0,
        second_events[0] == (Event::SizeRead { result: Ok(target) }),
    ensures
        run_from(CtrlState::AwaitInitialSize { target }, first_events).0 == CtrlState::Done,
        run_from(CtrlState::AwaitInitialSize { target }, second_events).0 == CtrlState::Done,
        !touches_module(run_from(CtrlState::AwaitInitialSize { target }, first_events).1),
        !touches_module(run_from(CtrlState::AwaitInitialSize { target }, second_events).1),
{
    lemma_fast_path(target, first_events);
    lemma_fast_path(target, second_events);
}

/// Correction path: when the initial read differs from the target and the
/// driver is a currently loaded module, the controller asks for exactly
/// one unload, followed by exactly one load carrying the target as the
/// buffer-size parameter, followed by one confirming read — and the run
/// succeeds if and only if that confirming read reports the target;
/// otherwise it fails as a verification failure.
pub proof fn lemma_correction_path(
    target: u16,
    initial: u16,
    confirmed: u16,
    events: Seq<Event>,
)
    requires
        initial != target,
        events == seq![
            Event::SizeRead { result: Ok(initial) },
            Event::InstallableProbed { installable: true },
            Event::LoadedProbed { loaded: true },
            Event::UnloadFinished { result: Ok(()) },
            Event::LoadFinished { result: Ok(()) },
            Event::SizeRead { result: Ok(confirmed) },
        ],
    ensures
        run_from(CtrlState::AwaitInitialSize { target }, events).1 == seq![
            Action::ProbeInstallable,
            Action::ProbeLoaded,
            Action::Unload,
            Action::Load { bufsiz: Some(target) },
            Action::ReadSize,
        ],
        confirmed == target ==> run_from(CtrlState::AwaitInitialSize { target }, events).0
            == CtrlState::Done,
        confirmed != target ==> run_from(CtrlState::AwaitInitialSize { target }, events).0
            == (CtrlState::Failed { error: CtrlError::ConfigurationVerificationFailed }),
{
    reveal_with_fuel(run_from, 8);
    let r = run_from(CtrlState::AwaitInitialSize { target }, events);
    assert(r.1 =~= seq![
        Action::ProbeInstallable,
        Action::ProbeLoaded,
        Action::Unload,
        Action::Load { bufsiz: Some(target) },
        Action::ReadSize,
    ]);
}

/// Correction path when the driver is not currently loaded: the unload is
/// skipped as a no-op, and the controller asks for exactly one load
/// carrying the target, followed by one confirming read.
pub proof fn lemma_correction_path_not_loaded(
    target: u16,
    initial: u16,
    confirmed: u16,
    events: Seq<Event>,
)
    requires
        initial != target,
        events == seq![
            Event::SizeRead { result: Ok(initial) },
            Event::InstallableProbed { installable: true },
            Event::LoadedProbed { loaded: false },
            Event::LoadFinished { result: Ok(()) },
            Event::SizeRead { result: Ok(confirmed) },
        ],
    ensures
        run_from(CtrlState::AwaitInitialSize { target }, events).1 == seq![
            Action::ProbeInstallable,
            Action::ProbeLoaded,
            Action::Load { bufsiz: Some(target) },
            Action::ReadSize,
        ],
        confirmed == target ==> run_from(CtrlState::AwaitInitialSize { target }, events).0
            == CtrlState::Done,
        confirmed != target ==> run_from(CtrlState::AwaitInitialSize { target }, events).0
            == (CtrlState::Failed { error: CtrlError::ConfigurationVerificationFailed }),
{
    reveal_with_fuel(run_from, 7);
    let r = run_from(CtrlState::AwaitInitialSize { target }, events);
    assert(r.1 =~= seq![
        Action::ProbeInstallable,
        Action::ProbeLoaded,
        Action::Load { bufsiz: Some(target) },
        Action::ReadSize,
    ]);
}

/// Impossibility path: when the initial read differs from the target but
/// the driver is not available as a loadable module, the run fails as
/// impossible and performs zero unload or load actions.
pub proof fn lemma_impossible_path(target: u16, initial: u16, events: Seq<Event>)
    requires
        initial != target,
        events == seq![
            Event::SizeRead { result: Ok(initial) },
            Event::InstallableProbed { installable: false },
        ],
    ensures
        run_from(CtrlState::AwaitInitialSize { target }, events).0 == (CtrlState::Failed {
            error: CtrlError::ConfigurationImpossible,
        }),
        run_from(CtrlState::AwaitInitialSize { target }, events).1 == seq![
            Action::ProbeInstallable,
        ],
        !touches_module(run_from(CtrlState::AwaitInitialSize { target }, events).1),
{
    reveal_with_fuel(run_from, 4);
    let r = run_from(CtrlState::AwaitInitialSize { target }, events);
    assert(r.1 =~= seq![Action::ProbeInstallable]);
    assert forall|i: int| 0 <= i < r.1.len() implies !(r.1[i] is Unload) && !(r.1[i] is Load) by {
        assert(r.1[i] == Action::ProbeInstallable);
    }
}

} // verus!
