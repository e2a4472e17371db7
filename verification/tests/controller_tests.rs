use spi_bridge::controller::{
    finished, start, step, Action, CtrlError, CtrlState, Event, ReadError,
};

/// A fake driver backend. It performs the controller's actions against
/// in-memory state and records how often each external invocation was
/// issued.
struct MockBackend {
    /// The buffer size the parameter file currently reports, or a read
    /// failure to report instead.
    size: Result<u16, ReadError>,
    installable: bool,
    loaded: bool,
    /// When loading with a requested size, the size that actually takes
    /// effect (simulates a silently clamping environment when it differs).
    effective_size_on_load: Option<u16>,
    unload_outcome: Result<(), String>,
    load_outcome: Result<(), String>,
    reads: usize,
    installable_probes: usize,
    loaded_probes: usize,
    unloads: usize,
    loads: usize,
    last_load_param: Option<Option<u16>>,
}

impl MockBackend {
    fn reporting(size: u16) -> Self {
        MockBackend {
            size: Ok(size),
            installable: true,
            loaded: true,
            effective_size_on_load: None,
            unload_outcome: Ok(()),
            load_outcome: Ok(()),
            reads: 0,
            installable_probes: 0,
            loaded_probes: 0,
            unloads: 0,
            loads: 0,
            last_load_param: None,
        }
    }

    fn perform(&mut self, action: &Action) -> Event {
        match action {
            Action::ReadSize => {
                self.reads += 1;
                Event::SizeRead { result: self.size.clone() }
            }
            Action::ProbeInstallable => {
                self.installable_probes += 1;
                Event::InstallableProbed { installable: self.installable }
            }
            Action::ProbeLoaded => {
                self.loaded_probes += 1;
                Event::LoadedProbed { loaded: self.loaded }
            }
            Action::Unload => {
                self.unloads += 1;
                if self.unload_outcome.is_ok() {
                    self.loaded = false;
                }
                Event::UnloadFinished { result: self.unload_outcome.clone() }
            }
            Action::Load { bufsiz } => {
                self.loads += 1;
                self.last_load_param = Some(*bufsiz);
                if self.load_outcome.is_ok() {
                    self.loaded = true;
                    let effective = match self.effective_size_on_load {
                        Some(clamped) => Some(clamped),
                        None => *bufsiz,
                    };
                    if let Some(size) = effective {
                        self.size = Ok(size);
                    }
                }
                Event::LoadFinished { result: self.load_outcome.clone() }
            }
        }
    }

    fn module_invocations(&self) -> usize {
        self.installable_probes + self.loaded_probes + self.unloads + self.loads
    }
}

/// Drives one reconciliation run to its terminal state.
fn reconcile(backend: &mut MockBackend, target: u16) -> CtrlState {
    let (mut state, first) = start(target);
    let mut pending = Some(first);
    while let Some(action) = pending {
        let event = backend.perform(&action);
        let (next, next_action) = step(state, event);
        state = next;
        pending = next_action;
    }
    assert!(finished(&state));
    state
}

#[test]
fn fast_path_is_idempotent() {
    let mut backend = MockBackend::reporting(7868);
    let first = reconcile(&mut backend, 7868);
    assert_eq!(first, CtrlState::Done);
    let reads_after_first = backend.reads;
    let second = reconcile(&mut backend, 7868);
    assert_eq!(second, CtrlState::Done);
    assert_eq!(backend.unloads, 0);
    assert_eq!(backend.loads, 0);
    assert_eq!(backend.module_invocations(), 0);
    assert_eq!(backend.reads, reads_after_first + 1);
}

#[test]
fn correction_path_reloads_once_and_succeeds() {
    let mut backend = MockBackend::reporting(4096);
    let state = reconcile(&mut backend, 7868);
    assert_eq!(state, CtrlState::Done);
    assert_eq!(backend.unloads, 1);
    assert_eq!(backend.loads, 1);
    assert_eq!(backend.last_load_param, Some(Some(7868)));
    assert_eq!(backend.reads, 2);
}

#[test]
fn correction_path_skips_unload_when_not_loaded() {
    let mut backend = MockBackend::reporting(4096);
    backend.loaded = false;
    let state = reconcile(&mut backend, 7868);
    assert_eq!(state, CtrlState::Done);
    assert_eq!(backend.unloads, 0);
    assert_eq!(backend.loads, 1);
    assert_eq!(backend.last_load_param, Some(Some(7868)));
}

#[test]
fn correction_path_detects_clamped_parameter() {
    let mut backend = MockBackend::reporting(4096);
    backend.effective_size_on_load = Some(4096);
    let state = reconcile(&mut backend, 7868);
    assert_eq!(
        state,
        CtrlState::Failed { error: CtrlError::ConfigurationVerificationFailed }
    );
    assert_eq!(backend.unloads, 1);
    assert_eq!(backend.loads, 1);
}

#[test]
fn impossible_path_fails_without_module_actions() {
    let mut backend = MockBackend::reporting(4096);
    backend.installable = false;
    let state = reconcile(&mut backend, 7868);
    assert_eq!(
        state,
        CtrlState::Failed { error: CtrlError::ConfigurationImpossible }
    );
    assert_eq!(backend.unloads, 0);
    assert_eq!(backend.loads, 0);
    assert_eq!(backend.installable_probes, 1);
}

#[test]
fn unreadable_parameter_fails_with_io_error() {
    let mut backend = MockBackend::reporting(0);
    backend.size = Err(ReadError::Io { detail: "permission denied".to_string() });
    let state = reconcile(&mut backend, 7868);
    assert_eq!(
        state,
        CtrlState::Failed { error: CtrlError::IoError { detail: "permission denied".to_string() } }
    );
    assert_eq!(backend.module_invocations(), 0);
}

#[test]
fn malformed_parameter_fails_with_parse_error() {
    let mut backend = MockBackend::reporting(0);
    backend.size = Err(ReadError::Parse);
    let state = reconcile(&mut backend, 7868);
    assert_eq!(state, CtrlState::Failed { error: CtrlError::ParseError });
}

#[test]
fn failed_unload_carries_diagnostic_text() {
    let mut backend = MockBackend::reporting(4096);
    backend.unload_outcome = Err("modprobe: FATAL: Module spidev is in use.".to_string());
    let state = reconcile(&mut backend, 7868);
    assert_eq!(
        state,
        CtrlState::Failed {
            error: CtrlError::ModuleUnloadError {
                detail: "modprobe: FATAL: Module spidev is in use.".to_string(),
            },
        }
    );
    assert_eq!(backend.loads, 0);
}

#[test]
fn failed_load_carries_diagnostic_text() {
    let mut backend = MockBackend::reporting(4096);
    backend.load_outcome = Err("modprobe: FATAL: Module spidev not found.".to_string());
    let state = reconcile(&mut backend, 7868);
    assert_eq!(
        state,
        CtrlState::Failed {
            error: CtrlError::ModuleLoadError {
                detail: "modprobe: FATAL: Module spidev not found.".to_string(),
            },
        }
    );
    assert_eq!(backend.unloads, 1);
    assert_eq!(backend.loads, 1);
}
