use vstd::prelude::*;

verus! {

/// Phase of the frame driver.
#[derive(Clone, Copy, PartialEq, Eq, Structural, Debug)]
pub enum RunnerState {
    /// Plugins are still finishing their setup.
    Initializing,
    /// An engine update pass is under way.
    Updating,
    /// Blocked until the next vertical-blank signal.
    WaitingForVBlank,
    /// The application asked to exit with `code`; terminal.
    Exited { code: u8 },
}

/// What the driver learns from the engine or the hardware.
#[derive(Clone, Copy, PartialEq, Eq, Structural, Debug)]
pub enum RunnerEvent {
    /// Some plugin is still being added.
    PluginsPending,
    /// Every plugin has finished its setup.
    PluginsReady,
    /// An update pass ended, with the exit request it produced, if any.
    Updated { exit: Option<u8> },
    /// The vertical-blank signal arrived.
    VBlank,
}

/// What the driver asks its host to do next.
#[derive(Clone, Copy, PartialEq, Eq, Structural, Debug)]
pub enum RunnerAction {
    /// Check the plugins again.
    WaitForPlugins,
    /// Finish and clean up the plugins, then run one update pass.
    StartAndUpdate,
    /// Run one update pass.
    Update,
    /// Block until the next vertical-blank signal.
    WaitForVBlank,
    /// Return `code` to the caller.
    Return { code: u8 },
    /// Nothing: the event does not apply in this state.
    Ignore,
}

/// The driver's next state and action on `event` in `state`.
pub open spec fn step_spec(state: RunnerState, event: RunnerEvent) -> (RunnerState, RunnerAction) {
    match (state, event) {
        (RunnerState::Exited { code }, _) => (state, RunnerAction::Return { code }),
        (RunnerState::Initializing, RunnerEvent::PluginsPending) => (state, RunnerAction::WaitForPlugins),
        (RunnerState::Initializing, RunnerEvent::PluginsReady) => (RunnerState::Updating, RunnerAction::StartAndUpdate),
        (RunnerState::Updating, RunnerEvent::Updated { exit }) => match exit {
            Some(code) => (RunnerState::Exited { code }, RunnerAction::Return { code }),
            None => (RunnerState::WaitingForVBlank, RunnerAction::WaitForVBlank),
        },
        (RunnerState::WaitingForVBlank, RunnerEvent::VBlank) => (RunnerState::Updating, RunnerAction::Update),
        _ => (state, RunnerAction::Ignore),
    }
}

/// Replaces the engine's frame driver with one paced by the vertical-blank signal.
#[derive(Clone, Copy, PartialEq, Eq, Structural, Debug, Default)]
pub struct AgbRunnerPlugin;

impl AgbRunnerPlugin {
    /// Advances the driver in `state` by `event`.
    pub fn step(state: RunnerState, event: RunnerEvent) -> (r: (RunnerState, RunnerAction))
        ensures
            r == step_spec(state, event),
    {
        match (state, event) {
            (RunnerState::Exited { code }, _) => (state, RunnerAction::Return { code }),
            (RunnerState::Initializing, RunnerEvent::PluginsPending) => (state, RunnerAction::WaitForPlugins),
            (RunnerState::Initializing, RunnerEvent::PluginsReady) => (RunnerState::Updating, RunnerAction::StartAndUpdate),
            (RunnerState::Updating, RunnerEvent::Updated { exit }) => match exit {
                Some(code) => (RunnerState::Exited { code }, RunnerAction::Return { code }),
                None => (RunnerState::WaitingForVBlank, RunnerAction::WaitForVBlank),
            },
            (RunnerState::WaitingForVBlank, RunnerEvent::VBlank) => (RunnerState::Updating, RunnerAction::Update),
            _ => (state, RunnerAction::Ignore),
        }
    }
}

/// The exit request that the update pass of frame `frame` produces.
pub open spec fn request_at(requests: Seq<Option<u8>>, frame: nat) -> Option<u8> {
    if frame < requests.len() {
        requests[frame as int]
    } else {
        None
    }
}

/// Update passes run, and the exit code returned if any, when the driver starts at
/// frame `frame` and runs until frame `frames` ends; each frame is one update pass,
/// one exit check and one wait for the vertical-blank signal.
pub open spec fn run_from(requests: Seq<Option<u8>>, frame: nat, frames: nat) -> (nat, Option<u8>)
    decreases frames - frame,
{
    if frame >= frames {
        (frame, None)
    } else {
        match request_at(requests, frame) {
            Some(code) => (frame + 1, Some(code)),
            None => run_from(requests, frame + 1, frames),
        }
    }
}

/// What the driver did within a window of frames.
#[derive(Clone, Copy, PartialEq, Eq, Structural, Debug)]
pub struct RunReport {
    /// Update passes run.
    pub updates: usize,
    /// The exit code returned, if the driver returned.
    pub exit: Option<u8>,
}

/// Runs the driver over `vblanks` vertical-blank signals, with `requests[i]` the exit
/// request that the `i`th update pass produces (none past the end).
pub fn run_frames(requests: &Vec<Option<u8>>, vblanks: usize) -> (r: RunReport)
    ensures
        (r.updates as nat, r.exit) == run_from(requests@, 0, vblanks as nat),
{
    if vblanks == 0 {
        return RunReport { updates: 0, exit: None };
    }
    let (mut state, _) = AgbRunnerPlugin::step(RunnerState::Initializing, RunnerEvent::PluginsReady);
    let mut frame: usize = 0;
    while frame < vblanks
        invariant
            0 <= frame <= vblanks,
            frame < vblanks ==> state == RunnerState::Updating,
            run_from(requests@, frame as nat, vblanks as nat) == run_from(requests@, 0, vblanks as nat),
        decreases vblanks - frame,
    {
        let exit = if frame < requests.len() { requests[frame] } else { None };
        let (next, action) = AgbRunnerPlugin::step(state, RunnerEvent::Updated { exit });
        match action {
            RunnerAction::Return { code } => {
                return RunReport { updates: frame + 1, exit: Some(code) };
            },
            _ => {},
        }
        state = next;
        frame = frame + 1;
        if frame < vblanks {
            let (next, _) = AgbRunnerPlugin::step(state, RunnerEvent::VBlank);
            state = next;
        }
    }
    RunReport { updates: frame, exit: None }
}

/// With no exit request in the window, the driver runs one update pass per
/// vertical-blank signal and never returns.
pub proof fn lemma_no_exit_runs_every_frame(requests: Seq<Option<u8>>, frame: nat, frames: nat)
    requires
        frame <= frames,
        forall|i: nat| frame <= i < frames ==> (#[trigger] request_at(requests, i)).is_none(),
    ensures
        run_from(requests, frame, frames) == (frames, None::<u8>),
    decreases frames - frame,
{
    if frame < frames {
        assert(request_at(requests, frame).is_none());
        lemma_no_exit_runs_every_frame(requests, frame + 1, frames);
    }
}

/// Once exited, the driver stays exited and keeps returning the same code.
pub proof fn lemma_exit_terminal(code: u8, event: RunnerEvent)
    ensures
        step_spec(RunnerState::Exited { code }, event) == (RunnerState::Exited { code }, RunnerAction::Return { code }),
{
}

/// While no update pass asks to exit, a running driver never returns: after every
/// step it is in an update pass or blocked on the vertical-blank signal.
pub proof fn lemma_running_without_exit(state: RunnerState, event: RunnerEvent)
    requires
        state == RunnerState::Updating || state == RunnerState::WaitingForVBlank,
        event != (RunnerEvent::Updated { exit: None }) ==> !(event is Updated),
    ensures
        step_spec(state, event).0 == RunnerState::Updating || step_spec(state, event).0
            == RunnerState::WaitingForVBlank,
        !(step_spec(state, event).1 is Return),
{
}

/// Each update pass that asks for no exit is followed by one wait for the
/// vertical-blank signal, and each signal by the next update pass.
pub proof fn lemma_update_then_wait()
    ensures
        step_spec(RunnerState::Updating, RunnerEvent::Updated { exit: None }) == (
            RunnerState::WaitingForVBlank,
            RunnerAction::WaitForVBlank,
        ),
        step_spec(RunnerState::WaitingForVBlank, RunnerEvent::VBlank) == (
            RunnerState::Updating,
            RunnerAction::Update,
        ),
{
}

} // verus!
