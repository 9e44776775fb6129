//! The application shell's state machine: from a frozen configuration through
//! logging, window creation and the running event loop to shutdown.
//!
//! The shell does not talk to the logging or windowing collaborators itself;
//! it decides what to ask of them and in which order, and it records each
//! completed step. Its contracts keep the stages strictly forward: no stage
//! is ever re-entered, so in particular the logging initialization step can
//! be recorded at most once per shell.

use vstd::prelude::*;
use vstd::string::StringExecFns;
use crate::config::{Config, ConfigModel};
use crate::events::{is_exit_request, requests_exit, AppEvent};

verus! {

/// The stages of the application's life, in order.
#[derive(Clone, Copy, PartialEq, Eq, Structural, Debug)]
pub enum ShellStage {
    Uninitialized,
    Configured,
    Logging,
    Windowed,
    Running,
    ShuttingDown,
    Exited,
}

/// The position of a stage in the application's life.
pub open spec fn stage_rank(s: ShellStage) -> nat {
    match s {
        ShellStage::Uninitialized => 0,
        ShellStage::Configured => 1,
        ShellStage::Logging => 2,
        ShellStage::Windowed => 3,
        ShellStage::Running => 4,
        ShellStage::ShuttingDown => 5,
        ShellStage::Exited => 6,
    }
}

/// The transitions the shell may take. `Running` to `Running` is the event
/// loop ignoring an event; every other transition moves to the next stage.
pub open spec fn shell_step(pre: ShellStage, post: ShellStage) -> bool {
    ||| (pre is Uninitialized && post is Configured)
    ||| (pre is Configured && post is Logging)
    ||| (pre is Logging && post is Windowed)
    ||| (pre is Windowed && post is Running)
    ||| (pre is Running && post is Running)
    ||| (pre is Running && post is ShuttingDown)
    ||| (pre is ShuttingDown && post is Exited)
}

/// Law: shell stages only move forward, and a stage once left is never
/// re-entered. In particular, logging initialization is entered only from
/// `Configured`, which no transition returns to: within one shell, logging
/// is initialized at most once.
pub proof fn lemma_shell_steps_forward(pre: ShellStage, post: ShellStage)
    requires
        shell_step(pre, post),
    ensures
        stage_rank(post) >= stage_rank(pre),
        post != pre ==> stage_rank(post) > stage_rank(pre),
        post is Logging ==> pre is Configured,
        post is Configured ==> pre is Uninitialized,
{
}

/// What the shell asks of the windowing collaborator: one window with this
/// title and these dimensions, centered on the primary display.
pub struct WindowRequest {
    pub title: String,
    pub width: u32,
    pub height: u32,
}

/// The application shell: the frozen configuration and the stage reached.
pub struct Shell {
    config: Config,
    stage: ShellStage,
}

impl Shell {
    /// The stage the shell has reached.
    pub closed spec fn spec_stage(&self) -> ShellStage {
        self.stage
    }

    /// The shell's configuration, which never changes after construction.
    pub closed spec fn config_model(&self) -> ConfigModel {
        self.config@
    }

    /// Takes ownership of the frozen configuration. Construction is the step
    /// out of `Uninitialized`: a shell begins life in `Configured`.
    pub fn new(config: Config) -> (r: Shell)
        ensures
            r.spec_stage() is Configured,
            r.config_model() == config@,
            shell_step(ShellStage::Uninitialized, r.spec_stage()),
    {
        Shell { config, stage: ShellStage::Configured }
    }

    /// The configuration the shell runs with.
    pub fn config(&self) -> (r: &Config)
        ensures
            r@ == self.config_model(),
    {
        &self.config
    }

    /// True while the event loop should keep polling.
    pub fn is_running(&self) -> (r: bool)
        ensures
            r == (self.spec_stage() is Running),
    {
        match self.stage {
            ShellStage::Running => true,
            _ => false,
        }
    }

    /// The stage the shell has reached.
    pub fn stage(&self) -> (r: ShellStage)
        ensures
            r == self.spec_stage(),
    {
        self.stage
    }

    /// Records that the logging collaborator came up at the configured
    /// verbosity. The one-shot nature of that collaborator is respected by
    /// the precondition: only a freshly configured shell may record it, and
    /// no transition ever returns to `Configured`.
    pub fn logging_initialized(&mut self)
        requires
            old(self).spec_stage() is Configured,
        ensures
            final(self).spec_stage() is Logging,
            final(self).config_model() == old(self).config_model(),
            shell_step(old(self).spec_stage(), final(self).spec_stage()),
    {
        self.stage = ShellStage::Logging;
    }

    /// The window to request from the windowing collaborator: titled
    /// `Skyrogue`, of exactly the configured dimensions.
    pub fn window_request(&mut self) -> (r: WindowRequest)
        requires
            old(self).spec_stage() is Logging,
        ensures
            final(self).spec_stage() is Windowed,
            final(self).config_model() == old(self).config_model(),
            shell_step(old(self).spec_stage(), final(self).spec_stage()),
            r.title@ == "Skyrogue"@,
            r.width == old(self).config_model().screen_width,
            r.height == old(self).config_model().screen_height,
    {
        self.stage = ShellStage::Windowed;
        WindowRequest {
            title: String::from_str("Skyrogue"),
            width: self.config.screen_width(),
            height: self.config.screen_height(),
        }
    }

    /// Records that the window and its event pump are up and the event loop
    /// begins.
    pub fn event_loop_started(&mut self)
        requires
            old(self).spec_stage() is Windowed,
        ensures
            final(self).spec_stage() is Running,
            final(self).config_model() == old(self).config_model(),
            shell_step(old(self).spec_stage(), final(self).spec_stage()),
    {
        self.stage = ShellStage::Running;
    }

    /// Handles one event: an exit request moves the shell to shutting down;
    /// every other event leaves it running.
    pub fn handle_event(&mut self, e: &AppEvent)
        requires
            old(self).spec_stage() is Running,
        ensures
            final(self).config_model() == old(self).config_model(),
            shell_step(old(self).spec_stage(), final(self).spec_stage()),
            requests_exit(*e) ==> final(self).spec_stage() is ShuttingDown,
            !requests_exit(*e) ==> final(self).spec_stage() is Running,
    {
        if is_exit_request(e) {
            self.stage = ShellStage::ShuttingDown;
        }
    }

    /// Handles one drained batch of pending events, in order, stopping at the
    /// first exit request. The loop leaves `Running` on this batch if and
    /// only if the batch holds an exit request.
    pub fn drain_events(&mut self, events: &Vec<AppEvent>)
        requires
            old(self).spec_stage() is Running,
        ensures
            final(self).config_model() == old(self).config_model(),
            (exists|i: int| 0 <= i < events@.len() && requests_exit(events@[i]))
                <==> final(self).spec_stage() is ShuttingDown,
            !(exists|i: int| 0 <= i < events@.len() && requests_exit(events@[i]))
                <==> final(self).spec_stage() is Running,
    {
        let mut i: usize = 0;
        while i < events.len()
            invariant
                i as nat <= events@.len(),
                self.spec_stage() is Running,
                self.config_model() == old(self).config_model(),
                forall|j: int| 0 <= j < i ==> !requests_exit(events@[j]),
            decreases events@.len() - i,
        {
            self.handle_event(&events[i]);
            if !self.is_running() {
                return ;
            }
            i = i + 1;
        }
    }

    /// Records that the event loop ended and teardown finished.
    pub fn shutdown_complete(&mut self)
        requires
            old(self).spec_stage() is ShuttingDown,
        ensures
            final(self).spec_stage() is Exited,
            final(self).config_model() == old(self).config_model(),
            shell_step(old(self).spec_stage(), final(self).spec_stage()),
    {
        self.stage = ShellStage::Exited;
    }
}

} // verus!
