//! The once-only setup of the platform before the first engine is started.
//!
//! The calls into the operating system belong to the caller. What is decided
//! here is when a call is made, what follows from how it ended, and what the
//! guard has to put back when it goes.

use crate::handle::SafeHandle;
use vstd::prelude::*;

verus! {

/// The display server that the engine runs on.
#[derive(Clone, Copy, Debug, PartialEq, Eq, Structural)]
pub enum PlatformType {
    /// An X11 server.
    X11,
    /// A Wayland compositor.
    Wayland,
    /// Neither could be found.
    Invalid,
}

/// A connection to a display server, which the engine is to use in place of
/// one of its own. The connection has to outlive the engine.
#[derive(Clone, Copy, Debug, PartialEq, Eq, Structural)]
pub enum NixDisplay {
    /// A connection to an X11 server.
    X11(SafeHandle),
    /// A connection to a Wayland compositor.
    Wayland(SafeHandle),
}

impl NixDisplay {
    /// The display server that the connection leads to.
    pub fn platform(&self) -> (p: PlatformType)
        ensures
            p == match *self {
                NixDisplay::X11(_) => PlatformType::X11,
                NixDisplay::Wayland(_) => PlatformType::Wayland,
            },
    {
        match self {
            NixDisplay::X11(_) => PlatformType::X11,
            NixDisplay::Wayland(_) => PlatformType::Wayland,
        }
    }

    /// The connection itself.
    pub fn handle(&self) -> (h: SafeHandle)
        ensures
            h == match *self {
                NixDisplay::X11(d) => d,
                NixDisplay::Wayland(d) => d,
            },
    {
        match self {
            NixDisplay::X11(d) => *d,
            NixDisplay::Wayland(d) => *d,
        }
    }
}

/// The record that a once-only setup was made. The process holds one of
/// these for each such setup, and whoever wants the setup made claims it
/// first: only the first claim succeeds.
#[derive(Debug)]
pub struct InitOnce {
    done: bool,
}

impl InitOnce {
    /// Whether the setup was claimed.
    pub closed spec fn is_done(&self) -> bool {
        self.done
    }

    /// A record of a setup that nobody has claimed yet.
    pub fn new() -> (once: InitOnce)
        ensures
            !once.is_done(),
    {
        InitOnce { done: false }
    }

    /// Claims the setup. The claim succeeds exactly when nobody claimed the
    /// setup before; afterwards the setup is claimed for good.
    pub fn claim(&mut self) -> (first: bool)
        ensures
            first == !old(self).is_done(),
            final(self).is_done(),
    {
        let first = !self.done;
        self.done = true;
        first
    }

    /// Whether the setup was claimed.
    pub fn done(&self) -> (r: bool)
        ensures
            r == self.is_done(),
    {
        self.done
    }
}

/// What the thread's DPI awareness was before the setup changed it. While the
/// guard lives the change stands; when it goes, the thread gets its earlier
/// awareness back.
#[derive(Clone, Copy, Debug, PartialEq, Eq, Structural)]
pub struct PlatformSpecificGuard {
    /// The awareness context to put back, where the setup replaced one.
    pub previous_dpi_context: Option<SafeHandle>,
}

/// What is to be done about the thread's DPI awareness.
#[derive(Clone, Copy, Debug, PartialEq, Eq, Structural)]
pub enum DpiSetup {
    /// The process made the thread aware before: nothing is to be changed,
    /// and the guard that comes with this has nothing to put back.
    AlreadyDone(PlatformSpecificGuard),
    /// The thread's awareness context is to be set now, and the outcome
    /// handed to [`PlatformSpecificGuard::from_previous_context`].
    SetContext,
}

impl PlatformSpecificGuard {
    /// Decides whether the thread's DPI awareness is to be set: it is set by
    /// the first caller in the process and by nobody after that.
    pub fn enable_dpi_awareness(once: &mut InitOnce) -> (setup: DpiSetup)
        ensures
            final(once).is_done(),
            setup == if old(once).is_done() {
                DpiSetup::AlreadyDone(PlatformSpecificGuard { previous_dpi_context: None })
            } else {
                DpiSetup::SetContext
            },
    {
        if once.claim() {
            DpiSetup::SetContext
        } else {
            DpiSetup::AlreadyDone(PlatformSpecificGuard { previous_dpi_context: None })
        }
    }

    /// The guard that goes with the outcome of setting the awareness
    /// context: where the system handed back the context that was in place
    /// before, the guard remembers it; where the call failed, the guard has
    /// nothing to put back.
    pub fn from_previous_context(previous: SafeHandle, valid: bool) -> (guard:
        PlatformSpecificGuard)
        ensures
            guard.previous_dpi_context == if valid {
                Some(previous)
            } else {
                None::<SafeHandle>
            },
    {
        if valid {
            PlatformSpecificGuard { previous_dpi_context: Some(previous) }
        } else {
            PlatformSpecificGuard { previous_dpi_context: None }
        }
    }

    /// The awareness context that is to be put back when the guard goes, if
    /// there is one.
    pub fn unset_dpi_awareness(&self) -> (restore: Option<SafeHandle>)
        ensures
            restore == self.previous_dpi_context,
    {
        self.previous_dpi_context
    }
}

/// A privilege that the process asks for, so that it can look into other
/// processes and run the engine's graphics work at a higher priority.
#[derive(Clone, Copy, Debug, PartialEq, Eq, Structural)]
pub enum Privilege {
    /// The privilege to debug other processes.
    Debug,
    /// The privilege to raise the base priority.
    IncreaseBasePriority,
}

/// One step of the setup of the process's privileges.
#[derive(Clone, Copy, Debug, PartialEq, Eq, Structural)]
pub enum SetupStep {
    /// Open the process's access token.
    OpenProcessToken,
    /// Look up the identifier of a privilege.
    LookupPrivilege(Privilege),
    /// Switch a privilege on in the token.
    AdjustPrivilege(Privilege),
    /// Close the token.
    CloseToken,
    /// Nothing is left to do.
    Done,
}

/// The step that follows `current`, given how `current` ended.
///
/// Without a token nothing can be adjusted and the setup is over. A
/// privilege that cannot be looked up is passed over. A privilege that cannot
/// be switched on is reported and passed over too: the setup never fails.
/// Once the token is open, the setup ends by closing it.
pub open spec fn step_after(current: SetupStep, succeeded: bool) -> SetupStep {
    match current {
        SetupStep::OpenProcessToken => if succeeded {
            SetupStep::LookupPrivilege(Privilege::Debug)
        } else {
            SetupStep::Done
        },
        SetupStep::LookupPrivilege(Privilege::Debug) => if succeeded {
            SetupStep::AdjustPrivilege(Privilege::Debug)
        } else {
            SetupStep::LookupPrivilege(Privilege::IncreaseBasePriority)
        },
        SetupStep::AdjustPrivilege(Privilege::Debug) => SetupStep::LookupPrivilege(
            Privilege::IncreaseBasePriority,
        ),
        SetupStep::LookupPrivilege(Privilege::IncreaseBasePriority) => if succeeded {
            SetupStep::AdjustPrivilege(Privilege::IncreaseBasePriority)
        } else {
            SetupStep::CloseToken
        },
        SetupStep::AdjustPrivilege(Privilege::IncreaseBasePriority) => SetupStep::CloseToken,
        SetupStep::CloseToken => SetupStep::Done,
        SetupStep::Done => SetupStep::Done,
    }
}

/// How many steps can still follow `step`.
pub open spec fn steps_left(step: SetupStep) -> nat {
    match step {
        SetupStep::OpenProcessToken => 6,
        SetupStep::LookupPrivilege(Privilege::Debug) => 5,
        SetupStep::AdjustPrivilege(Privilege::Debug) => 4,
        SetupStep::LookupPrivilege(Privilege::IncreaseBasePriority) => 3,
        SetupStep::AdjustPrivilege(Privilege::IncreaseBasePriority) => 2,
        SetupStep::CloseToken => 1,
        SetupStep::Done => 0,
    }
}

/// The privilege setup of the process, one step at a time: given the step
/// that was just made and how it ended, the step to make next. The setup
/// starts with [`SetupStep::OpenProcessToken`] and is over at
/// [`SetupStep::Done`].
pub fn platform_specific_setup(current: SetupStep, succeeded: bool) -> (next: SetupStep)
    ensures
        next == step_after(current, succeeded),
{
    match current {
        SetupStep::OpenProcessToken => {
            if succeeded {
                SetupStep::LookupPrivilege(Privilege::Debug)
            } else {
                SetupStep::Done
            }
        },
        SetupStep::LookupPrivilege(privilege) => {
            if succeeded {
                SetupStep::AdjustPrivilege(privilege)
            } else {
                match privilege {
                    Privilege::Debug => SetupStep::LookupPrivilege(Privilege::IncreaseBasePriority),
                    Privilege::IncreaseBasePriority => SetupStep::CloseToken,
                }
            }
        },
        SetupStep::AdjustPrivilege(privilege) => {
            match privilege {
                Privilege::Debug => SetupStep::LookupPrivilege(Privilege::IncreaseBasePriority),
                Privilege::IncreaseBasePriority => SetupStep::CloseToken,
            }
        },
        SetupStep::CloseToken => SetupStep::Done,
        SetupStep::Done => SetupStep::Done,
    }
}

/// Whether the failure of a step is worth a line in the log: that of a
/// privilege that could not be switched on. Every other failure is passed
/// over in silence.
pub fn failure_is_reported(step: SetupStep) -> (reported: bool)
    ensures
        reported == (step is AdjustPrivilege),
{
    match step {
        SetupStep::AdjustPrivilege(_) => true,
        _ => false,
    }
}

/// The setup always ends: every step leaves fewer steps to follow.
pub proof fn lemma_setup_ends(current: SetupStep, succeeded: bool)
    requires
        current != SetupStep::Done,
    ensures
        steps_left(step_after(current, succeeded)) < steps_left(current),
{
}

/// A token that was opened is closed: once the token is open, the setup
/// reaches its end only by closing the token.
pub proof fn lemma_token_is_closed(current: SetupStep, succeeded: bool)
    requires
        current != SetupStep::Done,
        step_after(current, succeeded) == SetupStep::Done,
    ensures
        current == SetupStep::CloseToken || (current == SetupStep::OpenProcessToken && !succeeded),
{
}

} // verus!
