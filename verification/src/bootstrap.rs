//! The application bootstrap sequence, as a state machine.
//!
//! The backend's only start-up logic is a fixed sequence of steps: look the
//! main window up by its well-known identifier, decode the embedded icon,
//! assign it to the window, open the developer tools in debug builds, and
//! hand control to the framework's event loop. Every failure on the way is
//! fatal: the process terminates with a diagnostic and never reaches the
//! event loop.
//!
//! The steps themselves are framework calls that an unverified driver makes.
//! What is verified here is the sequencing: from each [`Phase`] the driver
//! asks [`next_action`] what to do, performs it, and reports the outcome as
//! an [`Event`] to [`step`]. The lemmas at the bottom pin the two properties
//! the sequence owes: a missing main window aborts the run before the event
//! loop can start, and a run that reaches the event loop has assigned the
//! icon exactly once.

use vstd::prelude::*;

verus! {

/// Why setup aborted. Every reason is fatal: none is recovered or retried.
#[derive(Clone, Copy, Debug, PartialEq, Eq, Structural)]
pub enum AbortReason {
    /// The main window was not found under its well-known identifier.
    MissingMainWindow,
    /// The embedded icon bytes did not decode as a PNG image.
    IconDecodeFailed,
    /// Assigning the decoded icon to the main window failed.
    IconSetFailed,
    /// The framework's event loop failed to start.
    EventLoopFailed,
}

/// A capability plugin registered with the framework during bootstrap.
#[derive(Clone, Copy, Debug, PartialEq, Eq, Structural)]
pub enum Plugin {
    /// Opens URLs and files with the system handler.
    Opener,
    /// Native file and message dialogs.
    Dialog,
    /// Filesystem access.
    Fs,
    /// Native notifications.
    Notification,
    /// Persistent key-value store.
    Store,
    /// Clipboard access.
    ClipboardManager,
    /// Shell and process access.
    Shell,
}

/// Where the bootstrap sequence stands.
#[derive(Clone, Copy, Debug, PartialEq, Eq, Structural)]
pub enum Phase {
    /// Nothing done yet: the main window is still to be looked up.
    Init,
    /// The main window was found; the icon is still to be decoded.
    WindowReady,
    /// The icon decoded; it is still to be assigned to the window.
    IconReady,
    /// The icon is on the main window; the event loop is still to start.
    IconAssigned,
    /// The event loop is running; the framework owns control.
    EventLoop,
    /// Setup failed: the process terminates with the reason's diagnostic.
    Aborted(AbortReason),
}

/// The outcome of one outside step, reported back by the driver.
#[derive(Clone, Copy, Debug, PartialEq, Eq, Structural)]
pub enum Event {
    /// Whether the window lookup found the main window.
    WindowLookup(bool),
    /// Whether the embedded bytes decoded into an icon.
    IconDecode(bool),
    /// Whether assigning the icon to the window succeeded.
    IconAssign(bool),
    /// Whether the framework's event loop started.
    LoopStart(bool),
}

/// What the driver is to do next.
#[derive(Clone, Copy, Debug, PartialEq, Eq, Structural)]
pub enum Action {
    /// Look the main window up by its well-known identifier.
    LookupWindow,
    /// Decode the embedded icon bytes.
    DecodeIcon,
    /// Assign the decoded icon to the main window.
    AssignIcon,
    /// Open the developer tools, then hand control to the event loop.
    /// Issued in debug builds only.
    OpenDevtoolsAndRun,
    /// Hand control to the event loop.
    RunLoop,
    /// Terminate the process with the reason's diagnostic.
    Abort(AbortReason),
    /// The event loop owns control: nothing is left to do.
    Idle,
}

/// How one reported outcome advances the sequence. An event that does not
/// answer the phase's pending step changes nothing; once aborted, every
/// event leaves the phase aborted.
pub open spec fn spec_step(p: Phase, e: Event) -> Phase {
    match (p, e) {
        (Phase::Init, Event::WindowLookup(found)) => if found {
            Phase::WindowReady
        } else {
            Phase::Aborted(AbortReason::MissingMainWindow)
        },
        (Phase::WindowReady, Event::IconDecode(ok)) => if ok {
            Phase::IconReady
        } else {
            Phase::Aborted(AbortReason::IconDecodeFailed)
        },
        (Phase::IconReady, Event::IconAssign(ok)) => if ok {
            Phase::IconAssigned
        } else {
            Phase::Aborted(AbortReason::IconSetFailed)
        },
        (Phase::IconAssigned, Event::LoopStart(ok)) => if ok {
            Phase::EventLoop
        } else {
            Phase::Aborted(AbortReason::EventLoopFailed)
        },
        _ => p,
    }
}

/// Advance the sequence by one reported outcome.
pub fn step(p: Phase, e: Event) -> (next: Phase)
    ensures
        next == spec_step(p, e),
{
    match (p, e) {
        (Phase::Init, Event::WindowLookup(found)) => if found {
            Phase::WindowReady
        } else {
            Phase::Aborted(AbortReason::MissingMainWindow)
        },
        (Phase::WindowReady, Event::IconDecode(ok)) => if ok {
            Phase::IconReady
        } else {
            Phase::Aborted(AbortReason::IconDecodeFailed)
        },
        (Phase::IconReady, Event::IconAssign(ok)) => if ok {
            Phase::IconAssigned
        } else {
            Phase::Aborted(AbortReason::IconSetFailed)
        },
        (Phase::IconAssigned, Event::LoopStart(ok)) => if ok {
            Phase::EventLoop
        } else {
            Phase::Aborted(AbortReason::EventLoopFailed)
        },
        _ => p,
    }
}

/// The action pending in a phase. `debug` says whether this is a debug
/// build, in which the developer tools open before the event loop starts.
pub open spec fn spec_action(p: Phase, debug: bool) -> Action {
    match p {
        Phase::Init => Action::LookupWindow,
        Phase::WindowReady => Action::DecodeIcon,
        Phase::IconReady => Action::AssignIcon,
        Phase::IconAssigned => if debug {
            Action::OpenDevtoolsAndRun
        } else {
            Action::RunLoop
        },
        Phase::EventLoop => Action::Idle,
        Phase::Aborted(r) => Action::Abort(r),
    }
}

/// What the driver is to do in phase `p` of a build with debug flag `debug`.
pub fn next_action(p: Phase, debug: bool) -> (a: Action)
    ensures
        a == spec_action(p, debug),
{
    match p {
        Phase::Init => Action::LookupWindow,
        Phase::WindowReady => Action::DecodeIcon,
        Phase::IconReady => Action::AssignIcon,
        Phase::IconAssigned => if debug {
            Action::OpenDevtoolsAndRun
        } else {
            Action::RunLoop
        },
        Phase::EventLoop => Action::Idle,
        Phase::Aborted(r) => Action::Abort(r),
    }
}

/// The phase reached from `p` after the whole sequence of reported outcomes.
pub open spec fn run_from(p: Phase, events: Seq<Event>) -> Phase
    decreases events.len(),
{
    if events.len() == 0 {
        p
    } else {
        run_from(spec_step(p, events[0]), events.skip(1))
    }
}

/// The phase reached from the start of bootstrap after `events`.
pub open spec fn run_phases(events: Seq<Event>) -> Phase {
    run_from(Phase::Init, events)
}

/// How many icon assignments the driver performs along a run from `p`:
/// one for each event that answers a pending [`Action::AssignIcon`].
pub open spec fn icon_assign_count(p: Phase, events: Seq<Event>) -> nat
    decreases events.len(),
{
    if events.len() == 0 {
        0
    } else {
        let here: nat = if p is IconReady && events[0] is IconAssign {
            1
        } else {
            0
        };
        here + icon_assign_count(spec_step(p, events[0]), events.skip(1))
    }
}

/// The phases in which the icon assignment still lies ahead.
pub open spec fn icon_not_yet_assigned(p: Phase) -> bool {
    p is Init || p is WindowReady || p is IconReady
}

/// An aborted run stays aborted: no later outcome revives it.
pub proof fn lemma_aborted_absorbing(r: AbortReason, events: Seq<Event>)
    ensures
        run_from(Phase::Aborted(r), events) == Phase::Aborted(r),
    decreases events.len(),
{
    if events.len() > 0 {
        lemma_aborted_absorbing(r, events.skip(1));
    }
}

/// Once the icon assignment is behind (or the run aborted), no further
/// assignment is ever performed.
proof fn lemma_no_assign_after(p: Phase, events: Seq<Event>)
    requires
        !icon_not_yet_assigned(p),
    ensures
        icon_assign_count(p, events) == 0,
    decreases events.len(),
{
    if events.len() > 0 {
        lemma_no_assign_after(spec_step(p, events[0]), events.skip(1));
    }
}

proof fn lemma_one_assignment_from(p: Phase, events: Seq<Event>)
    requires
        icon_not_yet_assigned(p),
        run_from(p, events) == Phase::EventLoop,
    ensures
        icon_assign_count(p, events) == 1,
    decreases events.len(),
{
    if events.len() > 0 {
        let p2 = spec_step(p, events[0]);
        let rest = events.skip(1);
        if p is IconReady && events[0] is IconAssign {
            if events[0]->IconAssign_0 {
                lemma_no_assign_after(p2, rest);
            } else {
                lemma_aborted_absorbing(AbortReason::IconSetFailed, rest);
            }
        } else {
            if icon_not_yet_assigned(p2) {
                lemma_one_assignment_from(p2, rest);
            } else {
                lemma_aborted_absorbing(p2->Aborted_0, rest);
            }
        }
    }
}

proof fn lemma_assign_bound(p: Phase, events: Seq<Event>)
    requires
        icon_not_yet_assigned(p),
    ensures
        icon_assign_count(p, events) <= 1,
    decreases events.len(),
{
    if events.len() > 0 {
        let p2 = spec_step(p, events[0]);
        let rest = events.skip(1);
        if p is IconReady && events[0] is IconAssign {
            lemma_no_assign_after(p2, rest);
        } else if icon_not_yet_assigned(p2) {
            lemma_assign_bound(p2, rest);
        } else {
            lemma_no_assign_after(p2, rest);
        }
    }
}

/// If the main window is not found at the first setup step, the run aborts
/// with the missing-window diagnostic and never reaches the event loop,
/// whatever outcomes follow.
pub proof fn lemma_missing_window_aborts(events: Seq<Event>)
    requires
        events.len() > 0,
        events[0] == Event::WindowLookup(false),
    ensures
        run_phases(events) == Phase::Aborted(AbortReason::MissingMainWindow),
        run_phases(events) != Phase::EventLoop,
{
    lemma_aborted_absorbing(AbortReason::MissingMainWindow, events.skip(1));
}

/// A run that reaches the event loop has assigned the icon exactly once.
pub proof fn lemma_successful_setup_assigns_icon_once(events: Seq<Event>)
    requires
        run_phases(events) == Phase::EventLoop,
    ensures
        icon_assign_count(Phase::Init, events) == 1,
{
    lemma_one_assignment_from(Phase::Init, events);
}

/// No run, successful or not, assigns the icon more than once.
pub proof fn lemma_never_two_icon_assignments(events: Seq<Event>)
    ensures
        icon_assign_count(Phase::Init, events) <= 1,
{
    lemma_assign_bound(Phase::Init, events);
}

impl AbortReason {
    /// The diagnostic the process terminates with for this reason.
    pub fn message(&self) -> (m: &'static str)
        ensures
            m@ == spec_message(*self),
    {
        match self {
            AbortReason::MissingMainWindow => "main window not found",
            AbortReason::IconDecodeFailed => "Failed to decode icon PNG",
            AbortReason::IconSetFailed => "Failed to set window icon",
            AbortReason::EventLoopFailed => "error while running tauri application",
        }
    }
}

/// The diagnostic for each abort reason.
pub open spec fn spec_message(r: AbortReason) -> Seq<char> {
    match r {
        AbortReason::MissingMainWindow => "main window not found"@,
        AbortReason::IconDecodeFailed => "Failed to decode icon PNG"@,
        AbortReason::IconSetFailed => "Failed to set window icon"@,
        AbortReason::EventLoopFailed => "error while running tauri application"@,
    }
}

/// The well-known identifier under which the main window is looked up.
pub fn main_window_label() -> (l: &'static str)
    ensures
        l@ == "main"@,
{
    "main"
}

/// The plugins the bootstrap registers, in the order the builder adds them.
pub open spec fn spec_plugin_order() -> Seq<Plugin> {
    seq![
        Plugin::Opener,
        Plugin::Dialog,
        Plugin::Fs,
        Plugin::Notification,
        Plugin::Store,
        Plugin::ClipboardManager,
        Plugin::Shell,
    ]
}

/// The fixed, ordered set of capability plugins to register.
pub fn plugin_order() -> (ps: Vec<Plugin>)
    ensures
        ps@ == spec_plugin_order(),
{
    let mut ps: Vec<Plugin> = Vec::new();
    ps.push(Plugin::Opener);
    ps.push(Plugin::Dialog);
    ps.push(Plugin::Fs);
    ps.push(Plugin::Notification);
    ps.push(Plugin::Store);
    ps.push(Plugin::ClipboardManager);
    ps.push(Plugin::Shell);
    proof {
        assert(ps@ =~= spec_plugin_order());
    }
    ps
}

} // verus!
