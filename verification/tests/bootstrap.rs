use panoramix_backend::bootstrap::{
    main_window_label, next_action, plugin_order, step, AbortReason, Action, Event, Phase, Plugin,
};

fn drive(events: &[Event]) -> (Phase, usize) {
    let mut phase = Phase::Init;
    let mut assigns: usize = 0;
    for e in events {
        if phase == Phase::IconReady && matches!(e, Event::IconAssign(_)) {
            assigns += 1;
        }
        phase = step(phase, *e);
    }
    (phase, assigns)
}

#[test]
fn successful_setup_reaches_event_loop_with_one_assignment() {
    let events = [
        Event::WindowLookup(true),
        Event::IconDecode(true),
        Event::IconAssign(true),
        Event::LoopStart(true),
    ];
    let (phase, assigns) = drive(&events);
    assert_eq!(phase, Phase::EventLoop);
    assert_eq!(assigns, 1);
}

#[test]
fn missing_window_aborts_before_event_loop() {
    let events = [
        Event::WindowLookup(false),
        Event::IconDecode(true),
        Event::IconAssign(true),
        Event::LoopStart(true),
    ];
    let (phase, assigns) = drive(&events);
    assert_eq!(phase, Phase::Aborted(AbortReason::MissingMainWindow));
    assert_ne!(phase, Phase::EventLoop);
    assert_eq!(assigns, 0);
}

#[test]
fn icon_decode_failure_aborts() {
    let events = [Event::WindowLookup(true), Event::IconDecode(false)];
    let (phase, _) = drive(&events);
    assert_eq!(phase, Phase::Aborted(AbortReason::IconDecodeFailed));
}

#[test]
fn icon_assign_failure_aborts_after_one_attempt() {
    let events = [
        Event::WindowLookup(true),
        Event::IconDecode(true),
        Event::IconAssign(false),
        Event::LoopStart(true),
    ];
    let (phase, assigns) = drive(&events);
    assert_eq!(phase, Phase::Aborted(AbortReason::IconSetFailed));
    assert_eq!(assigns, 1);
}

#[test]
fn loop_start_failure_aborts() {
    let events = [
        Event::WindowLookup(true),
        Event::IconDecode(true),
        Event::IconAssign(true),
        Event::LoopStart(false),
    ];
    let (phase, _) = drive(&events);
    assert_eq!(phase, Phase::Aborted(AbortReason::EventLoopFailed));
}

#[test]
fn aborted_phase_absorbs_every_event() {
    let aborted = Phase::Aborted(AbortReason::MissingMainWindow);
    let all_events = [
        Event::WindowLookup(true),
        Event::WindowLookup(false),
        Event::IconDecode(true),
        Event::IconDecode(false),
        Event::IconAssign(true),
        Event::IconAssign(false),
        Event::LoopStart(true),
        Event::LoopStart(false),
    ];
    for e in all_events {
        assert_eq!(step(aborted, e), aborted);
    }
}

#[test]
fn mismatched_event_changes_nothing() {
    assert_eq!(step(Phase::Init, Event::IconDecode(true)), Phase::Init);
    assert_eq!(step(Phase::Init, Event::LoopStart(true)), Phase::Init);
    assert_eq!(step(Phase::WindowReady, Event::WindowLookup(true)), Phase::WindowReady);
    assert_eq!(step(Phase::IconReady, Event::IconDecode(false)), Phase::IconReady);
    assert_eq!(step(Phase::IconAssigned, Event::IconAssign(true)), Phase::IconAssigned);
    assert_eq!(step(Phase::EventLoop, Event::LoopStart(false)), Phase::EventLoop);
}

#[test]
fn never_a_second_assignment_whatever_follows() {
    let events = [
        Event::WindowLookup(true),
        Event::IconDecode(true),
        Event::IconAssign(true),
        Event::IconAssign(true),
        Event::IconAssign(true),
        Event::LoopStart(true),
    ];
    let (phase, assigns) = drive(&events);
    assert_eq!(phase, Phase::EventLoop);
    assert_eq!(assigns, 1);
}

#[test]
fn actions_follow_the_phases() {
    assert_eq!(next_action(Phase::Init, false), Action::LookupWindow);
    assert_eq!(next_action(Phase::WindowReady, false), Action::DecodeIcon);
    assert_eq!(next_action(Phase::IconReady, false), Action::AssignIcon);
    assert_eq!(next_action(Phase::IconAssigned, false), Action::RunLoop);
    assert_eq!(next_action(Phase::IconAssigned, true), Action::OpenDevtoolsAndRun);
    assert_eq!(next_action(Phase::EventLoop, false), Action::Idle);
    assert_eq!(next_action(Phase::EventLoop, true), Action::Idle);
    assert_eq!(
        next_action(Phase::Aborted(AbortReason::IconSetFailed), false),
        Action::Abort(AbortReason::IconSetFailed)
    );
}

#[test]
fn devtools_only_in_debug_builds() {
    assert_eq!(next_action(Phase::Init, true), next_action(Phase::Init, false));
    assert_eq!(next_action(Phase::WindowReady, true), next_action(Phase::WindowReady, false));
    assert_eq!(next_action(Phase::IconReady, true), next_action(Phase::IconReady, false));
    assert_ne!(next_action(Phase::IconAssigned, true), next_action(Phase::IconAssigned, false));
}

#[test]
fn abort_messages_are_descriptive() {
    assert_eq!(AbortReason::MissingMainWindow.message(), "main window not found");
    assert_eq!(AbortReason::IconDecodeFailed.message(), "Failed to decode icon PNG");
    assert_eq!(AbortReason::IconSetFailed.message(), "Failed to set window icon");
    assert_eq!(
        AbortReason::EventLoopFailed.message(),
        "error while running tauri application"
    );
}

#[test]
fn main_window_has_the_well_known_label() {
    assert_eq!(main_window_label(), "main");
}

#[test]
fn plugins_register_in_builder_order() {
    assert_eq!(
        plugin_order(),
        vec![
            Plugin::Opener,
            Plugin::Dialog,
            Plugin::Fs,
            Plugin::Notification,
            Plugin::Store,
            Plugin::ClipboardManager,
            Plugin::Shell,
        ]
    );
}
