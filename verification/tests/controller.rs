use helix_anywhere::config::HotkeyConfig;
use helix_anywhere::controller::{
    HotkeyCommand, HotkeyController, ListenerLoop, LoopAction, LoopEvent, LoopPhase, Poll,
    RETRY_DELAY_MS, SERVICE_SLICE_MS,
};
use helix_anywhere::hotkey::TapDecision;
use helix_anywhere::modifiers::{FLAG_COMMAND, FLAG_CONTROL, FLAG_SHIFT};

fn chord(modifiers: &[&str], key: &str) -> HotkeyConfig {
    HotkeyConfig {
        modifiers: modifiers.iter().map(|m| m.to_string()).collect(),
        key: key.to_string(),
    }
}

fn listening(config: HotkeyConfig) -> ListenerLoop {
    let mut listener = ListenerLoop::start(config);
    let action = listener.step(LoopEvent::TapInstalled);
    assert_eq!(action, LoopAction::Service { millis: 100 });
    listener
}

#[test]
fn the_delays_are_one_second_and_a_tenth() {
    assert_eq!(RETRY_DELAY_MS, 1000);
    assert_eq!(SERVICE_SLICE_MS, 100);
}

#[test]
fn commands_come_out_in_the_order_in_which_they_went_in() {
    let mut controller = HotkeyController::new();
    assert_eq!(controller.try_recv(), Poll::Empty);
    controller.update_hotkey(chord(&["cmd"], "a"));
    controller.update_hotkey(chord(&["ctrl"], "b"));
    controller.stop();
    controller.update_hotkey(chord(&["alt"], "c"));
    assert_eq!(
        controller.try_recv(),
        Poll::Command(HotkeyCommand::Restart(chord(&["cmd"], "a")))
    );
    assert_eq!(
        controller.try_recv(),
        Poll::Command(HotkeyCommand::Restart(chord(&["ctrl"], "b")))
    );
    assert_eq!(controller.try_recv(), Poll::Command(HotkeyCommand::Stop));
    assert_eq!(
        controller.try_recv(),
        Poll::Command(HotkeyCommand::Restart(chord(&["alt"], "c")))
    );
    assert_eq!(controller.try_recv(), Poll::Empty);
    assert_eq!(controller.try_recv(), Poll::Empty);
}

#[test]
fn the_loop_installs_a_tap_for_the_first_chord() {
    let mut listener = ListenerLoop::start(chord(&["cmd", "shift"], "semicolon"));
    assert_eq!(
        listener.pending_action(),
        LoopAction::InstallTap { key_code: 0x29, modifiers: 0x0012_0000 }
    );
    assert_eq!(
        listener.phase(),
        LoopPhase::Installing { key_code: 0x29, modifiers: 0x0012_0000 }
    );
    assert_eq!(listener.on_event(true, 0x29, 0x0012_0000), TapDecision::PassThrough);
    assert_eq!(listener.step(LoopEvent::TapInstalled), LoopAction::Service { millis: 100 });
    assert_eq!(
        listener.phase(),
        LoopPhase::Listening { key_code: 0x29, modifiers: 0x0012_0000 }
    );
    assert_eq!(listener.on_event(true, 0x29, 0x0012_0000), TapDecision::Consume);
    assert_eq!(listener.config(), &chord(&["cmd", "shift"], "semicolon"));
}

#[test]
fn an_empty_poll_keeps_the_loop_listening() {
    let mut listener = listening(chord(&["cmd"], "e"));
    for _ in 0..5 {
        assert_eq!(
            listener.step(LoopEvent::Polled(Poll::Empty)),
            LoopAction::Service { millis: 100 }
        );
        assert_eq!(listener.on_event(true, 0x0E, FLAG_COMMAND), TapDecision::Consume);
    }
}

#[test]
fn restart_replaces_the_old_chord_by_the_new_one() {
    let old_key = 0x29;
    let old_modifiers = FLAG_COMMAND | FLAG_SHIFT;
    let new_key = 0x28;
    let new_modifiers = FLAG_CONTROL;
    let mut listener = listening(chord(&["cmd", "shift"], "semicolon"));
    let mut fired = 0;

    // The old chord is held down while the command arrives.
    if listener.on_event(true, old_key, old_modifiers) == TapDecision::Consume {
        fired += 1;
    }
    assert_eq!(fired, 1);
    let action = listener.step(LoopEvent::Polled(Poll::Command(HotkeyCommand::Restart(chord(
        &["ctrl"],
        "k",
    )))));
    assert_eq!(action, LoopAction::InstallTap { key_code: new_key, modifiers: new_modifiers });
    assert_eq!(listener.config(), &chord(&["ctrl"], "k"));

    // No tap is installed: nothing is consumed.
    assert_eq!(listener.on_event(true, old_key, old_modifiers), TapDecision::PassThrough);
    assert_eq!(listener.on_event(true, new_key, new_modifiers), TapDecision::PassThrough);

    assert_eq!(listener.step(LoopEvent::TapInstalled), LoopAction::Service { millis: 100 });
    assert_eq!(listener.on_event(true, old_key, old_modifiers), TapDecision::PassThrough);
    assert_eq!(fired, 1);
    let mut fired_new = 0;
    if listener.on_event(true, new_key, new_modifiers) == TapDecision::Consume {
        fired_new += 1;
    }
    assert_eq!(fired_new, 1);
}

#[test]
fn stop_ends_the_loop_at_the_poll_that_finds_it() {
    let mut listener = listening(chord(&["cmd"], "e"));
    assert_eq!(
        listener.step(LoopEvent::Polled(Poll::Command(HotkeyCommand::Stop))),
        LoopAction::Exit
    );
    assert_eq!(listener.phase(), LoopPhase::Stopped);
    assert_eq!(listener.on_event(true, 0x0E, FLAG_COMMAND), TapDecision::PassThrough);
}

#[test]
fn a_stopped_loop_stays_stopped() {
    let mut listener = listening(chord(&["cmd"], "e"));
    listener.step(LoopEvent::Polled(Poll::Command(HotkeyCommand::Stop)));
    assert_eq!(listener.step(LoopEvent::TapInstalled), LoopAction::Exit);
    assert_eq!(listener.step(LoopEvent::TapFailed), LoopAction::Exit);
    assert_eq!(listener.step(LoopEvent::Polled(Poll::Empty)), LoopAction::Exit);
    assert_eq!(
        listener.step(LoopEvent::Polled(Poll::Command(HotkeyCommand::Restart(chord(
            &["cmd"],
            "a"
        ))))),
        LoopAction::Exit
    );
    assert_eq!(listener.phase(), LoopPhase::Stopped);
    assert_eq!(listener.config(), &chord(&["cmd"], "e"));
}

#[test]
fn a_lost_controller_ends_the_loop() {
    let mut listener = listening(chord(&["cmd"], "e"));
    assert_eq!(listener.step(LoopEvent::Polled(Poll::Disconnected)), LoopAction::Exit);
    assert_eq!(listener.phase(), LoopPhase::Stopped);
}

/// Reports `looks` looks in a row that found no command, and gives the
/// waits that were asked for meanwhile, the one pending at the start
/// included and the action after the last look left out.
fn wait_out(listener: &mut ListenerLoop, looks: usize) -> Vec<u64> {
    let mut waits = Vec::new();
    for _ in 0..looks {
        match listener.pending_action() {
            LoopAction::Sleep { millis } => waits.push(millis),
            other => panic!("{:?} is no wait", other),
        }
        listener.step(LoopEvent::Polled(Poll::Empty));
    }
    waits
}

#[test]
fn an_unknown_key_makes_the_loop_back_off_in_slices() {
    let mut listener = ListenerLoop::start(chord(&["cmd"], "f13"));
    assert_eq!(listener.phase(), LoopPhase::Backoff { waited_ms: 0 });
    assert_eq!(listener.pending_action(), LoopAction::Sleep { millis: 100 });
    assert_eq!(listener.step(LoopEvent::Polled(Poll::Empty)), LoopAction::Sleep { millis: 100 });
    assert_eq!(listener.phase(), LoopPhase::Backoff { waited_ms: 100 });
    assert_eq!(listener.step(LoopEvent::Polled(Poll::Empty)), LoopAction::Sleep { millis: 100 });
    assert_eq!(listener.phase(), LoopPhase::Backoff { waited_ms: 200 });
    assert_eq!(listener.config(), &chord(&["cmd"], "f13"));
    assert_eq!(listener.on_event(true, 0x00, FLAG_COMMAND), TapDecision::PassThrough);
}

#[test]
fn an_unknown_key_is_tried_again_after_every_second() {
    let mut listener = ListenerLoop::start(chord(&["cmd"], "f13"));
    assert_eq!(wait_out(&mut listener, 9), vec![100; 9]);
    assert_eq!(listener.phase(), LoopPhase::Backoff { waited_ms: 900 });
    // The tenth look completes the second; the key is still unknown.
    assert_eq!(listener.step(LoopEvent::Polled(Poll::Empty)), LoopAction::Sleep { millis: 100 });
    assert_eq!(listener.phase(), LoopPhase::Backoff { waited_ms: 0 });
}

#[test]
fn no_wait_is_longer_than_a_slice() {
    let mut listener = ListenerLoop::start(chord(&["cmd"], "e"));
    let mut action = listener.step(LoopEvent::TapFailed);
    let mut waited = 0;
    for _ in 0..100 {
        action = match action {
            LoopAction::Sleep { millis } => {
                assert!(millis <= SERVICE_SLICE_MS);
                waited += millis;
                listener.step(LoopEvent::Polled(Poll::Empty))
            }
            LoopAction::InstallTap { .. } => {
                assert_eq!(waited, RETRY_DELAY_MS);
                waited = 0;
                listener.step(LoopEvent::TapFailed)
            }
            other => panic!("{:?} was not expected", other),
        };
    }
}

#[test]
fn stop_ends_a_loop_that_backs_off() {
    for looks in 0..10 {
        let mut listener = ListenerLoop::start(chord(&["cmd"], "f13"));
        wait_out(&mut listener, looks);
        assert_eq!(listener.pending_action(), LoopAction::Sleep { millis: 100 });
        assert_eq!(
            listener.step(LoopEvent::Polled(Poll::Command(HotkeyCommand::Stop))),
            LoopAction::Exit
        );
        assert_eq!(listener.phase(), LoopPhase::Stopped);
    }

    let mut listener = ListenerLoop::start(chord(&["cmd"], "e"));
    assert_eq!(listener.step(LoopEvent::TapFailed), LoopAction::Sleep { millis: 100 });
    assert_eq!(
        listener.step(LoopEvent::Polled(Poll::Command(HotkeyCommand::Stop))),
        LoopAction::Exit
    );
    assert_eq!(listener.phase(), LoopPhase::Stopped);
}

#[test]
fn a_lost_controller_ends_a_loop_that_backs_off() {
    let mut listener = ListenerLoop::start(chord(&["cmd"], "f13"));
    wait_out(&mut listener, 4);
    assert_eq!(listener.step(LoopEvent::Polled(Poll::Disconnected)), LoopAction::Exit);
    assert_eq!(listener.phase(), LoopPhase::Stopped);
}

#[test]
fn a_restart_is_read_while_the_loop_backs_off() {
    let mut listener = ListenerLoop::start(chord(&["cmd"], "f13"));
    wait_out(&mut listener, 3);
    assert_eq!(
        listener.step(LoopEvent::Polled(Poll::Command(HotkeyCommand::Restart(chord(
            &["ctrl"],
            "k"
        ))))),
        LoopAction::InstallTap { key_code: 0x28, modifiers: FLAG_CONTROL }
    );
    assert_eq!(listener.config(), &chord(&["ctrl"], "k"));
    assert_eq!(listener.step(LoopEvent::TapInstalled), LoopAction::Service { millis: 100 });
    assert_eq!(listener.on_event(true, 0x28, FLAG_CONTROL), TapDecision::Consume);

    let mut listener = ListenerLoop::start(chord(&["cmd"], "f13"));
    wait_out(&mut listener, 3);
    assert_eq!(
        listener.step(LoopEvent::Polled(Poll::Command(HotkeyCommand::Restart(chord(
            &["ctrl"],
            "f14"
        ))))),
        LoopAction::Sleep { millis: 100 }
    );
    assert_eq!(listener.phase(), LoopPhase::Backoff { waited_ms: 0 });
    assert_eq!(listener.config(), &chord(&["ctrl"], "f14"));
}

#[test]
fn a_tap_that_cannot_be_installed_is_tried_again_after_a_second() {
    let mut listener = ListenerLoop::start(chord(&["cmd"], "e"));
    assert_eq!(listener.step(LoopEvent::TapFailed), LoopAction::Sleep { millis: 100 });
    assert_eq!(listener.phase(), LoopPhase::Backoff { waited_ms: 0 });
    assert_eq!(wait_out(&mut listener, 9), vec![100; 9]);
    assert_eq!(
        listener.step(LoopEvent::Polled(Poll::Empty)),
        LoopAction::InstallTap { key_code: 0x0E, modifiers: FLAG_COMMAND }
    );
    assert_eq!(listener.step(LoopEvent::TapFailed), LoopAction::Sleep { millis: 100 });
    assert_eq!(wait_out(&mut listener, 9), vec![100; 9]);
    assert_eq!(
        listener.step(LoopEvent::Polled(Poll::Empty)),
        LoopAction::InstallTap { key_code: 0x0E, modifiers: FLAG_COMMAND }
    );
    assert_eq!(listener.step(LoopEvent::TapInstalled), LoopAction::Service { millis: 100 });
}

#[test]
fn a_restart_to_an_unknown_key_backs_off() {
    let mut listener = listening(chord(&["cmd"], "e"));
    assert_eq!(
        listener.step(LoopEvent::Polled(Poll::Command(HotkeyCommand::Restart(chord(
            &["cmd"],
            "nokey"
        ))))),
        LoopAction::Sleep { millis: 100 }
    );
    assert_eq!(listener.phase(), LoopPhase::Backoff { waited_ms: 0 });
    assert_eq!(listener.config(), &chord(&["cmd"], "nokey"));
    assert_eq!(listener.on_event(true, 0x0E, FLAG_COMMAND), TapDecision::PassThrough);
}

#[test]
fn a_report_that_was_not_asked_for_changes_nothing() {
    let mut listener = ListenerLoop::start(chord(&["cmd"], "e"));
    let install = LoopAction::InstallTap { key_code: 0x0E, modifiers: FLAG_COMMAND };
    assert_eq!(listener.step(LoopEvent::Polled(Poll::Empty)), install);
    assert_eq!(listener.step(LoopEvent::Polled(Poll::Disconnected)), install);
    assert_eq!(listener.step(LoopEvent::Polled(Poll::Command(HotkeyCommand::Stop))), install);
    assert_eq!(listener.step(LoopEvent::TapInstalled), LoopAction::Service { millis: 100 });
    assert_eq!(listener.step(LoopEvent::TapInstalled), LoopAction::Service { millis: 100 });
    assert_eq!(listener.step(LoopEvent::TapFailed), LoopAction::Service { millis: 100 });
    assert_eq!(listener.on_event(true, 0x0E, FLAG_COMMAND), TapDecision::Consume);
}

#[test]
fn the_controller_drives_the_loop() {
    let mut controller = HotkeyController::new();
    let mut listener = listening(chord(&["cmd", "shift"], "semicolon"));
    controller.update_hotkey(chord(&["cmd"], "e"));
    controller.stop();
    let mut actions = Vec::new();
    loop {
        let action = listener.step(LoopEvent::Polled(controller.try_recv()));
        actions.push(action);
        match action {
            LoopAction::InstallTap { .. } => actions.push(listener.step(LoopEvent::TapInstalled)),
            LoopAction::Exit => break,
            _ => {}
        }
    }
    assert_eq!(
        actions,
        vec![
            LoopAction::InstallTap { key_code: 0x0E, modifiers: FLAG_COMMAND },
            LoopAction::Service { millis: 100 },
            LoopAction::Exit,
        ]
    );
}

#[test]
fn the_controller_stops_a_loop_whose_tap_never_installs() {
    let mut controller = HotkeyController::new();
    let mut listener = ListenerLoop::start(chord(&["cmd"], "e"));
    let mut action = listener.pending_action();
    let mut installs = 0;
    let mut waits = 0;
    loop {
        action = match action {
            LoopAction::InstallTap { .. } => {
                installs += 1;
                listener.step(LoopEvent::TapFailed)
            }
            LoopAction::Sleep { millis } => {
                assert_eq!(millis, 100);
                waits += 1;
                if waits == 25 {
                    controller.stop();
                }
                listener.step(LoopEvent::Polled(controller.try_recv()))
            }
            LoopAction::Service { .. } => panic!("no tap was installed"),
            LoopAction::Exit => break,
        };
    }
    assert_eq!(installs, 3);
    assert_eq!(waits, 25);
    assert_eq!(listener.phase(), LoopPhase::Stopped);
}
