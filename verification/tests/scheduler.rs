use framepace::geometry::ORBIT_SCALE;
use framepace::pool::BUFFER_COUNT;
use framepace::scheduler::{Action, Event, FrameScheduler, KEY_EXIT, KEY_TOGGLE_MODE};

const WHITE: u32 = 0xFFFFFFFF;

fn configured_scheduler(pacing_available: bool) -> FrameScheduler {
    let mut scheduler = FrameScheduler::new(BUFFER_COUNT, WHITE, pacing_available, 0);
    let action = scheduler.handle_event(Event::WindowResized { width: 800, height: 600 });
    assert!(matches!(action, Action::Nothing));
    scheduler
}

#[test]
fn render_before_configuration_is_a_noop() {
    let mut scheduler = FrameScheduler::new(BUFFER_COUNT, WHITE, true, 0);
    assert!(scheduler.render_step(1, 0, 0).is_none());
    assert!(scheduler.render_step(2, ORBIT_SCALE, ORBIT_SCALE).is_none());
    // Nothing was consumed: after configuration the first render still
    // gets the first slot.
    scheduler.handle_event(Event::WindowResized { width: 800, height: 600 });
    let commands = scheduler.render_step(3, 0, 0).unwrap();
    assert_eq!(commands.buffer_index, 0);
}

#[test]
fn configure_ack_carries_the_serial() {
    let mut scheduler = FrameScheduler::new(BUFFER_COUNT, WHITE, true, 0);
    let action = scheduler.handle_event(Event::SurfaceConfigured { serial: 41 });
    assert!(matches!(action, Action::AckConfigureThenRender { serial: 41 }));
}

#[test]
fn drain_consumes_every_free_buffer_then_declines() {
    let mut scheduler = configured_scheduler(true);
    for expected in 0..3 {
        let commands = scheduler.render_step(1, 0, 0).unwrap();
        assert_eq!(commands.buffer_index, expected);
        assert_eq!(commands.overlay_width, 160);
        assert_eq!(commands.overlay_height, 120);
    }
    assert!(scheduler.render_step(1, 0, 0).is_none());
}

#[test]
fn five_releases_produce_five_renders_one_slot_each() {
    let mut scheduler = configured_scheduler(true);
    // Drain the initial renders until every buffer is in flight.
    let mut in_flight = Vec::new();
    while let Some(commands) = scheduler.render_step(1, 0, 0) {
        in_flight.push(commands.buffer_index);
    }
    assert_eq!(in_flight, vec![0, 1, 2]);

    let mut render_attempts = 0;
    for release in 0..5 {
        let released = release % 3;
        let action = scheduler.handle_event(Event::BufferReleased { index: released });
        assert!(matches!(action, Action::Render));
        // Exactly one render per release: it reuses the released slot,
        // and the next step finds all three slots in use again.
        let commands = scheduler.render_step(1, 0, 0).unwrap();
        assert_eq!(commands.buffer_index, released);
        render_attempts += 1;
        assert!(scheduler.render_step(1, 0, 0).is_none());
    }
    assert_eq!(render_attempts, 5);
}

#[test]
fn release_of_unknown_index_is_ignored() {
    let mut scheduler = configured_scheduler(true);
    let action = scheduler.handle_event(Event::BufferReleased { index: 3 });
    assert!(matches!(action, Action::Nothing));
}

#[test]
fn fifo_without_the_capability_never_waits() {
    let mut scheduler = configured_scheduler(false);
    let commands = scheduler.render_step(1, 0, 0).unwrap();
    assert!(!commands.pace);
    assert!(scheduler.policy.status_text().contains("(unavailable)"));
}

#[test]
fn fifo_with_the_capability_waits_and_mailbox_does_not() {
    let mut scheduler = configured_scheduler(true);
    let commands = scheduler.render_step(1, 0, 0).unwrap();
    assert!(commands.pace);

    let action = scheduler.handle_event(Event::Key { code: KEY_TOGGLE_MODE, pressed: true });
    assert!(matches!(action, Action::AnnounceMode));
    assert_eq!(scheduler.policy.status_text(), "mailbox");
    let commands = scheduler.render_step(2, 0, 0).unwrap();
    assert!(!commands.pace);
}

#[test]
fn first_render_reports_and_later_windows_report_floor() {
    let mut scheduler = configured_scheduler(true);
    // The clock started at 0, so a frame at 1 closes the empty window.
    let commands = scheduler.render_step(1, 0, 0).unwrap();
    assert_eq!(commands.fps_report, Some(0));
    // Two more frames inside the new window stay silent.
    for _ in 0..2 {
        let commands = scheduler.render_step(2, 0, 0).unwrap();
        assert_eq!(commands.fps_report, None);
    }
    // Free a slot and pass the window's end: 3 frames, floor(3 / 3) = 1.
    scheduler.handle_event(Event::BufferReleased { index: 0 });
    let commands = scheduler.render_step(3002, 0, 0).unwrap();
    assert_eq!(commands.fps_report, Some(1));
}

#[test]
fn orbit_commands_follow_the_fractions() {
    let mut scheduler = configured_scheduler(true);
    let commands = scheduler.render_step(1, ORBIT_SCALE, ORBIT_SCALE / 2).unwrap();
    assert_eq!(commands.overlay_x, 640);
    assert_eq!(commands.overlay_y, 240);
}

#[test]
fn close_request_stops_the_loop() {
    let mut scheduler = configured_scheduler(true);
    assert!(scheduler.running);
    let action = scheduler.handle_event(Event::CloseRequested);
    assert!(matches!(action, Action::Nothing));
    assert!(!scheduler.running);
}

#[test]
fn escape_stops_the_loop() {
    let mut scheduler = configured_scheduler(true);
    let action = scheduler.handle_event(Event::Key { code: KEY_EXIT, pressed: true });
    assert!(matches!(action, Action::Nothing));
    assert!(!scheduler.running);
}

#[test]
fn key_releases_and_unmapped_keys_are_ignored() {
    let mut scheduler = configured_scheduler(true);
    let action = scheduler.handle_event(Event::Key { code: KEY_EXIT, pressed: false });
    assert!(matches!(action, Action::Nothing));
    assert!(scheduler.running);
    let action = scheduler.handle_event(Event::Key { code: 30, pressed: true });
    assert!(matches!(action, Action::Nothing));
    assert!(scheduler.running);
}

#[test]
fn ping_is_answered_with_the_same_serial() {
    let mut scheduler = configured_scheduler(true);
    let action = scheduler.handle_event(Event::Ping { serial: 77 });
    assert!(matches!(action, Action::Pong { serial: 77 }));
}

#[test]
fn irrelevant_events_change_nothing() {
    let mut scheduler = configured_scheduler(true);
    let action = scheduler.handle_event(Event::Irrelevant);
    assert!(matches!(action, Action::Nothing));
    assert!(scheduler.running);
    assert_eq!(scheduler.policy.status_text(), "fifo");
}
