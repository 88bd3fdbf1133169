use virtual_mcu::event::SystemEvent;
use virtual_mcu::monitor::{entry_line, Monitor, MonitorAction, MonitorInput, MonitorState, Report};

fn interrupt(label: &str) -> SystemEvent {
    SystemEvent::Interrupt(label.to_string())
}

fn entries(report: &Report) -> Vec<(&str, u64)> {
    report.interrupts.iter().map(|(l, c)| (l.as_str(), *c)).collect()
}

#[test]
fn new_state_has_seen_nothing() {
    let state = MonitorState::new();
    assert_eq!(state.tick_count(), 0);
    assert_eq!(state.count_of("UART_RX"), 0);
    let report = state.report();
    assert_eq!(report.tick_count, 0);
    assert!(report.interrupts.is_empty());
}

#[test]
fn ticks_and_interrupts_are_counted() {
    let mut state = MonitorState::new();
    state.observe(&SystemEvent::Tick(1));
    state.observe(&interrupt("b"));
    state.observe(&SystemEvent::Tick(2));
    state.observe(&interrupt("a"));
    state.observe(&interrupt("b"));
    state.observe(&SystemEvent::Tick(3));
    state.observe(&interrupt("b"));
    assert_eq!(state.tick_count(), 3);
    assert_eq!(state.count_of("a"), 1);
    assert_eq!(state.count_of("b"), 3);
    assert_eq!(state.count_of("c"), 0);
    let report = state.report();
    assert_eq!(report.tick_count, 3);
    assert_eq!(entries(&report), vec![("b", 3), ("a", 1)]);
}

#[test]
fn tick_payload_does_not_matter_to_the_count() {
    let mut state = MonitorState::new();
    state.observe(&SystemEvent::Tick(40));
    state.observe(&SystemEvent::Tick(40));
    state.observe(&SystemEvent::Tick(0));
    assert_eq!(state.tick_count(), 3);
}

#[test]
fn stop_changes_no_counter() {
    let mut state = MonitorState::new();
    state.observe(&SystemEvent::Tick(1));
    state.observe(&interrupt("x"));
    state.observe(&SystemEvent::Stop);
    assert_eq!(state.tick_count(), 1);
    assert_eq!(entries(&state.report()), vec![("x", 1)]);
}

#[test]
fn labels_are_told_apart_exactly() {
    let mut state = MonitorState::new();
    state.observe(&interrupt(""));
    state.observe(&interrupt("a"));
    state.observe(&interrupt("A"));
    state.observe(&interrupt("a "));
    state.observe(&interrupt(""));
    assert_eq!(state.count_of(""), 2);
    assert_eq!(state.count_of("a"), 1);
    assert_eq!(state.count_of("A"), 1);
    assert_eq!(state.count_of("a "), 1);
}

#[test]
fn every_event_leaves_room_at_the_start() {
    let state = MonitorState::new();
    assert!(state.can_observe(&SystemEvent::Tick(1)));
    assert!(state.can_observe(&interrupt("x")));
    assert!(state.can_observe(&SystemEvent::Stop));
    let monitor = Monitor::new();
    assert!(monitor.accepts(&MonitorInput::Event(SystemEvent::Tick(1))));
    assert!(monitor.accepts(&MonitorInput::ReportDue));
    assert!(monitor.accepts(&MonitorInput::Lagged(3)));
    assert!(monitor.accepts(&MonitorInput::Closed));
}

#[test]
fn reporting_twice_gives_the_same_report() {
    let mut monitor = Monitor::new();
    monitor.step(MonitorInput::Event(SystemEvent::Tick(1)));
    monitor.step(MonitorInput::Event(interrupt("UART_BYTE:1")));
    monitor.step(MonitorInput::Event(interrupt("GPIO_STATE:true")));
    monitor.step(MonitorInput::Event(interrupt("UART_BYTE:1")));
    let first = match monitor.step(MonitorInput::ReportDue) {
        MonitorAction::Interim(report) => report,
        other => panic!("unexpected action {:?}", other),
    };
    let second = match monitor.step(MonitorInput::ReportDue) {
        MonitorAction::Interim(report) => report,
        other => panic!("unexpected action {:?}", other),
    };
    assert_eq!(first.tick_count, 1);
    assert_eq!(first.tick_count, second.tick_count);
    assert_eq!(first.interrupts, second.interrupts);
    assert_eq!(entries(&first), vec![("UART_BYTE:1", 2), ("GPIO_STATE:true", 1)]);
    assert_eq!(first.lines(), second.lines());
    assert!(!monitor.is_finished());
    assert_eq!(monitor.state().tick_count(), 1);
}

#[test]
fn interim_report_does_not_reset_counters() {
    let mut monitor = Monitor::new();
    monitor.step(MonitorInput::Event(SystemEvent::Tick(1)));
    monitor.step(MonitorInput::ReportDue);
    monitor.step(MonitorInput::Event(SystemEvent::Tick(2)));
    match monitor.step(MonitorInput::ReportDue) {
        MonitorAction::Interim(report) => assert_eq!(report.tick_count, 2),
        other => panic!("unexpected action {:?}", other),
    }
}

#[test]
fn stop_yields_the_final_report_and_finishes() {
    let mut monitor = Monitor::new();
    for n in 1..=5u64 {
        assert!(matches!(
            monitor.step(MonitorInput::Event(SystemEvent::Tick(n))),
            MonitorAction::Continue
        ));
    }
    assert!(matches!(
        monitor.step(MonitorInput::Event(interrupt("UART_RX"))),
        MonitorAction::Continue
    ));
    match monitor.step(MonitorInput::Event(SystemEvent::Stop)) {
        MonitorAction::Final(report) => {
            assert_eq!(report.tick_count, 5);
            assert_eq!(entries(&report), vec![("UART_RX", 1)]);
        }
        other => panic!("unexpected action {:?}", other),
    }
    assert!(monitor.is_finished());
}

#[test]
fn immediate_stop_reports_zero_ticks() {
    let mut monitor = Monitor::new();
    match monitor.step(MonitorInput::Event(SystemEvent::Stop)) {
        MonitorAction::Final(report) => {
            assert_eq!(report.tick_count, 0);
            assert!(report.interrupts.is_empty());
            assert_eq!(
                report.lines(),
                vec![
                    "=== System Monitor Report ===".to_string(),
                    "Total ticks: 0".to_string(),
                    "==============================".to_string(),
                ]
            );
        }
        other => panic!("unexpected action {:?}", other),
    }
}

#[test]
fn closed_fan_out_flushes_a_report_and_finishes() {
    let mut monitor = Monitor::new();
    monitor.step(MonitorInput::Event(SystemEvent::Tick(1)));
    monitor.step(MonitorInput::Event(SystemEvent::Tick(2)));
    match monitor.step(MonitorInput::Closed) {
        MonitorAction::Final(report) => assert_eq!(report.tick_count, 2),
        other => panic!("unexpected action {:?}", other),
    }
    assert!(monitor.is_finished());
}

#[test]
fn lag_is_passed_on_and_tolerated() {
    let mut monitor = Monitor::new();
    monitor.step(MonitorInput::Event(SystemEvent::Tick(1)));
    match monitor.step(MonitorInput::Lagged(17)) {
        MonitorAction::Skipped(skipped) => assert_eq!(skipped, 17),
        other => panic!("unexpected action {:?}", other),
    }
    assert!(!monitor.is_finished());
    assert_eq!(monitor.state().tick_count(), 1);
    monitor.step(MonitorInput::Event(SystemEvent::Tick(19)));
    assert_eq!(monitor.state().tick_count(), 2);
}

#[test]
fn finished_monitor_ignores_its_input() {
    let mut monitor = Monitor::new();
    monitor.step(MonitorInput::Event(SystemEvent::Tick(1)));
    monitor.step(MonitorInput::Event(SystemEvent::Stop));
    assert!(matches!(
        monitor.step(MonitorInput::Event(SystemEvent::Tick(2))),
        MonitorAction::Halted
    ));
    assert!(matches!(monitor.step(MonitorInput::ReportDue), MonitorAction::Halted));
    assert!(matches!(monitor.step(MonitorInput::Lagged(1)), MonitorAction::Halted));
    assert!(matches!(monitor.step(MonitorInput::Closed), MonitorAction::Halted));
    assert!(matches!(
        monitor.step(MonitorInput::Event(interrupt("x"))),
        MonitorAction::Halted
    ));
    assert!(monitor.is_finished());
    assert_eq!(monitor.state().tick_count(), 1);
    assert_eq!(monitor.state().count_of("x"), 0);
    assert!(monitor.accepts(&MonitorInput::Event(SystemEvent::Tick(3))));
}

#[test]
fn report_lines_show_quoted_labels_and_counts() {
    let mut state = MonitorState::new();
    for n in 1..=12u64 {
        state.observe(&SystemEvent::Tick(n));
    }
    state.observe(&interrupt("UART_BYTE:1"));
    state.observe(&interrupt("say \"hi\"\n"));
    state.observe(&interrupt("UART_BYTE:1"));
    let lines = state.report().lines();
    assert_eq!(
        lines,
        vec![
            "=== System Monitor Report ===".to_string(),
            "Total ticks: 12".to_string(),
            "Peripheral \"UART_BYTE:1\": 2 events".to_string(),
            "Peripheral \"say \\\"hi\\\"\\n\": 1 events".to_string(),
            "==============================".to_string(),
        ]
    );
}

#[test]
fn entry_line_joins_label_and_count() {
    assert_eq!(entry_line("\"x\"", 0), "Peripheral \"x\": 0 events");
    assert_eq!(entry_line("", 1), "Peripheral : 1 events");
    assert_eq!(
        entry_line("GPIO", u64::MAX),
        "Peripheral GPIO: 18446744073709551615 events"
    );
}
