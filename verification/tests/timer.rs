use virtual_mcu::event::SystemEvent;
use virtual_mcu::mcu::{TimerAction, VirtualMCU, DEFAULT_INTERRUPT_EVERY, DEFAULT_MAX_TICKS};

/// Runs the timer with every send delivered and collects what it sends, with
/// a flag that says whether the send waits for a beat.
fn run_delivered(mut mcu: VirtualMCU) -> Vec<(bool, SystemEvent)> {
    let mut sent = Vec::new();
    for _ in 0..10_000 {
        match mcu.pending() {
            TimerAction::AwaitBeatThenSend(event) => sent.push((true, event)),
            TimerAction::Send(event) => sent.push((false, event)),
            TimerAction::Finished => return sent,
        }
        mcu.advance(true);
    }
    panic!("the timer did not finish");
}

#[test]
fn five_ticks_then_stop() {
    let mcu = VirtualMCU::new(200).with_max_ticks(5).with_interrupt_every(0);
    let sent = run_delivered(mcu);
    let expected = vec![
        (true, SystemEvent::Tick(1)),
        (true, SystemEvent::Tick(2)),
        (true, SystemEvent::Tick(3)),
        (true, SystemEvent::Tick(4)),
        (true, SystemEvent::Tick(5)),
        (false, SystemEvent::Stop),
    ];
    assert_eq!(sent, expected);
}

#[test]
fn zero_ticks_yields_a_single_stop() {
    let mcu = VirtualMCU::new(200).with_max_ticks(0);
    let sent = run_delivered(mcu);
    assert_eq!(sent, vec![(false, SystemEvent::Stop)]);
}

#[test]
fn one_tick_then_stop() {
    let mcu = VirtualMCU::new(1).with_max_ticks(1).with_interrupt_every(0);
    let sent = run_delivered(mcu);
    assert_eq!(sent, vec![(true, SystemEvent::Tick(1)), (false, SystemEvent::Stop)]);
}

#[test]
fn default_timer_stops_after_twenty_ticks_with_coupled_interrupts() {
    assert_eq!(DEFAULT_MAX_TICKS, 20);
    assert_eq!(DEFAULT_INTERRUPT_EVERY, 7);
    let sent = run_delivered(VirtualMCU::new(100));
    let mut expected = Vec::new();
    for n in 1..=20u64 {
        expected.push((true, SystemEvent::Tick(n)));
        if n == 7 || n == 14 {
            expected.push((false, SystemEvent::Interrupt("UART_RX".to_string())));
        }
    }
    expected.push((false, SystemEvent::Stop));
    assert_eq!(sent, expected);
}

#[test]
fn coupled_interrupt_on_the_last_tick_comes_before_stop() {
    let mcu = VirtualMCU::new(10).with_max_ticks(4).with_interrupt_every(2);
    let sent: Vec<SystemEvent> = run_delivered(mcu).into_iter().map(|(_, e)| e).collect();
    let irq = || SystemEvent::Interrupt("UART_RX".to_string());
    assert_eq!(
        sent,
        vec![
            SystemEvent::Tick(1),
            SystemEvent::Tick(2),
            irq(),
            SystemEvent::Tick(3),
            SystemEvent::Tick(4),
            irq(),
            SystemEvent::Stop,
        ]
    );
}

#[test]
fn tick_payloads_are_one_to_n_in_order_followed_by_one_stop() {
    for n in [0u64, 1, 2, 7, 50] {
        for cadence in [0u64, 1, 3, 7] {
            let mcu = VirtualMCU::new(5).with_max_ticks(n).with_interrupt_every(cadence);
            let sent: Vec<SystemEvent> = run_delivered(mcu).into_iter().map(|(_, e)| e).collect();
            let ticks: Vec<u64> = sent
                .iter()
                .filter_map(|e| match e {
                    SystemEvent::Tick(k) => Some(*k),
                    _ => None,
                })
                .collect();
            assert_eq!(ticks, (1..=n).collect::<Vec<u64>>());
            let stops = sent.iter().filter(|e| e.is_stop()).count();
            assert_eq!(stops, 1);
            assert_eq!(sent.last(), Some(&SystemEvent::Stop));
            let interrupts = sent.len() - ticks.len() - 1;
            let expected = if cadence == 0 { 0 } else { (n / cadence) as usize };
            assert_eq!(interrupts, expected);
        }
    }
}

#[test]
fn refused_tick_ends_the_timer_at_once() {
    let mut mcu = VirtualMCU::new(200).with_max_ticks(5).with_interrupt_every(0);
    mcu.advance(true);
    mcu.advance(true);
    assert_eq!(mcu.tick_count(), 2);
    assert!(!mcu.is_done());
    mcu.advance(false);
    assert!(mcu.is_done());
    assert_eq!(mcu.tick_count(), 2);
    assert!(matches!(mcu.pending(), TimerAction::Finished));
    mcu.advance(true);
    assert!(mcu.is_done());
    assert!(matches!(mcu.pending(), TimerAction::Finished));
}

#[test]
fn refused_coupled_interrupt_ends_the_timer() {
    let mut mcu = VirtualMCU::new(200).with_max_ticks(5).with_interrupt_every(1);
    mcu.advance(true);
    match mcu.pending() {
        TimerAction::Send(event) => {
            assert_eq!(event, SystemEvent::Interrupt("UART_RX".to_string()))
        }
        other => panic!("unexpected action {:?}", other),
    }
    mcu.advance(false);
    assert!(mcu.is_done());
}

#[test]
fn refused_stop_still_ends_the_timer() {
    let mut mcu = VirtualMCU::new(200).with_max_ticks(0);
    assert!(!mcu.is_done());
    mcu.advance(false);
    assert!(mcu.is_done());
}

#[test]
fn asking_twice_changes_nothing() {
    let mcu = VirtualMCU::new(200).with_max_ticks(3);
    for _ in 0..2 {
        match mcu.pending() {
            TimerAction::AwaitBeatThenSend(event) => assert_eq!(event, SystemEvent::Tick(1)),
            other => panic!("unexpected action {:?}", other),
        }
    }
    assert_eq!(mcu.tick_count(), 0);
}

#[test]
fn builders_keep_the_period_and_restart_the_timer() {
    let mut mcu = VirtualMCU::new(250);
    assert_eq!(mcu.tick_rate_ms(), 250);
    mcu.advance(true);
    assert_eq!(mcu.tick_count(), 1);
    let mcu = mcu.with_max_ticks(u64::MAX);
    assert_eq!(mcu.tick_rate_ms(), 250);
    assert_eq!(mcu.tick_count(), 0);
    let mcu = mcu.with_interrupt_every(u64::MAX);
    assert_eq!(mcu.tick_rate_ms(), 250);
    assert!(!mcu.is_done());
}
