use audio_network::config::{ConfigError, DEFAULT_FREQUENCY, DEFAULT_TICK_PERIOD};
use audio_network::network::{Action, AudioNetwork, Event, State, DEFAULT_CAPACITY};
use std::f64::consts::PI;

/// The signal: a cosine of the given frequency in hertz, at `elapsed` seconds.
fn signal(elapsed: f64, frequency: f64) -> f64 {
    (2.0 * PI * frequency * elapsed).cos()
}

/// Drives `net` for `ticks` ticks, as a producer would, with a simulated clock
/// that counts microseconds and moves only while the producer sleeps. Hands
/// back the clock's reading at the last tick, in seconds.
fn drive(net: &mut AudioNetwork, ticks: usize) -> f64 {
    let mut clock: u64 = 0;
    let mut last = 0.0;
    let mut done = 0;
    let mut action = net.advance(Event::Start);
    while done < ticks {
        match action {
            Action::Compute { frequency } => {
                let elapsed = clock as f64 / 1e6;
                let value = signal(elapsed, f64::from_bits(frequency));
                action = net.advance(Event::Sample { time: elapsed.to_bits(), value: value.to_bits() });
                last = elapsed;
                done += 1;
            }
            Action::Sleep { period } => {
                clock += period;
                action = net.advance(Event::Wake);
            }
            Action::Halt => panic!("the producer halted after {} ticks", done),
        }
    }
    last
}

#[test]
fn new_network_is_idle_and_zeroed() {
    let net = AudioNetwork::new();
    assert_eq!(DEFAULT_CAPACITY, 10000);
    assert_eq!(net.state(), State::Idle);
    assert_eq!(net.capacity(), 10000);
    assert_eq!(net.cursor(), 0);
    assert_eq!(net.get_frequency(), DEFAULT_FREQUENCY);
    assert_eq!(net.get_tick_period(), DEFAULT_TICK_PERIOD);
    assert_eq!(net.read_array(), vec![0u64; 10000]);
    assert_eq!(net.snapshot(), (vec![0u64; 10000], vec![0u64; 10000]));
}

#[test]
fn network_of_no_slots_is_refused() {
    assert!(AudioNetwork::with_capacity(0).is_none());
    let net = AudioNetwork::with_capacity(3).unwrap();
    assert_eq!(net.capacity(), 3);
    assert_eq!(net.state(), State::Idle);
    assert_eq!(net.snapshot(), (vec![0, 0, 0], vec![0, 0, 0]));
}

#[test]
fn state_transitions() {
    assert_eq!(State::Idle.start(), State::Running);
    assert_eq!(State::Running.start(), State::Running);
    assert_eq!(State::Stopped.start(), State::Stopped);
    assert!(State::Running.is_running());
    assert!(!State::Idle.is_running());
    assert!(!State::Stopped.is_running());

    let mut net = AudioNetwork::with_capacity(2).unwrap();
    net.start();
    assert_eq!(net.state(), State::Running);
    net.start();
    assert_eq!(net.state(), State::Running);
    net.stop();
    assert_eq!(net.state(), State::Stopped);
    net.start();
    assert_eq!(net.state(), State::Stopped);
    net.stop();
    assert_eq!(net.state(), State::Stopped);

    let mut idle = AudioNetwork::with_capacity(2).unwrap();
    idle.stop();
    assert_eq!(idle.state(), State::Stopped);
}

#[test]
fn idle_network_does_not_write() {
    let mut net = AudioNetwork::with_capacity(4).unwrap();
    assert!(!net.write_array(1, 2));
    assert_eq!(net.cursor(), 0);
    assert_eq!(net.snapshot(), (vec![0; 4], vec![0; 4]));
    assert_eq!(net.advance(Event::Sample { time: 1, value: 2 }), Action::Halt);
    assert_eq!(net.advance(Event::Wake), Action::Halt);
    assert_eq!(net.state(), State::Idle);
    assert_eq!(net.snapshot(), (vec![0; 4], vec![0; 4]));
}

#[test]
fn running_network_writes_each_sample() {
    let mut net = AudioNetwork::with_capacity(3).unwrap();
    net.start();
    assert!(net.write_array(10, 11));
    assert_eq!(net.cursor(), 1);
    assert!(net.write_array(20, 21));
    assert!(net.write_array(30, 31));
    assert_eq!(net.cursor(), 0);
    assert_eq!(net.snapshot(), (vec![30, 10, 20], vec![31, 11, 21]));
    assert_eq!(net.read_array(), vec![31, 11, 21]);
    assert!(net.write_array(40, 41));
    assert_eq!(net.snapshot(), (vec![30, 40, 20], vec![31, 41, 21]));
    assert_eq!(net.read_array(), net.snapshot().1);
}

#[test]
fn tick_cycle_of_events_and_actions() {
    let mut net = AudioNetwork::with_capacity(4).unwrap();
    assert_eq!(net.advance(Event::Start), Action::Compute { frequency: 50.0f64.to_bits() });
    assert_eq!(net.state(), State::Running);
    assert_eq!(net.advance(Event::Sample { time: 5, value: 6 }), Action::Sleep { period: 50 });
    assert_eq!(net.cursor(), 1);
    assert_eq!(net.advance(Event::Wake), Action::Compute { frequency: 50.0f64.to_bits() });
    assert_eq!(net.cursor(), 1);
    assert_eq!(net.advance(Event::Start), Action::Compute { frequency: 50.0f64.to_bits() });
    assert_eq!(net.advance(Event::Stop), Action::Halt);
    assert_eq!(net.state(), State::Stopped);
    assert_eq!(net.advance(Event::Start), Action::Halt);
    assert_eq!(net.advance(Event::Wake), Action::Halt);
    assert_eq!(net.advance(Event::Sample { time: 7, value: 8 }), Action::Halt);
    assert_eq!(net.advance(Event::Stop), Action::Halt);
    assert_eq!(net.state(), State::Stopped);
    assert_eq!(net.snapshot(), (vec![0, 5, 0, 0], vec![0, 6, 0, 0]));
}

#[test]
fn reconfiguration_shows_at_the_next_tick() {
    let mut net = AudioNetwork::with_capacity(4).unwrap();
    assert_eq!(net.advance(Event::Start), Action::Compute { frequency: DEFAULT_FREQUENCY });
    assert_eq!(net.set_frequency(2.0f64.to_bits()), Ok(()));
    assert_eq!(net.set_tick_period(7), Ok(()));
    assert_eq!(net.state(), State::Running);
    assert_eq!(net.cursor(), 0);
    assert_eq!(net.advance(Event::Sample { time: 1, value: 1 }), Action::Sleep { period: 7 });
    assert_eq!(net.advance(Event::Wake), Action::Compute { frequency: 2.0f64.to_bits() });
}

#[test]
fn config_round_trip_on_the_network() {
    let mut net = AudioNetwork::new();
    assert_eq!(net.set_frequency(123.5f64.to_bits()), Ok(()));
    assert_eq!(f64::from_bits(net.get_frequency()), 123.5);
    assert_eq!(net.set_frequency((-123.5f64).to_bits()), Err(ConfigError::InvalidConfig));
    assert_eq!(f64::from_bits(net.get_frequency()), 123.5);
    assert_eq!(net.set_tick_period(999), Ok(()));
    assert_eq!(net.get_tick_period(), 999);
    assert_eq!(net.set_tick_period(0), Err(ConfigError::InvalidConfig));
    assert_eq!(net.get_tick_period(), 999);
    assert_eq!(f64::from_bits(net.get_frequency()), 123.5);
    assert_eq!(net.state(), State::Idle);
    assert_eq!(net.cursor(), 0);
}

#[test]
fn one_hertz_after_capacity_ticks() {
    let mut net = AudioNetwork::new();
    assert_eq!(net.set_frequency(1.0f64.to_bits()), Ok(()));
    assert_eq!(net.set_tick_period(1000), Ok(()));
    let capacity = net.capacity();
    let last = drive(&mut net, capacity);
    // The clock moved on by one period between two ticks.
    assert_eq!(last, (capacity as f64 - 1.0) * 1000.0 / 1e6);
    let cursor = net.cursor();
    assert_eq!(cursor, 0);
    let (times, values) = net.snapshot();
    assert_eq!(f64::from_bits(times[cursor]), last);
    let expected = (2.0 * PI * 1.0 * last).cos();
    assert!((f64::from_bits(values[cursor]) - expected).abs() < 1e-9);
    // Every slot holds the signal at its own time: the window is full.
    for slot in 0..capacity {
        let elapsed = f64::from_bits(times[slot]);
        assert!((f64::from_bits(values[slot]) - signal(elapsed, 1.0)).abs() < 1e-9);
    }
    // At one hertz the signal is back at its peak after every whole second. The
    // tick at one second is the 1001st, which went to slot 1001.
    assert_eq!(f64::from_bits(times[1001]), 1.0);
    assert!((f64::from_bits(values[1001]) - 1.0).abs() < 1e-9);
    assert_eq!(f64::from_bits(times[501]), 0.5);
    assert!((f64::from_bits(values[501]) + 1.0).abs() < 1e-9);
}

#[test]
fn invalid_frequency_is_reported_and_generation_goes_on() {
    let mut net = AudioNetwork::with_capacity(8).unwrap();
    assert_eq!(net.set_frequency(4.0f64.to_bits()), Ok(()));
    assert_eq!(net.advance(Event::Start), Action::Compute { frequency: 4.0f64.to_bits() });
    assert_eq!(net.advance(Event::Sample { time: 1, value: 2 }), Action::Sleep { period: 50 });
    for invalid in [0.0f64, -0.0, -4.0, f64::NAN] {
        assert_eq!(net.set_frequency(invalid.to_bits()), Err(ConfigError::InvalidConfig));
        assert_eq!(f64::from_bits(net.get_frequency()), 4.0);
        assert_eq!(net.state(), State::Running);
        assert_eq!(net.advance(Event::Wake), Action::Compute { frequency: 4.0f64.to_bits() });
        let before = net.cursor();
        assert_eq!(net.advance(Event::Sample { time: 3, value: 4 }), Action::Sleep { period: 50 });
        assert_eq!(net.cursor(), (before + 1) % 8);
    }
    assert_eq!(net.set_tick_period(0), Err(ConfigError::InvalidConfig));
    assert_eq!(net.advance(Event::Sample { time: 5, value: 6 }), Action::Sleep { period: 50 });
}

#[test]
fn no_writes_after_stop() {
    let mut net = AudioNetwork::with_capacity(5).unwrap();
    net.start();
    assert!(net.write_array(1, 2));
    assert!(net.write_array(3, 4));
    net.stop();
    let stopped = net.snapshot();
    let cursor = net.cursor();
    for n in 0..20 {
        assert!(!net.write_array(100 + n, 200 + n));
        assert_eq!(net.advance(Event::Sample { time: n, value: n }), Action::Halt);
        assert_eq!(net.advance(Event::Wake), Action::Halt);
        assert_eq!(net.advance(Event::Start), Action::Halt);
    }
    assert_eq!(net.snapshot(), stopped);
    assert_eq!(net.cursor(), cursor);
    assert_eq!(net.state(), State::Stopped);
    assert_eq!(stopped, (vec![0, 1, 3, 0, 0], vec![0, 2, 4, 0, 0]));
}

#[test]
fn stop_during_the_sleep_halts_at_wake() {
    let mut net = AudioNetwork::with_capacity(5).unwrap();
    assert_eq!(net.advance(Event::Start), Action::Compute { frequency: DEFAULT_FREQUENCY });
    assert_eq!(net.advance(Event::Sample { time: 1, value: 2 }), Action::Sleep { period: 50 });
    net.stop();
    assert_eq!(net.advance(Event::Wake), Action::Halt);
    assert_eq!(net.cursor(), 1);
}

#[test]
fn driven_network_holds_the_last_window() {
    let mut net = AudioNetwork::with_capacity(16).unwrap();
    assert_eq!(net.set_tick_period(250), Ok(()));
    let last = drive(&mut net, 40);
    assert_eq!(last, 39.0 * 250.0 / 1e6);
    let cursor = net.cursor();
    assert_eq!(cursor, 40 % 16);
    let (times, values) = net.snapshot();
    for age in 0..16usize {
        let slot = (cursor + 16 - age) % 16;
        let elapsed = (39 - age) as f64 * 250.0 / 1e6;
        assert_eq!(f64::from_bits(times[slot]), elapsed);
        assert_eq!(f64::from_bits(values[slot]), signal(elapsed, 50.0));
    }
}
