//! The generator: a sample ring, the configuration it is driven by, and the
//! life cycle of the producer that fills it.
//!
//! The generator does not read a clock, compute the signal or sleep. Whoever
//! drives it does that, and tells the generator what happened with an
//! [`Event`]; the generator answers with the [`Action`] to take next. One tick
//! of a running generator is: `Compute` (read the clock and compute the sample
//! of the signal at the frequency given), `Sample` (the generator stores it),
//! `Sleep` (suspend for the tick period), `Wake`, and so on until `Halt`.

use crate::buffer::{lemma_write_one_slot, Ring, SampleBuffer};
use crate::config::{is_positive, ConfigError, GenerationConfig, DEFAULT_FREQUENCY, DEFAULT_TICK_PERIOD};
use vstd::prelude::*;

verus! {

/// The number of slots of the ring that [`AudioNetwork::new`] makes.
pub const DEFAULT_CAPACITY: usize = 10000;

/// Where the producer stands in its life cycle.
#[derive(Clone, Copy, Debug, PartialEq, Eq, Structural)]
pub enum State {
    /// Made, not yet started: nothing is written.
    Idle,
    /// Started: every sample handed in is written.
    Running,
    /// Shut down for good: nothing is written any more.
    Stopped,
}

impl State {
    /// The state after a request to start: an idle producer runs, any other stays
    /// as it is.
    pub open spec fn started(self) -> State {
        if self == State::Idle {
            State::Running
        } else {
            self
        }
    }

    /// Computes [`State::started`].
    pub fn start(self) -> (r: State)
        ensures
            r == self.started(),
    {
        match self {
            State::Idle => State::Running,
            State::Running => State::Running,
            State::Stopped => State::Stopped,
        }
    }

    /// Whether samples are written in this state.
    pub fn is_running(self) -> (r: bool)
        ensures
            r == (self == State::Running),
    {
        match self {
            State::Running => true,
            _ => false,
        }
    }
}

/// What the driver reports to the generator.
#[derive(Clone, Copy, Debug, PartialEq, Eq, Structural)]
pub enum Event {
    /// The producer is asked to start.
    Start,
    /// The sleep between two ticks is over.
    Wake,
    /// The sample asked for was computed: the elapsed time and the signal's value.
    Sample { time: u64, value: u64 },
    /// The producer is asked to shut down.
    Stop,
}

/// What the generator asks the driver to do next.
#[derive(Clone, Copy, Debug, PartialEq, Eq, Structural)]
pub enum Action {
    /// Read the clock, compute the signal's sample at this frequency, and report
    /// both with [`Event::Sample`].
    Compute { frequency: u64 },
    /// Suspend for this many microseconds, then report [`Event::Wake`].
    Sleep { period: u64 },
    /// The producer is not running: leave the loop.
    Halt,
}

/// The mathematical content of a generator.
pub struct Network {
    /// The sample ring.
    pub ring: Ring,
    /// The frequency in force, as a bit pattern.
    pub frequency: u64,
    /// The tick period in force, in microseconds.
    pub tick_period: u64,
    /// The producer's state.
    pub state: State,
}

impl Network {
    /// The ring is well formed and both parameters are greater than zero.
    pub open spec fn wf(self) -> bool {
        &&& self.ring.wf()
        &&& is_positive(self.frequency)
        &&& self.tick_period > 0
    }

    /// A generator fresh from its constructor.
    pub open spec fn fresh(capacity: nat) -> Network {
        Network {
            ring: Ring::zeroed(capacity),
            frequency: DEFAULT_FREQUENCY,
            tick_period: DEFAULT_TICK_PERIOD,
            state: State::Idle,
        }
    }

    /// Starting takes an idle generator to `Running` and changes nothing else; a
    /// generator that runs or was stopped stays as it is.
    pub open spec fn start(self) -> Network {
        Network { state: self.state.started(), ..self }
    }

    /// Stopping takes any generator to `Stopped` and changes nothing else.
    pub open spec fn stop(self) -> Network {
        Network { state: State::Stopped, ..self }
    }

    /// A running generator writes the sample to its ring; any other leaves its
    /// ring alone.
    pub open spec fn write(self, time: u64, value: u64) -> Network {
        if self.state == State::Running {
            Network { ring: self.ring.write(time, value), ..self }
        } else {
            self
        }
    }

    /// The generator after an event.
    pub open spec fn next(self, event: Event) -> Network {
        match event {
            Event::Start => self.start(),
            Event::Wake => self,
            Event::Sample { time, value } => self.write(time, value),
            Event::Stop => self.stop(),
        }
    }

    /// The action that answers an event.
    pub open spec fn answer(self, event: Event) -> Action {
        match event {
            Event::Start | Event::Wake => if self.next(event).state == State::Running {
                Action::Compute { frequency: self.frequency }
            } else {
                Action::Halt
            },
            Event::Sample { time, value } => if self.state == State::Running {
                Action::Sleep { period: self.tick_period }
            } else {
                Action::Halt
            },
            Event::Stop => Action::Halt,
        }
    }

    /// The generator after a run of events, first to last.
    pub open spec fn run(self, events: Seq<Event>) -> Network
        decreases events.len(),
    {
        if events.len() == 0 {
            self
        } else {
            self.run(events.drop_last()).next(events.last())
        }
    }

    /// The samples that a run of events writes to the ring, in the order of
    /// writing: those of the `Sample` events that find the generator running.
    pub open spec fn written(self, events: Seq<Event>) -> Seq<(u64, u64)>
        decreases events.len(),
    {
        if events.len() == 0 {
            Seq::empty()
        } else {
            let earlier = self.written(events.drop_last());
            match events.last() {
                Event::Sample { time, value } => if self.run(events.drop_last()).state
                    == State::Running {
                    earlier.push((time, value))
                } else {
                    earlier
                },
                _ => earlier,
            }
        }
    }
}

/// A signal generator: it owns the sample ring and is its only writer.
pub struct AudioNetwork {
    buffer: SampleBuffer,
    config: GenerationConfig,
    state: State,
}

impl View for AudioNetwork {
    type V = Network;

    closed spec fn view(&self) -> Network {
        Network {
            ring: self.buffer@,
            frequency: self.config.frequency(),
            tick_period: self.config.tick_period(),
            state: self.state,
        }
    }
}

impl AudioNetwork {
    /// Every generator is well formed.
    #[verifier::type_invariant]
    pub open spec fn wf(&self) -> bool {
        self@.wf()
    }

    /// An idle generator with a ring of [`DEFAULT_CAPACITY`] zeroed slots and
    /// the default configuration.
    pub fn new() -> (r: AudioNetwork)
        ensures
            r.wf(),
            r@ == Network::fresh(DEFAULT_CAPACITY as nat),
    {
        let buffer = SampleBuffer::new(DEFAULT_CAPACITY).unwrap();
        AudioNetwork { buffer, config: GenerationConfig::new(), state: State::Idle }
    }

    /// An idle generator with a ring of `capacity` zeroed slots and the default
    /// configuration, or `None` when `capacity` is zero.
    pub fn with_capacity(capacity: usize) -> (r: Option<AudioNetwork>)
        ensures
            r is None <==> capacity == 0,
            r matches Some(n) ==> n.wf() && n@ == Network::fresh(capacity as nat),
    {
        match SampleBuffer::new(capacity) {
            Some(buffer) => Some(
                AudioNetwork { buffer, config: GenerationConfig::new(), state: State::Idle },
            ),
            None => None,
        }
    }

    /// Starts the producer: see [`Network::start`].
    pub fn start(&mut self)
        ensures
            final(self).wf(),
            final(self)@ == old(self)@.start(),
    {
        proof {
            use_type_invariant(&*self);
        }
        self.state = self.state.start();
    }

    /// Shuts the producer down: see [`Network::stop`]. From now on nothing is
    /// written to the ring.
    pub fn stop(&mut self)
        ensures
            final(self).wf(),
            final(self)@ == old(self)@.stop(),
    {
        proof {
            use_type_invariant(&*self);
        }
        self.state = State::Stopped;
    }

    /// The producer's state.
    pub fn state(&self) -> (r: State)
        ensures
            r == self@.state,
    {
        self.state
    }

    /// Hands the generator one sample: the elapsed time and the signal's value at
    /// that time. A running generator stores it in its ring and answers `true`;
    /// an idle or stopped one leaves its ring as it is and answers `false`.
    pub fn write_array(&mut self, time: u64, value: u64) -> (written: bool)
        ensures
            final(self).wf(),
            final(self)@ == old(self)@.write(time, value),
            written == (old(self)@.state == State::Running),
    {
        proof {
            use_type_invariant(&*self);
        }
        if self.state.is_running() {
            self.buffer.write(time, value);
            true
        } else {
            false
        }
    }

    /// A copy of the value half of the ring, slot by slot.
    pub fn read_array(&self) -> (r: Vec<u64>)
        ensures
            r@ == self@.ring.values,
    {
        self.buffer.snapshot().1
    }

    /// A copy of both halves of the ring, the time words and the value words,
    /// taken at one moment: slot `i` of the two results is one record.
    pub fn snapshot(&self) -> (r: (Vec<u64>, Vec<u64>))
        ensures
            r.0@ == self@.ring.times,
            r.1@ == self@.ring.values,
    {
        self.buffer.snapshot()
    }

    /// The slot written last.
    pub fn cursor(&self) -> (r: usize)
        ensures
            r == self@.ring.cursor,
    {
        self.buffer.cursor()
    }

    /// The number of slots of the ring.
    pub fn capacity(&self) -> (r: usize)
        ensures
            r == self@.ring.capacity(),
    {
        self.buffer.capacity()
    }

    /// Puts `frequency` in force from the next tick on if it is greater than
    /// zero; otherwise reports `InvalidConfig` and changes nothing. Either way
    /// the ring, the tick period and the producer's state stay as they are.
    pub fn set_frequency(&mut self, frequency: u64) -> (r: Result<(), ConfigError>)
        ensures
            is_positive(frequency) ==> r is Ok && final(self)@ == (Network {
                frequency,
                ..old(self)@
            }),
            !is_positive(frequency) ==> r == Err::<(), ConfigError>(ConfigError::InvalidConfig)
                && final(self)@ == old(self)@,
            final(self).wf(),
    {
        proof {
            use_type_invariant(&*self);
        }
        self.config.set_frequency(frequency)
    }

    /// Puts `tick_period` in force from the next tick on if it is greater than
    /// zero; otherwise reports `InvalidConfig` and changes nothing. Either way
    /// the ring, the frequency and the producer's state stay as they are.
    pub fn set_tick_period(&mut self, tick_period: u64) -> (r: Result<(), ConfigError>)
        ensures
            tick_period > 0 ==> r is Ok && final(self)@ == (Network {
                tick_period,
                ..old(self)@
            }),
            tick_period == 0 ==> r == Err::<(), ConfigError>(ConfigError::InvalidConfig)
                && final(self)@ == old(self)@,
            final(self).wf(),
    {
        proof {
            use_type_invariant(&*self);
        }
        self.config.set_tick_period(tick_period)
    }

    /// The frequency in force.
    pub fn get_frequency(&self) -> (r: u64)
        ensures
            r == self@.frequency,
    {
        self.config.get_frequency()
    }

    /// The tick period in force.
    pub fn get_tick_period(&self) -> (r: u64)
        ensures
            r == self@.tick_period,
    {
        self.config.get_tick_period()
    }

    /// Takes one event and answers with the action to take next: see
    /// [`Network::next`] for what the event does to the generator and
    /// [`Network::answer`] for the action.
    pub fn advance(&mut self, event: Event) -> (action: Action)
        ensures
            final(self).wf(),
            final(self)@ == old(self)@.next(event),
            action == old(self)@.answer(event),
    {
        proof {
            use_type_invariant(&*self);
        }
        match event {
            Event::Start => {
                self.start();
                self.proceed()
            },
            Event::Wake => self.proceed(),
            Event::Sample { time, value } => {
                if self.write_array(time, value) {
                    Action::Sleep { period: self.config.get_tick_period() }
                } else {
                    Action::Halt
                }
            },
            Event::Stop => {
                self.stop();
                Action::Halt
            },
        }
    }

    /// What a generator that is about to begin a tick asks for.
    fn proceed(&self) -> (action: Action)
        ensures
            action == (if self@.state == State::Running {
                Action::Compute { frequency: self@.frequency }
            } else {
                Action::Halt
            }),
    {
        if self.state.is_running() {
            Action::Compute { frequency: self.config.get_frequency() }
        } else {
            Action::Halt
        }
    }
}

/// An event leaves a well-formed generator well formed. It never changes the
/// configuration or the ring's capacity, and only a sample handed to a running
/// generator changes the ring.
pub proof fn lemma_next_keeps_shape(net: Network, event: Event)
    requires
        net.wf(),
    ensures
        net.next(event).wf(),
        net.next(event).frequency == net.frequency,
        net.next(event).tick_period == net.tick_period,
        net.next(event).ring.capacity() == net.ring.capacity(),
        !(event is Sample && net.state == State::Running) ==> net.next(event).ring == net.ring,
{
    if let Event::Sample { time, value } = event {
        lemma_write_one_slot(net.ring, time, value);
    }
}

/// Malformed parameters never reach the tick loop: a frequency that a
/// well-formed generator hands out with `Compute`, and a period that it hands
/// out with `Sleep`, is greater than zero.
pub proof fn lemma_answers_carry_accepted_parameters(net: Network, event: Event)
    requires
        net.wf(),
    ensures
        net.answer(event) matches Action::Compute { frequency } ==> is_positive(frequency),
        net.answer(event) matches Action::Sleep { period } ==> period > 0,
{
}

/// A stopped generator is stopped for good: whatever events follow, it stays
/// stopped, nothing is written to its ring any more, and every answer is `Halt`.
pub proof fn lemma_stopped_is_final(net: Network, events: Seq<Event>)
    requires
        net.state == State::Stopped,
    ensures
        net.run(events) == net,
        forall|event: Event| #[trigger] net.answer(event) == Action::Halt,
    decreases events.len(),
{
    if events.len() > 0 {
        lemma_stopped_is_final(net, events.drop_last());
    }
}

/// After a stop nothing more is written, whatever the generator did before and
/// whatever events follow the stop.
pub proof fn lemma_no_write_after_stop(net: Network, events: Seq<Event>)
    ensures
        net.stop().run(events).ring == net.ring,
        net.stop().run(events).state == State::Stopped,
{
    lemma_stopped_is_final(net.stop(), events);
}

/// The ring after a run of events is the ring after the writes of that run, and
/// the configuration is the one before the run.
pub proof fn lemma_run_writes(net: Network, events: Seq<Event>)
    requires
        net.wf(),
    ensures
        net.run(events).wf(),
        net.run(events).ring == net.ring.write_all(net.written(events)),
        net.run(events).frequency == net.frequency,
        net.run(events).tick_period == net.tick_period,
    decreases events.len(),
{
    if events.len() > 0 {
        let before = net.run(events.drop_last());
        let earlier = net.written(events.drop_last());
        lemma_run_writes(net, events.drop_last());
        lemma_next_keeps_shape(before, events.last());
        if let Event::Sample { time, value } = events.last() {
            if before.state == State::Running {
                assert(earlier.push((time, value)).drop_last() =~= earlier);
            }
        }
    }
}

} // verus!
