//! The generator behind locks, for use from several threads at once.
//!
//! A [`SharedNetwork`] holds the same three things as an
//! [`AudioNetwork`](crate::network::AudioNetwork): the sample ring, the
//! configuration and the producer's state. Each sits in a reader-writer lock of
//! its own, no method holds two locks at once, and none keeps a lock after it
//! returns. Every method takes `&self`, so one generator can be handed to a
//! producer, to any number of readers and to whoever reconfigures it.
//!
//! Between two calls another thread may have written, reconfigured or stopped
//! the generator, so a contract here says what holds of every outcome; what one
//! step does to a generator that nobody else touches is stated exactly on
//! `AudioNetwork`. What does hold of every outcome is that no record is ever
//! torn: a write replaces both halves of a slot under the ring's lock, and a
//! snapshot copies both halves of all slots under it. A shared generator is made
//! with a property of records, its pair law; every record written to it must
//! have the property, and then every record of every snapshot has it.

use crate::buffer::{lemma_write_one_slot, Ring, SampleBuffer};
use crate::config::{is_positive, ConfigError, GenerationConfig, DEFAULT_FREQUENCY};
use crate::network::{Action, Event, Network, State, DEFAULT_CAPACITY};
use vstd::prelude::*;
use vstd::rwlock::{RwLock, RwLockPredicate};

verus! {

/// What holds of the ring in a shared generator's lock at every moment.
pub struct RingShape {
    /// The number of slots.
    pub capacity: nat,
    /// The pair law: a property that every record in the ring has.
    pub law: spec_fn(u64, u64) -> bool,
}

impl RingShape {
    /// Whether the record (`time`, `value`) obeys the law.
    pub open spec fn admits(self, time: u64, value: u64) -> bool {
        (self.law)(time, value)
    }

    /// The ring has this shape's capacity and all its records obey the law.
    pub open spec fn fits(self, ring: Ring) -> bool {
        &&& ring.wf()
        &&& ring.capacity() == self.capacity
        &&& forall|i: int|
            0 <= i < self.capacity ==> #[trigger] self.admits(ring.times[i], ring.values[i])
    }
}

impl RwLockPredicate<SampleBuffer> for RingShape {
    open spec fn inv(self, v: SampleBuffer) -> bool {
        self.fits(v@)
    }
}

/// The lock predicate of a value that needs none beyond its type's own.
pub struct Unconstrained;

impl<V> RwLockPredicate<V> for Unconstrained {
    open spec fn inv(self, v: V) -> bool {
        true
    }
}

/// A signal generator that several threads share.
pub struct SharedNetwork {
    buffer: RwLock<SampleBuffer, RingShape>,
    config: RwLock<GenerationConfig, Unconstrained>,
    state: RwLock<State, Unconstrained>,
    capacity: usize,
}

impl SharedNetwork {
    #[verifier::type_invariant]
    spec fn inv(&self) -> bool {
        self.capacity > 0 && self.buffer.pred().capacity == self.capacity
    }

    /// The number of slots of the ring, fixed when the generator is made.
    pub closed spec fn slots(&self) -> nat {
        self.capacity as nat
    }

    /// The property that every record in the ring has.
    pub closed spec fn pair_law(&self) -> spec_fn(u64, u64) -> bool {
        self.buffer.pred().law
    }

    /// Whether the record (`time`, `value`) obeys the pair law.
    pub open spec fn admits(&self, time: u64, value: u64) -> bool {
        (self.pair_law())(time, value)
    }

    /// An idle generator with a ring of [`DEFAULT_CAPACITY`] zeroed slots, the
    /// default configuration, and a pair law that every record obeys.
    pub fn new() -> (r: SharedNetwork)
        ensures
            r.slots() == DEFAULT_CAPACITY,
            forall|time: u64, value: u64| #[trigger] r.admits(time, value),
    {
        SharedNetwork::with_capacity(DEFAULT_CAPACITY).unwrap()
    }

    /// An idle generator with a ring of `capacity` zeroed slots, the default
    /// configuration, and a pair law that every record obeys; `None` when
    /// `capacity` is zero.
    pub fn with_capacity(capacity: usize) -> (r: Option<SharedNetwork>)
        ensures
            r is None <==> capacity == 0,
            r matches Some(n) ==> n.slots() == capacity && forall|time: u64, value: u64| #[trigger]
                n.admits(time, value),
    {
        SharedNetwork::with_pair_law(capacity, Ghost(|time: u64, value: u64| true))
    }

    /// An idle generator with a ring of `capacity` zeroed slots, the default
    /// configuration, and `law` as its pair law; `None` when `capacity` is zero.
    /// The zeroed ring holds the record (0, 0) in every slot, so the law has to
    /// admit it.
    pub fn with_pair_law(capacity: usize, Ghost(law): Ghost<spec_fn(u64, u64) -> bool>) -> (r:
        Option<SharedNetwork>)
        requires
            law(0, 0),
        ensures
            r is None <==> capacity == 0,
            r matches Some(n) ==> n.slots() == capacity && n.pair_law() == law,
    {
        match SampleBuffer::new(capacity) {
            Some(buffer) => {
                let ghost shape = RingShape { capacity: capacity as nat, law };
                Some(
                    SharedNetwork {
                        buffer: RwLock::new(buffer, Ghost(shape)),
                        config: RwLock::new(GenerationConfig::new(), Ghost(Unconstrained)),
                        state: RwLock::new(State::Idle, Ghost(Unconstrained)),
                        capacity,
                    },
                )
            },
            None => None,
        }
    }

    /// The number of slots of the ring.
    pub fn capacity(&self) -> (r: usize)
        ensures
            r == self.slots(),
            r > 0,
    {
        proof {
            use_type_invariant(self);
        }
        self.capacity
    }

    /// The producer's state at the moment of the call.
    pub fn state(&self) -> State {
        let handle = self.state.acquire_read();
        let state = *handle.borrow();
        handle.release_read();
        state
    }

    /// Starts the producer if it is idle, and hands back the state it is in
    /// after that: `Running`, or `Stopped` if it was stopped already.
    pub fn start(&self) -> (r: State)
        ensures
            r != State::Idle,
    {
        let (state, handle) = self.state.acquire_write();
        let next = state.start();
        handle.release_write(next);
        next
    }

    /// Shuts the producer down. A sample that the producer was handing in at
    /// that moment may still be written; none is after that.
    pub fn stop(&self) {
        let (_, handle) = self.state.acquire_write();
        handle.release_write(State::Stopped);
    }

    /// Puts `frequency` in force from the producer's next tick on if it is
    /// greater than zero; otherwise reports `InvalidConfig` and changes nothing.
    pub fn set_frequency(&self, frequency: u64) -> (r: Result<(), ConfigError>)
        ensures
            is_positive(frequency) ==> r is Ok,
            !is_positive(frequency) ==> r == Err::<(), ConfigError>(ConfigError::InvalidConfig),
    {
        let (mut config, handle) = self.config.acquire_write();
        let r = config.set_frequency(frequency);
        handle.release_write(config);
        r
    }

    /// Puts `tick_period` in force from the producer's next tick on if it is
    /// greater than zero; otherwise reports `InvalidConfig` and changes nothing.
    pub fn set_tick_period(&self, tick_period: u64) -> (r: Result<(), ConfigError>)
        ensures
            tick_period > 0 ==> r is Ok,
            tick_period == 0 ==> r == Err::<(), ConfigError>(ConfigError::InvalidConfig),
    {
        let (mut config, handle) = self.config.acquire_write();
        let r = config.set_tick_period(tick_period);
        handle.release_write(config);
        r
    }

    /// The frequency in force at the moment of the call: one that was accepted.
    pub fn get_frequency(&self) -> (r: u64)
        ensures
            is_positive(r),
    {
        let handle = self.config.acquire_read();
        let r = handle.borrow().get_frequency();
        handle.release_read();
        r
    }

    /// The tick period in force at the moment of the call: one that was accepted.
    pub fn get_tick_period(&self) -> (r: u64)
        ensures
            r > 0,
    {
        let handle = self.config.acquire_read();
        let r = handle.borrow().get_tick_period();
        handle.release_read();
        r
    }

    /// Stores one sample if `state`, the producer's state as the caller has just
    /// found it, is `Running`: both halves go to the ring under one hold of its
    /// lock. Says whether it stored the sample. In any other state the ring's
    /// lock is not taken.
    fn store(&self, state: State, time: u64, value: u64) -> (written: bool)
        requires
            self.admits(time, value),
        ensures
            written == (state == State::Running),
    {
        if state.is_running() {
            let (mut buffer, handle) = self.buffer.acquire_write();
            proof {
                lemma_write_one_slot(buffer@, time, value);
            }
            buffer.write(time, value);
            handle.release_write(buffer);
            true
        } else {
            false
        }
    }

    /// A copy of both halves of the ring, taken under one hold of the ring's
    /// lock: the two results are the ring as it stood at one moment between two
    /// writes. Both have one entry for each slot, and every record obeys the
    /// pair law.
    pub fn snapshot(&self) -> (r: (Vec<u64>, Vec<u64>))
        ensures
            r.0@.len() == self.slots(),
            r.1@.len() == self.slots(),
            forall|i: int| 0 <= i < self.slots() ==> #[trigger] self.admits(r.0@[i], r.1@[i]),
    {
        proof {
            use_type_invariant(self);
        }
        let handle = self.buffer.acquire_read();
        let buffer = handle.borrow();
        let r = buffer.snapshot();
        proof {
            assert forall|i: int| 0 <= i < self.slots() implies #[trigger] self.admits(
                r.0@[i],
                r.1@[i],
            ) by {
                assert(self.buffer.pred().admits(buffer@.times[i], buffer@.values[i]));
            }
        }
        handle.release_read();
        r
    }

    /// Takes one event and answers with the action to take next, as
    /// [`AudioNetwork::advance`](crate::network::AudioNetwork::advance) does,
    /// on the state and the configuration that it finds at that moment: the
    /// action is the answer of some well-formed generator to this event. So a
    /// frequency or a period that it hands out is one that was accepted, and a
    /// stop is always answered with `Halt`. A sample is stored only if the
    /// producer is running when it arrives; a stop that another thread asks for
    /// while the sample is on its way may come too late for that one sample.
    pub fn advance(&self, event: Event) -> (action: Action)
        requires
            event matches Event::Sample { time, value } ==> self.admits(time, value),
        ensures
            exists|net: Network|
                net.wf() && net.ring.capacity() == self.slots() && #[trigger] net.answer(event)
                    == action,
            action matches Action::Compute { frequency } ==> is_positive(frequency),
            action matches Action::Sleep { period } ==> period > 0,
            event is Stop ==> action is Halt,
    {
        proof {
            use_type_invariant(self);
        }
        let ghost ring = Ring::zeroed(self.slots());
        match event {
            Event::Start => {
                let state = self.start();
                let frequency = self.get_frequency();
                let action = if state.is_running() {
                    Action::Compute { frequency }
                } else {
                    Action::Halt
                };
                proof {
                    let net = Network { ring, frequency, tick_period: 1, state };
                    assert(net.answer(event) == action);
                }
                action
            },
            Event::Wake => {
                let state = self.state();
                let frequency = self.get_frequency();
                let action = if state.is_running() {
                    Action::Compute { frequency }
                } else {
                    Action::Halt
                };
                proof {
                    let net = Network { ring, frequency, tick_period: 1, state };
                    assert(net.answer(event) == action);
                }
                action
            },
            Event::Sample { time, value } => {
                let state = self.state();
                if self.store(state, time, value) {
                    let period = self.get_tick_period();
                    proof {
                        let net = Network {
                            ring,
                            frequency: DEFAULT_FREQUENCY,
                            tick_period: period,
                            state,
                        };
                        assert(net.answer(event) == Action::Sleep { period });
                    }
                    Action::Sleep { period }
                } else {
                    proof {
                        let net = Network {
                            ring,
                            frequency: DEFAULT_FREQUENCY,
                            tick_period: 1,
                            state,
                        };
                        assert(net.answer(event) == Action::Halt);
                    }
                    Action::Halt
                }
            },
            Event::Stop => {
                self.stop();
                proof {
                    let net = Network::fresh(self.slots());
                    assert(net.answer(event) == Action::Halt);
                }
                Action::Halt
            },
        }
    }
}

} // verus!
