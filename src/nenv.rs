//! Fire-decision state machine of one neuron: the threshold crossing is
//! decided by the caller; this unit applies refractory gating, records the
//! last fire and emits the signed output signal.
use vstd::prelude::*;

verus! {

/// Kind of a neuron, fixed at construction.
#[derive(Debug, Clone, Copy, PartialEq, Eq, Structural)]
pub enum NeuronType {
    /// Emits +1 when it fires.
    Excitatory,
    /// Emits -1 when it fires.
    Inhibitory,
}

/// Refractory period that a new neuron starts with.
pub const DEFAULT_REFRACTORY_PERIOD: i64 = 5;

/// Signal that a neuron of the given kind emits when it fires.
pub open spec fn fire_signal(kind: NeuronType) -> i8 {
    match kind {
        NeuronType::Excitatory => 1,
        NeuronType::Inhibitory => -1i8,
    }
}

/// Firing state of one neuron.
#[derive(Debug, Clone, Copy)]
pub struct FiringState {
    /// Position of the neuron in its population.
    pub id: usize,
    /// Kind of the neuron.
    pub neuron_type: NeuronType,
    /// Tick of the last fire; `None` while the neuron has never fired.
    pub last_fire_time: Option<i64>,
    /// Whether the neuron fired on the latest decision.
    pub is_firing: bool,
    /// +1 or -1 (by kind) on a fire, 0 otherwise.
    pub output_signal: i8,
    /// Minimum gap, in ticks, between two fires.
    pub refractory_period: i64,
}

impl FiringState {
    /// The output signal agrees with the firing flag and the kind.
    pub open spec fn wf(&self) -> bool {
        self.output_signal == if self.is_firing {
            fire_signal(self.neuron_type)
        } else {
            0
        }
    }

    /// At tick `t` the neuron is refractory: it fired less than
    /// `refractory_period` ticks ago.
    pub open spec fn refractory_at(&self, t: i64) -> bool {
        match self.last_fire_time {
            Some(last) => t - last < self.refractory_period,
            None => false,
        }
    }

    /// State after deciding at tick `t`, where `above` says whether the
    /// modulated potential exceeded the threshold.
    pub open spec fn decided(self, above: bool, t: i64) -> FiringState {
        if above && !self.refractory_at(t) {
            FiringState {
                last_fire_time: Some(t),
                is_firing: true,
                output_signal: fire_signal(self.neuron_type),
                ..self
            }
        } else {
            FiringState { is_firing: false, output_signal: 0, ..self }
        }
    }

    /// A resting neuron that has never fired, with the default refractory
    /// period.
    pub open spec fn new_spec(id: usize, neuron_type: NeuronType) -> FiringState {
        FiringState {
            id,
            neuron_type,
            last_fire_time: None,
            is_firing: false,
            output_signal: 0,
            refractory_period: DEFAULT_REFRACTORY_PERIOD,
        }
    }

    /// A resting neuron that has never fired.
    pub fn new(id: usize, neuron_type: NeuronType) -> (s: FiringState)
        ensures
            s == FiringState::new_spec(id, neuron_type),
            s.wf(),
    {
        FiringState {
            id,
            neuron_type,
            last_fire_time: None,
            is_firing: false,
            output_signal: 0,
            refractory_period: DEFAULT_REFRACTORY_PERIOD,
        }
    }

    /// A resting excitatory neuron.
    pub fn excitatory(id: usize) -> (s: FiringState)
        ensures
            s == FiringState::new_spec(id, NeuronType::Excitatory),
    {
        FiringState::new(id, NeuronType::Excitatory)
    }

    /// A resting inhibitory neuron.
    pub fn inhibitory(id: usize) -> (s: FiringState)
        ensures
            s == FiringState::new_spec(id, NeuronType::Inhibitory),
    {
        FiringState::new(id, NeuronType::Inhibitory)
    }

    /// Whether the neuron is refractory at tick `current_time`.
    pub fn is_refractory(&self, current_time: i64) -> (r: bool)
        ensures
            r == self.refractory_at(current_time),
    {
        match self.last_fire_time {
            Some(last) => (current_time as i128) - (last as i128) < self.refractory_period as i128,
            None => false,
        }
    }

    /// Decides at tick `current_time` whether the neuron fires. The state is
    /// reset to resting; it fires when `above_threshold` (the modulated
    /// potential strictly exceeded the threshold) and it is not refractory.
    pub fn decide_to_fire(&mut self, above_threshold: bool, current_time: i64)
        ensures
            *final(self) == old(self).decided(above_threshold, current_time),
            final(self).wf(),
    {
        let refractory = self.is_refractory(current_time);
        self.is_firing = false;
        self.output_signal = 0;
        if above_threshold && !refractory {
            self.is_firing = true;
            self.last_fire_time = Some(current_time);
            self.output_signal = match self.neuron_type {
                NeuronType::Excitatory => 1,
                NeuronType::Inhibitory => -1i8,
            };
        }
    }

    /// Sets the minimum gap between two fires.
    pub fn set_refractory_period(&mut self, period: i64)
        ensures
            *final(self) == (FiringState { refractory_period: period, ..*old(self) }),
    {
        self.refractory_period = period;
    }
}

/// State of a neuron after a sequence of decisions, each a pair of
/// (potential above threshold, tick).
pub open spec fn run(s: FiringState, events: Seq<(bool, i64)>) -> FiringState
    decreases events.len(),
{
    if events.len() == 0 {
        s
    } else {
        run(s, events.drop_last()).decided(events.last().0, events.last().1)
    }
}

/// The neuron fires on decision `k` of the sequence.
pub open spec fn fires_at(s: FiringState, events: Seq<(bool, i64)>, k: int) -> bool {
    run(s, events.take(k + 1)).is_firing
}

/// Decisions never change the refractory period.
proof fn lemma_period_kept(s: FiringState, events: Seq<(bool, i64)>)
    ensures
        run(s, events).refractory_period == s.refractory_period,
    decreases events.len(),
{
    if events.len() > 0 {
        lemma_period_kept(s, events.drop_last());
    }
}

/// After a fire on decision `a`, and no fire on decisions `a + 1 ..= k`,
/// the last fire recorded is the one of decision `a`.
proof fn lemma_last_fire_kept(s: FiringState, events: Seq<(bool, i64)>, a: int, k: int)
    requires
        0 <= a <= k < events.len(),
        fires_at(s, events, a),
        forall|m: int| a < m <= k ==> !fires_at(s, events, m),
    ensures
        run(s, events.take(k + 1)).last_fire_time == Some(events[a].1),
    decreases k - a,
{
    if k == a {
        assert(events.take(a + 1).drop_last() =~= events.take(a));
    } else {
        lemma_last_fire_kept(s, events, a, k - 1);
        assert(events.take(k + 1).drop_last() =~= events.take(k));
        assert(!fires_at(s, events, k));
    }
}

/// A neuron never fires twice within its refractory period: whatever the
/// potentials, if it fires on decision `a` and next on decision `b`, the
/// tick of `b` is at least `refractory_period` after the tick of `a`.
pub proof fn lemma_refractory_gap(s: FiringState, events: Seq<(bool, i64)>, a: int, b: int)
    requires
        0 <= a < b < events.len(),
        fires_at(s, events, a),
        fires_at(s, events, b),
        forall|k: int| a < k < b ==> !fires_at(s, events, k),
    ensures
        events[b].1 - events[a].1 >= s.refractory_period,
{
    lemma_last_fire_kept(s, events, a, b - 1);
    lemma_period_kept(s, events.take(b));
    assert(events.take(b + 1).drop_last() =~= events.take(b));
    assert(events.take(b - 1 + 1) =~= events.take(b));
}

} // verus!
