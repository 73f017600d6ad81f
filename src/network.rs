//! A population of neurons with a static topology, stepped in synchronous
//! ticks. The population is an arena indexed by neuron id; all relations
//! between neurons go through the adjacency matrix.
use vstd::prelude::*;
use crate::nenv::{FiringState, NeuronType, fires_at, lemma_refractory_gap, run};
use crate::topology::{
    ConnectivityType,
    generate_connectivity,
    grid_side,
    is_adjacency,
    is_grid_side,
};

verus! {

/// Kind of neuron `i` in a population whose first `num_inhibitory` neurons
/// are inhibitory.
pub open spec fn kind_at(i: int, num_inhibitory: int) -> NeuronType {
    if i < num_inhibitory {
        NeuronType::Inhibitory
    } else {
        NeuronType::Excitatory
    }
}

/// Number of firing neurons in `s`.
pub open spec fn count_firing(s: Seq<FiringState>) -> nat
    decreases s.len(),
{
    if s.len() == 0 {
        0
    } else {
        count_firing(s.drop_last()) + if s.last().is_firing {
            1nat
        } else {
            0nat
        }
    }
}

/// Input that neuron `i` gathers from the previous outputs on slot `j`: the
/// output of `j` where `i` reads `j`, else 0.
pub open spec fn gathered_signal(m: Seq<Vec<u8>>, outputs: Seq<i8>, i: int, j: int) -> i8 {
    if m[i]@[j] == 1 {
        outputs[j]
    } else {
        0
    }
}

/// Firing states after the decisions of one tick `t`, where neuron `i`'s
/// modulated potential exceeded its threshold exactly when `above[i]`.
pub open spec fn tick_neurons(neurons: Seq<FiringState>, above: Seq<bool>, t: i64) -> Seq<
    FiringState,
> {
    Seq::new(neurons.len(), |i: int| neurons[i].decided(above[i], t))
}

/// Firing states after a run of ticks that starts after tick `start`, round
/// `k` being decided at tick `start + k + 1` with the threshold crossings
/// `rounds[k]`.
pub open spec fn run_rounds(neurons: Seq<FiringState>, start: int, rounds: Seq<Seq<bool>>) -> Seq<
    FiringState,
>
    decreases rounds.len(),
{
    if rounds.len() == 0 {
        neurons
    } else {
        tick_neurons(
            run_rounds(neurons, start, rounds.drop_last()),
            rounds.last(),
            (start + rounds.len()) as i64,
        )
    }
}

/// Decisions that neuron `i` sees over a run of ticks after tick `start`.
pub open spec fn neuron_events(start: int, rounds: Seq<Seq<bool>>, i: int) -> Seq<(bool, i64)> {
    Seq::new(rounds.len(), |k: int| (rounds[k][i], (start + k + 1) as i64))
}

/// Over a run of ticks each neuron evolves by its own decisions alone.
proof fn lemma_run_rounds_neuron(
    neurons: Seq<FiringState>,
    start: int,
    rounds: Seq<Seq<bool>>,
    i: int,
)
    requires
        0 <= i < neurons.len(),
    ensures
        run_rounds(neurons, start, rounds).len() == neurons.len(),
        run_rounds(neurons, start, rounds)[i] == run(neurons[i], neuron_events(start, rounds, i)),
    decreases rounds.len(),
{
    if rounds.len() > 0 {
        lemma_run_rounds_neuron(neurons, start, rounds.drop_last(), i);
        assert(neuron_events(start, rounds, i).drop_last() =~= neuron_events(
            start,
            rounds.drop_last(),
            i,
        ));
    }
}

/// In a network, whatever the stimulus of each tick, a neuron that fires on
/// one tick does not fire again until `refractory_period` ticks have passed:
/// if neuron `i` fires in round `a` and next in round `b`, then
/// `b - a >= refractory_period`.
pub proof fn lemma_network_refractory_gap(
    neurons: Seq<FiringState>,
    start: int,
    rounds: Seq<Seq<bool>>,
    i: int,
    a: int,
    b: int,
)
    requires
        0 <= i < neurons.len(),
        0 <= start,
        start + rounds.len() <= i64::MAX,
        0 <= a < b < rounds.len(),
        run_rounds(neurons, start, rounds.take(a + 1))[i].is_firing,
        run_rounds(neurons, start, rounds.take(b + 1))[i].is_firing,
        forall|k: int| a < k < b ==> !(#[trigger] run_rounds(neurons, start, rounds.take(k + 1)))[i].is_firing,
    ensures
        b - a >= neurons[i].refractory_period,
{
    let events = neuron_events(start, rounds, i);
    assert forall|k: int| 0 <= k < rounds.len() implies fires_at(neurons[i], events, k)
        == run_rounds(neurons, start, rounds.take(k + 1))[i].is_firing by {
        lemma_run_rounds_neuron(neurons, start, rounds.take(k + 1), i);
        assert(neuron_events(start, rounds.take(k + 1), i) =~= events.take(k + 1));
    }
    assert forall|k: int| a < k < b implies !fires_at(neurons[i], events, k) by {
        assert(!run_rounds(neurons, start, rounds.take(k + 1))[i].is_firing);
    }
    lemma_refractory_gap(neurons[i], events, a, b);
}

/// Network of neurons.
#[derive(Debug)]
pub struct Network {
    /// Neurons, the one at position `i` having id `i`.
    pub neurons: Vec<FiringState>,
    /// `connectivity_matrix[i][j] == 1` when neuron `i` reads neuron `j`.
    pub connectivity_matrix: Vec<Vec<u8>>,
    /// Ticks run so far.
    pub current_time_step: i64,
    /// Grid side under `Grid2D`, 0 otherwise.
    pub grid_width: usize,
    /// Equal to `grid_width`.
    pub grid_height: usize,
}

impl Network {
    /// Sizes agree with the population, ids match positions, and every
    /// neuron's output agrees with its firing flag.
    pub open spec fn wf(&self) -> bool {
        let n = self.neurons@.len();
        &&& self.connectivity_matrix@.len() == n
        &&& forall|i: int| 0 <= i < n ==> (#[trigger] self.connectivity_matrix@[i])@.len() == n
        &&& forall|i: int| 0 <= i < n ==> (#[trigger] self.neurons@[i]).id == i
        &&& forall|i: int| 0 <= i < n ==> (#[trigger] self.neurons@[i]).wf()
        &&& self.grid_width == self.grid_height
    }

    /// Creates `num_neurons` resting neurons under the topology, the first
    /// `num_inhibitory` of them inhibitory and the rest excitatory. Under
    /// `Grid2D` the grid is square, its side the ceiling of the square root
    /// of `num_neurons`.
    pub fn new(
        num_neurons: usize,
        connectivity_type: ConnectivityType,
        num_inhibitory: usize,
    ) -> (net: Network)
        ensures
            net.wf(),
            net.neurons@.len() == num_neurons,
            forall|i: int|
                0 <= i < num_neurons ==> #[trigger] net.neurons@[i] == FiringState::new_spec(
                    i as usize,
                    kind_at(i, num_inhibitory as int),
                ),
            net.current_time_step == 0,
            net.grid_height == net.grid_width,
            connectivity_type == ConnectivityType::Grid2D ==> is_grid_side(
                num_neurons as nat,
                net.grid_width as nat,
            ),
            connectivity_type == ConnectivityType::FullyConnected ==> net.grid_width == 0,
            is_adjacency(
                net.connectivity_matrix@,
                connectivity_type,
                net.grid_width as int,
                num_neurons as int,
            ),
    {
        let side = match connectivity_type {
            ConnectivityType::Grid2D => grid_side(num_neurons),
            ConnectivityType::FullyConnected => 0,
        };
        let connectivity_matrix = generate_connectivity(num_neurons, connectivity_type, side);
        let mut neurons: Vec<FiringState> = Vec::with_capacity(num_neurons);
        for i in 0..num_neurons
            invariant
                neurons@.len() == i,
                forall|k: int|
                    0 <= k < i ==> #[trigger] neurons@[k] == FiringState::new_spec(
                        k as usize,
                        kind_at(k, num_inhibitory as int),
                    ),
        {
            let kind = if i < num_inhibitory {
                NeuronType::Inhibitory
            } else {
                NeuronType::Excitatory
            };
            neurons.push(FiringState::new(i, kind));
        }
        Network {
            neurons,
            connectivity_matrix,
            current_time_step: 0,
            grid_width: side,
            grid_height: side,
        }
    }
    /// Starts a tick: the tick counter goes up by one; nothing else changes.
    pub fn advance_time_step(&mut self)
        requires
            old(self).current_time_step < i64::MAX,
        ensures
            *final(self) == (Network {
                current_time_step: (old(self).current_time_step + 1) as i64,
                ..*old(self)
            }),
    {
        self.current_time_step = self.current_time_step + 1;
    }

    /// Output signal of every neuron, by id: the snapshot of the previous
    /// tick that all neurons read during input gathering.
    pub fn output_signals(&self) -> (outputs: Vec<i8>)
        ensures
            outputs@.len() == self.neurons@.len(),
            forall|j: int|
                0 <= j < outputs@.len() ==> #[trigger] outputs@[j] == self.neurons@[j].output_signal,
    {
        let mut outputs: Vec<i8> = Vec::with_capacity(self.neurons.len());
        for j in 0..self.neurons.len()
            invariant
                outputs@.len() == j,
                forall|k: int| 0 <= k < j ==> #[trigger] outputs@[k] == self.neurons@[k].output_signal,
        {
            outputs.push(self.neurons[j].output_signal);
        }
        outputs
    }

    /// Network part of the input vector of neuron `neuron_idx`: slot `j` holds
    /// `outputs[j]` where the neuron reads neuron `j`, else 0.
    pub fn gather_signals(&self, neuron_idx: usize, outputs: &Vec<i8>) -> (inputs: Vec<i8>)
        requires
            self.wf(),
            neuron_idx < self.neurons@.len(),
            outputs@.len() == self.neurons@.len(),
        ensures
            inputs@.len() == self.neurons@.len(),
            forall|j: int|
                0 <= j < inputs@.len() ==> #[trigger] inputs@[j] == gathered_signal(
                    self.connectivity_matrix@,
                    outputs@,
                    neuron_idx as int,
                    j,
                ),
    {
        let n = self.neurons.len();
        let row = &self.connectivity_matrix[neuron_idx];
        let mut inputs: Vec<i8> = Vec::with_capacity(n);
        for j in 0..n
            invariant
                n == self.neurons@.len(),
                n == outputs@.len(),
                *row == self.connectivity_matrix@[neuron_idx as int],
                row@.len() == n,
                inputs@.len() == j,
                forall|k: int|
                    0 <= k < j ==> #[trigger] inputs@[k] == gathered_signal(
                        self.connectivity_matrix@,
                        outputs@,
                        neuron_idx as int,
                        k,
                    ),
        {
            inputs.push(if row[j] == 1 {
                outputs[j]
            } else {
                0
            });
        }
        inputs
    }

    /// Firing decisions of the current tick, for every neuron at once:
    /// neuron `i` fires when `above_threshold[i]` holds and it is not
    /// refractory at the current tick.
    pub fn decide_firing(&mut self, above_threshold: &Vec<bool>)
        requires
            old(self).wf(),
            above_threshold@.len() == old(self).neurons@.len(),
        ensures
            final(self).wf(),
            final(self).neurons@.len() == old(self).neurons@.len(),
            forall|i: int|
                0 <= i < final(self).neurons@.len() ==> #[trigger] final(self).neurons@[i]
                    == old(self).neurons@[i].decided(above_threshold@[i], old(self).current_time_step),
            final(self).neurons@ == tick_neurons(
                old(self).neurons@,
                above_threshold@,
                old(self).current_time_step,
            ),
            final(self).connectivity_matrix == old(self).connectivity_matrix,
            final(self).current_time_step == old(self).current_time_step,
            final(self).grid_width == old(self).grid_width,
            final(self).grid_height == old(self).grid_height,
    {
        let n = self.neurons.len();
        let t = self.current_time_step;
        for i in 0..n
            invariant
                n == self.neurons@.len(),
                n == above_threshold@.len(),
                t == old(self).current_time_step,
                self.wf(),
                self.neurons@.len() == old(self).neurons@.len(),
                forall|k: int|
                    0 <= k < i ==> #[trigger] self.neurons@[k] == old(self).neurons@[k].decided(
                        above_threshold@[k],
                        t,
                    ),
                forall|k: int| i <= k < n ==> #[trigger] self.neurons@[k] == old(self).neurons@[k],
                self.connectivity_matrix == old(self).connectivity_matrix,
                self.current_time_step == t,
                self.grid_width == old(self).grid_width,
                self.grid_height == old(self).grid_height,
        {
            self.neurons[i].decide_to_fire(above_threshold[i], t);
        }
        assert(self.neurons@ =~= tick_neurons(old(self).neurons@, above_threshold@, t));
    }

    /// Number of neurons.
    pub fn num_neurons(&self) -> (r: usize)
        ensures
            r == self.neurons@.len(),
    {
        self.neurons.len()
    }

    /// Number of neurons that fired on the latest tick.
    pub fn num_firing(&self) -> (r: usize)
        ensures
            r == count_firing(self.neurons@),
    {
        let mut r: usize = 0;
        for i in 0..self.neurons.len()
            invariant
                r <= i,
                r == count_firing(self.neurons@.take(i as int)),
        {
            assert(self.neurons@.take(i + 1).drop_last() =~= self.neurons@.take(i as int));
            if self.neurons[i].is_firing {
                r = r + 1;
            }
        }
        assert(self.neurons@.take(self.neurons@.len() as int) =~= self.neurons@);
        r
    }

    /// Firing flag of every neuron, by id.
    pub fn get_firing_states(&self) -> (r: Vec<bool>)
        ensures
            r@.len() == self.neurons@.len(),
            forall|i: int| 0 <= i < r@.len() ==> #[trigger] r@[i] == self.neurons@[i].is_firing,
    {
        let mut r: Vec<bool> = Vec::with_capacity(self.neurons.len());
        for i in 0..self.neurons.len()
            invariant
                r@.len() == i,
                forall|k: int| 0 <= k < i ==> #[trigger] r@[k] == self.neurons@[k].is_firing,
        {
            r.push(self.neurons[i].is_firing);
        }
        r
    }

    /// Grid coordinates `(row, column)` of a neuron; `None` without a grid
    /// or for an index outside the population.
    pub fn index_to_coords(&self, index: usize) -> (r: Option<(usize, usize)>)
        ensures
            r == if self.grid_width > 0 && index < self.neurons@.len() {
                Some(((index / self.grid_width) as usize, (index % self.grid_width) as usize))
            } else {
                None::<(usize, usize)>
            },
    {
        if self.grid_width > 0 && index < self.neurons.len() {
            Some((index / self.grid_width, index % self.grid_width))
        } else {
            None
        }
    }

    /// Index of the neuron at grid coordinates `(row, col)`; `None` without a
    /// grid, outside the grid, or on a grid cell that holds no neuron.
    pub fn coords_to_index(&self, row: usize, col: usize) -> (r: Option<usize>)
        ensures
            r == if self.grid_width > 0 && row < self.grid_height && col < self.grid_width
                && row * self.grid_width + col < self.neurons@.len() {
                Some((row * self.grid_width + col) as usize)
            } else {
                None::<usize>
            },
    {
        if self.grid_width > 0 && row < self.grid_height && col < self.grid_width {
            assert((row as int) * (self.grid_width as int) + col as int <= u128::MAX)
                by (nonlinear_arith)
                requires
                    row <= usize::MAX,
                    col <= usize::MAX,
                    self.grid_width <= usize::MAX,
                    usize::MAX < 0x1_0000_0000_0000_0000int,
            {
                assert((row as int) * (self.grid_width as int) <= 0xffff_ffff_ffff_ffffint
                    * 0xffff_ffff_ffff_ffffint);
            }
            let index = (row as u128) * (self.grid_width as u128) + col as u128;
            if index < self.neurons.len() as u128 {
                return Some(index as usize);
            }
        }
        None
    }
}

} // verus!
