use nen_v_prototipo::network::Network;
use nen_v_prototipo::nenv::NeuronType;
use nen_v_prototipo::topology::{generate_connectivity, grid_side, ConnectivityType};

fn row_sum(network: &Network, i: usize) -> usize {
    network.connectivity_matrix[i].iter().map(|&x| x as usize).sum()
}

#[test]
fn test_network_initialization() {
    let network = Network::new(100, ConnectivityType::Grid2D, 20);

    assert_eq!(network.num_neurons(), 100);
    assert_eq!(network.current_time_step, 0);

    let num_inhibitory = network
        .neurons
        .iter()
        .filter(|n| n.neuron_type == NeuronType::Inhibitory)
        .count();
    assert_eq!(num_inhibitory, 20);
}

#[test]
fn test_grid_dimensions() {
    let network = Network::new(100, ConnectivityType::Grid2D, 20);

    assert_eq!(network.grid_width, 10);
    assert_eq!(network.grid_height, 10);
}

#[test]
fn test_coords_conversion() {
    let network = Network::new(100, ConnectivityType::Grid2D, 20);

    let index = network.coords_to_index(5, 5).unwrap();
    assert_eq!(index, 55);

    let (row, col) = network.index_to_coords(55).unwrap();
    assert_eq!(row, 5);
    assert_eq!(col, 5);
}

#[test]
fn test_2d_grid_connectivity() {
    let network = Network::new(9, ConnectivityType::Grid2D, 0);

    assert_eq!(row_sum(&network, 4), 8);
    assert_eq!(row_sum(&network, 0), 3);
}

#[test]
fn test_fully_connected() {
    let network = Network::new(10, ConnectivityType::FullyConnected, 0);

    for i in 0..10 {
        assert_eq!(row_sum(&network, i), 10);
    }
}

#[test]
fn test_network_update_increments_time() {
    let mut network = Network::new(10, ConnectivityType::Grid2D, 2);

    assert_eq!(network.current_time_step, 0);

    network.advance_time_step();
    assert_eq!(network.current_time_step, 1);

    network.advance_time_step();
    assert_eq!(network.current_time_step, 2);
}

#[test]
fn inhibitory_neurons_come_first() {
    let network = Network::new(10, ConnectivityType::FullyConnected, 3);
    for (i, n) in network.neurons.iter().enumerate() {
        assert_eq!(n.id, i);
        let expected = if i < 3 { NeuronType::Inhibitory } else { NeuronType::Excitatory };
        assert_eq!(n.neuron_type, expected);
        assert!(!n.is_firing);
        assert_eq!(n.output_signal, 0);
    }
}

#[test]
fn grid_side_is_ceiling_of_square_root() {
    assert_eq!(grid_side(0), 0);
    assert_eq!(grid_side(1), 1);
    assert_eq!(grid_side(9), 3);
    assert_eq!(grid_side(10), 4);
    assert_eq!(grid_side(16), 4);
    assert_eq!(grid_side(17), 5);
}

#[test]
fn partial_grid_leaves_missing_cells_out() {
    // 10 neurons on a 4x4 grid: cells 10..16 hold no neuron.
    let network = Network::new(10, ConnectivityType::Grid2D, 0);
    assert_eq!(network.grid_width, 4);
    assert_eq!(network.connectivity_matrix.len(), 10);
    // neuron 8 at (2, 0): neighbours 4, 5, 9
    let row8: Vec<usize> = (0..10).filter(|&j| network.connectivity_matrix[8][j] == 1).collect();
    assert_eq!(row8, vec![4, 5, 9]);
    // neuron 9 at (2, 1): neighbours 4, 5, 6, 8
    let row9: Vec<usize> = (0..10).filter(|&j| network.connectivity_matrix[9][j] == 1).collect();
    assert_eq!(row9, vec![4, 5, 6, 8]);
    // no self-loop on the grid
    for i in 0..10 {
        assert_eq!(network.connectivity_matrix[i][i], 0);
    }
}

#[test]
fn grid_borders_do_not_wrap() {
    let network = Network::new(16, ConnectivityType::Grid2D, 0);
    // neuron 3 at (0, 3): neighbours 2, 6, 7 only; 4 is on the next row, column 0
    let row3: Vec<usize> = (0..16).filter(|&j| network.connectivity_matrix[3][j] == 1).collect();
    assert_eq!(row3, vec![2, 6, 7]);
}

#[test]
fn connectivity_of_empty_population() {
    assert!(generate_connectivity(0, ConnectivityType::Grid2D, 0).is_empty());
    let full = generate_connectivity(3, ConnectivityType::FullyConnected, 0);
    assert_eq!(full, vec![vec![1, 1, 1]; 3]);
}

#[test]
fn coords_outside_grid_or_population() {
    let network = Network::new(10, ConnectivityType::Grid2D, 0);
    assert_eq!(network.coords_to_index(2, 1), Some(9));
    assert_eq!(network.coords_to_index(2, 2), None);
    assert_eq!(network.coords_to_index(0, 4), None);
    assert_eq!(network.coords_to_index(4, 0), None);
    assert_eq!(network.index_to_coords(9), Some((2, 1)));
    assert_eq!(network.index_to_coords(10), None);
}

#[test]
fn coords_need_a_grid() {
    let network = Network::new(10, ConnectivityType::FullyConnected, 0);
    assert_eq!(network.grid_width, 0);
    assert_eq!(network.grid_height, 0);
    assert_eq!(network.index_to_coords(0), None);
    assert_eq!(network.coords_to_index(0, 0), None);
}

#[test]
fn gathering_masks_by_adjacency() {
    let mut network = Network::new(9, ConnectivityType::Grid2D, 2);
    network.advance_time_step();
    network.decide_firing(&vec![true, false, true, false, true, false, false, false, true]);
    let outputs = network.output_signals();
    assert_eq!(outputs, vec![-1, 0, 1, 0, 1, 0, 0, 0, 1]);
    // neuron 0 reads 1, 3, 4
    assert_eq!(network.gather_signals(0, &outputs), vec![0, 0, 0, 0, 1, 0, 0, 0, 0]);
    // neuron 4 reads everyone but itself
    assert_eq!(network.gather_signals(4, &outputs), vec![-1, 0, 1, 0, 0, 0, 0, 0, 1]);
}

#[test]
fn fully_connected_reads_itself() {
    let mut network = Network::new(3, ConnectivityType::FullyConnected, 0);
    network.advance_time_step();
    network.decide_firing(&vec![false, true, false]);
    let outputs = network.output_signals();
    assert_eq!(network.gather_signals(1, &outputs), vec![0, 1, 0]);
}

#[test]
fn firing_counts_and_states() {
    let mut network = Network::new(5, ConnectivityType::FullyConnected, 1);
    assert_eq!(network.num_firing(), 0);
    network.advance_time_step();
    network.decide_firing(&vec![true, true, false, true, false]);
    assert_eq!(network.num_firing(), 3);
    assert_eq!(network.get_firing_states(), vec![true, true, false, true, false]);
    assert_eq!(network.neurons[0].last_fire_time, Some(1));
    assert_eq!(network.neurons[2].last_fire_time, None);
}

#[test]
fn network_neurons_respect_refractory_period() {
    let mut network = Network::new(2, ConnectivityType::FullyConnected, 0);
    let mut fired = Vec::new();
    for _ in 0..12 {
        network.advance_time_step();
        network.decide_firing(&vec![true, false]);
        fired.push(network.neurons[0].is_firing);
    }
    // ticks 1..=12: fires on 1, 6, 11
    let ticks: Vec<usize> = (0..12).filter(|&k| fired[k]).map(|k| k + 1).collect();
    assert_eq!(ticks, vec![1, 6, 11]);
    assert!(!network.neurons[1].is_firing);
}
