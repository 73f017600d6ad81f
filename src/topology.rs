//! Static connectivity of a population: fully connected, or a square grid
//! with 8-neighbour (Moore) adjacency and clipped borders.
use vstd::prelude::*;

verus! {

/// Topology of a network.
#[derive(Debug, Clone, Copy, PartialEq, Eq, Structural)]
pub enum ConnectivityType {
    /// Every neuron reads every neuron, itself included.
    FullyConnected,
    /// Neurons on a square grid read their up to eight neighbours.
    Grid2D,
}

/// `side` is the ceiling of the square root of `n`: the smallest side whose
/// square holds `n` cells.
pub open spec fn is_grid_side(n: nat, side: nat) -> bool {
    &&& n <= side * side
    &&& side > 0 ==> (side - 1) * (side - 1) < n
}

/// Side of the smallest square grid that holds `n` neurons.
pub fn grid_side(n: usize) -> (side: usize)
    ensures
        is_grid_side(n as nat, side as nat),
{
    let mut side: usize = 0;
    loop
        invariant
            side <= n,
            side > 0 ==> (side - 1) * (side - 1) < n,
        decreases n - side,
    {
        assert((side as int) * (side as int) <= u128::MAX) by (nonlinear_arith)
            requires side <= usize::MAX, usize::MAX < 0x1_0000_0000_0000_0000int;
        if (side as u128) * (side as u128) >= n as u128 {
            return side;
        }
        assert(side < n) by (nonlinear_arith)
            requires (side as int) * (side as int) < n as int, side <= n;
        side = side + 1;
    }
}

/// Distance between two integers.
pub open spec fn abs_diff(a: int, b: int) -> int {
    if a >= b {
        a - b
    } else {
        b - a
    }
}

/// On a grid `width` cells wide whose first `n` cells hold neurons, `j` is
/// one of the up to eight cells around `i` (never `i` itself).
pub open spec fn grid_adjacent(width: int, n: int, i: int, j: int) -> bool {
    &&& 0 <= j < n
    &&& j != i
    &&& abs_diff(i / width, j / width) <= 1
    &&& abs_diff(i % width, j % width) <= 1
}

/// Neuron `i` reads the previous output of neuron `j` under the topology.
pub open spec fn connected(kind: ConnectivityType, width: int, n: int, i: int, j: int) -> bool {
    match kind {
        ConnectivityType::FullyConnected => 0 <= j < n,
        ConnectivityType::Grid2D => grid_adjacent(width, n, i, j),
    }
}

/// Entry of an adjacency matrix: 1 where connected, 0 elsewhere.
pub open spec fn link(c: bool) -> u8 {
    if c {
        1
    } else {
        0
    }
}

/// `m` is the `n`-by-`n` adjacency matrix of the topology: `m[i][j]` is 1
/// exactly when neuron `i` reads neuron `j`.
pub open spec fn is_adjacency(
    m: Seq<Vec<u8>>,
    kind: ConnectivityType,
    width: int,
    n: int,
) -> bool {
    &&& m.len() == n
    &&& forall|i: int| 0 <= i < n ==> (#[trigger] m[i])@.len() == n
    &&& forall|i: int, j: int|
        0 <= i < n && 0 <= j < n ==> (#[trigger] m[i]@[j]) == link(connected(kind, width, n, i, j))
}

/// Whether `j` lies in the Moore neighbourhood of `i` on a grid `width` wide.
fn is_grid_neighbor(width: usize, i: usize, j: usize) -> (r: bool)
    requires
        width > 0,
    ensures
        r == (j != i && abs_diff(i as int / width as int, j as int / width as int) <= 1
            && abs_diff(i as int % width as int, j as int % width as int) <= 1),
{
    let (row_i, col_i) = (i / width, i % width);
    let (row_j, col_j) = (j / width, j % width);
    let dr = if row_i >= row_j {
        row_i - row_j
    } else {
        row_j - row_i
    };
    let dc = if col_i >= col_j {
        col_i - col_j
    } else {
        col_j - col_i
    };
    j != i && dr <= 1 && dc <= 1
}

/// Row `i` of the adjacency matrix of the topology.
fn adjacency_row(n: usize, kind: ConnectivityType, width: usize, i: usize) -> (row: Vec<u8>)
    requires
        kind == ConnectivityType::Grid2D ==> width > 0,
    ensures
        row@.len() == n,
        forall|j: int|
            0 <= j < n ==> #[trigger] row@[j] == link(
                connected(kind, width as int, n as int, i as int, j),
            ),
{
    let mut row: Vec<u8> = Vec::with_capacity(n);
    for j in 0..n
        invariant
            kind == ConnectivityType::Grid2D ==> width > 0,
            row@.len() == j,
            forall|k: int|
                0 <= k < j ==> #[trigger] row@[k] == link(
                    connected(kind, width as int, n as int, i as int, k),
                ),
    {
        let c = match kind {
            ConnectivityType::FullyConnected => true,
            ConnectivityType::Grid2D => is_grid_neighbor(width, i, j),
        };
        row.push(if c {
            1
        } else {
            0
        });
    }
    row
}

/// Adjacency matrix of `num_neurons` neurons under the topology; `grid_width`
/// is the grid's side and is read under `Grid2D` only.
pub fn generate_connectivity(
    num_neurons: usize,
    connectivity_type: ConnectivityType,
    grid_width: usize,
) -> (m: Vec<Vec<u8>>)
    requires
        connectivity_type == ConnectivityType::Grid2D ==> num_neurons <= grid_width * grid_width,
    ensures
        is_adjacency(m@, connectivity_type, grid_width as int, num_neurons as int),
{
    if connectivity_type == ConnectivityType::Grid2D && num_neurons > 0 {
        assert(grid_width > 0) by (nonlinear_arith)
            requires num_neurons <= grid_width * grid_width, num_neurons > 0;
    }
    let mut m: Vec<Vec<u8>> = Vec::with_capacity(num_neurons);
    for i in 0..num_neurons
        invariant
            connectivity_type == ConnectivityType::Grid2D && num_neurons > 0 ==> grid_width > 0,
            m@.len() == i,
            forall|k: int| 0 <= k < i ==> (#[trigger] m@[k])@.len() == num_neurons,
            forall|k: int, j: int|
                0 <= k < i && 0 <= j < num_neurons ==> (#[trigger] m@[k]@[j]) == link(
                    connected(connectivity_type, grid_width as int, num_neurons as int, k, j),
                ),
    {
        let row = adjacency_row(num_neurons, connectivity_type, grid_width, i);
        m.push(row);
    }
    m
}

} // verus!
