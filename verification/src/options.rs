//! Run parameters of the worker, fixed when it is launched.

use vstd::prelude::*;

verus! {

/// How piece movement is generated for candidate placements.
#[derive(Copy, Clone, Debug, PartialEq, Eq, Structural)]
pub enum MovementMode {
    /// Gravity-free movement: every reachable placement is considered.
    ZeroG,
    /// Pieces fall to the stack at once; only ground movement is considered.
    TwentyG,
    /// Placements reachable by moving, rotating and hard dropping only.
    HardDropOnly,
}

/// The worker's configuration.
#[derive(Copy, Clone, Debug)]
pub struct Options {
    pub mode: MovementMode,
    pub use_hold: bool,
    pub speculate: bool,
    /// A move is committed only once the search holds more nodes than this.
    pub min_nodes: usize,
    /// The search stops growing once it holds this many nodes.
    pub max_nodes: usize,
}

impl Options {
    /// The quality floor does not lie above the compute ceiling.
    pub open spec fn well_formed(&self) -> bool {
        self.min_nodes <= self.max_nodes
    }

    /// Tells whether the floor and the ceiling are in order.
    pub fn is_well_formed(&self) -> (ok: bool)
        ensures
            ok == self.well_formed(),
    {
        self.min_nodes <= self.max_nodes
    }
}

impl Default for Options {
    fn default() -> (options: Options)
        ensures
            options.mode == MovementMode::ZeroG,
            options.use_hold,
            options.speculate,
            options.min_nodes == 0,
            options.max_nodes == usize::MAX,
            options.well_formed(),
    {
        Options {
            mode: MovementMode::ZeroG,
            use_hold: true,
            speculate: true,
            min_nodes: 0,
            max_nodes: usize::MAX,
        }
    }
}

} // verus!
