//! Plain-valued logic of a 2D obstacle-avoidance benchmark: the obstacle
//! descriptors that scenarios are built from, feeler arrangements, selection
//! of the nearest interaction, and the recording of timed batches.

pub mod obstacles;
pub mod selection;
pub mod feelers;
pub mod bench;
