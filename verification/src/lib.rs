//! Route visualization overlay for a map/simulation editor.
//!
//! The heart of the crate is a small state machine that decides, once per
//! interaction step, whether to show one trip's route, every live trip's
//! route, or nothing, and when a cached route trace has gone stale and must
//! be queried again. The simulation, input source and renderer are outside
//! collaborators: the machine sees them only as plain-value snapshots, and
//! hands back the traces to draw.

pub mod ids;
pub mod sim_view;
pub mod state;
pub mod laws;
