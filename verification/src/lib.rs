//! Dynamic-DNS reconciliation: the decisions of one reconciliation cycle and
//! of the periodic runner that drives it, as verified state machines over
//! plain values. The caller performs the HTTP requests that the machines ask
//! for and hands the replies back.

pub mod model;
pub mod endpoints;
pub mod plan;
pub mod address;
pub mod cycle;
pub mod replies;
pub mod runs;
pub mod schedule;
