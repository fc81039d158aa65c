//! Orchestration of a bulk import of a transit feed and a demographic dataset
//! into a property-graph store: the stage catalog, the statements it issues,
//! and the run controller that sequences them.

pub mod error;
pub mod text;
pub mod duration;
pub mod catalog;
pub mod statement;
pub mod datasets;
pub mod run;
pub mod progress;
