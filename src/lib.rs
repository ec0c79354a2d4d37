//! Coordination of a fleet of vehicles: formation missions, the plan
//! documents built from them, the connection set, and the shared state of a run.
pub mod geo;
pub mod plan;
pub mod formation;
pub mod app;
pub mod run_mode;
pub mod manager;
