//! Bridge from a live vehicle-simulation state to an instrument-panel
//! controller: the vehicle state model, the change-detection engine that
//! picks the fields to re-transmit, the binary command codec of the KOMSI
//! wire protocol, and the per-cycle decisions of the transmission loop.

pub mod cycle;
pub mod komsi;
pub mod vehicle;
