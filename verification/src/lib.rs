//! A bus-master contract for the 1-Wire protocol: a single-conductor,
//! half-duplex bus on which one master addresses slave devices identified
//! by a 64-bit ROM identifier.
//!
//! The wire-level protocol is defined once, as a state machine over an
//! abstract bus model ([`model`]), and every operation of the bus-master
//! traits is specified against that one definition.  The traits come in
//! two suspension disciplines — immediate ([`onewire`]) and poll-driven
//! ([`onewire_nb`]) — whose contracts differ only in how a caller
//! observes "not yet complete"; [`blocking`] derives the immediate
//! flavor from any poll-driven master.  A simulated backend ([`sim`])
//! realizes the contract and records the wire activity it performs,
//! and [`digital`] holds the two generations of the digital pin
//! interface with their compatibility shim.

pub mod blocking;
pub mod digital;
pub mod model;
pub mod onewire;
pub mod onewire_nb;
pub mod sim;
