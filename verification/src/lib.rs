//! Core services for a USB Type-C / Power Delivery embedded controller:
//! a typed endpoint message bus and a power-capability derivation engine.

pub mod pdo;
pub mod power;
pub mod transport;
pub mod type_c;
