//! An order service built around ports: the service decides, and what it
//! needs from the outside (storage, payment, notification) it reaches through
//! traits that adapters implement.
pub mod domain;
pub mod ports;
pub mod application;
pub mod in_memory;
pub mod external;
