//! Monitoring library for Apple/Beats wireless earphone accessories.
//!
//! The crate holds the verified core of a monitoring daemon: the binary
//! protocol codec (battery, ear-cover and noise-control reports, and the
//! outbound command frames), the per-device session state machine with its
//! idle-disconnect bookkeeping, the watch registry that prevents duplicate
//! sessions, and the configuration rules. Transport, notification and tray
//! plumbing live outside the library and hand it plain values.

pub mod codec;
pub mod config;
pub mod registry;
pub mod session;
pub mod state;

pub use state::ABBattery;
pub use state::ABBatteryState;
pub use state::ABDevice;
pub use state::Anc;
pub use state::BatterySlot;
pub use state::EarCoverState;
