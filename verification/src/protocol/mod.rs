//! What each device understands.
pub mod crafty;
pub mod crafty_laws;
pub mod dummy;
pub mod dummy_laws;
pub mod support;
pub mod venty;
pub mod venty_laws;
pub mod venty_log;
pub mod volcano;
pub mod volcano_laws;

pub use crafty::Crafty;
pub use dummy::DummyDevice;
pub use venty::Venty;
pub use volcano::VolcanoHybrid;
