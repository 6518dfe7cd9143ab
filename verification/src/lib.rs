//! Control of Storz & Bickel vaporizers over Bluetooth Low Energy.
//!
//! Supports **Volcano Hybrid**, **Venty**, **Veazy**, and **Crafty+**.
//!
//! The library holds what is decided and computed: the protocols of the devices, the workflow
//! runner, discovery, the connection manager, and the logic of the daemon, the command line and
//! the tool server. What talks to Bluetooth, to the network and to the user is built around it.
//!
//! | Feature | Volcano | Venty/Veazy | Crafty |
//! |---|---|---|---|
//! | Temperature control | ✓ | ✓ | ✓ |
//! | Heater on/off | ✓ | ✓ | ✓ |
//! | Pump on/off | ✓ | — | — |
//! | Brightness | ✓ | ✓ | ✓ |
//! | Vibration | ✓ | ✓ | — |
//! | Boost temperature | — | ✓ | ✓ |
//! | Auto-shutdown timer | ✓ | ✓ | — |
//! | Factory reset | — | ✓ | ✓ |
//! | Device info (serial, firmware) | ✓ | ✓ | ✓ |
//! | Workflow automation | ✓ | — | — |
pub mod accuracy;
pub mod cli;
pub mod cli_laws;
pub mod cli_output;
pub mod cli_workflow;
pub mod connection_laws;
pub mod daemon;
pub mod detection;
pub mod device;
pub mod discovery;
pub mod error;
pub mod gatt;
pub mod http_client;
pub mod http_laws;
pub mod json;
pub mod manager;
pub mod mcp;
pub mod output_laws;
pub mod protocol;
pub mod requests;
pub mod requests_laws;
pub mod rounding;
pub mod scan;
pub mod shown;
pub mod single;
pub mod single_laws;
pub mod text;
pub mod utils;
pub mod uuids;
pub mod wait;
pub mod workflow;
pub mod workflow_laws;

pub use detection::detect_model;
pub use device::{DeviceInfo, DeviceModel, DeviceState, HeaterMode};
pub use discovery::{discover_vaporizers, select_peripheral};
pub use error::StorzError;
pub use http_client::HttpDevice;
pub use manager::DeviceManager;
pub use protocol::{Crafty, Venty, VolcanoHybrid};
pub use workflow::{Workflow, WorkflowRunner, WorkflowState, WorkflowStep};
