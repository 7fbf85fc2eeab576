pub mod text;
pub mod json;
pub mod env;
pub mod config;
pub mod encoding;
pub mod node_runtime;
pub mod ui;
pub mod node;
pub mod settings;
pub mod logging;
pub mod frames;
pub mod crypto;
pub mod sync;
pub mod gateway_rpc;
pub mod gateway_process;
pub mod ui_logic;
pub mod onboarding;
