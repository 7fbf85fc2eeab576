pub mod caps;
pub mod permissions;
pub mod runtime;
pub mod session;
pub mod controller;
