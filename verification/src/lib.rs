//! Launch-command construction for the MATLAB language server.
//!
//! The host editor hands over the identifier of the server it wants and the
//! `binary` settings block it found for it; the library answers with the
//! process to start (executable, arguments, environment) or with the reason
//! why none can be started.

pub mod text;
pub mod settings;
pub mod launch;
pub mod options;
pub mod guarantees;
