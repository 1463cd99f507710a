//! Supervisor for an embedded PlantUML server child process.
//!
//! The crate holds the decision logic of the supervisor: allocating a port,
//! choosing the Java binary and the PlantUML payload, building the launch
//! command line, judging readiness from port observations, and tracking the
//! single recorded child. All operating-system work (binding probe sockets,
//! spawning, signalling, sleeping) is done by the embedding application,
//! which feeds the observed outcomes into these functions.

pub mod launch;
pub mod paths;
pub mod ports;
pub mod probe;
pub mod status;
pub mod supervisor;
pub mod text;
