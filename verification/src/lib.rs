//! Supervisor for a local backend server process.
//!
//! The library holds the decision logic of a desktop shell's backend
//! supervisor: choosing a TCP port for the backend to bind, generating the
//! bearer token shared with it, resolving candidate launch paths, polling
//! for readiness, and driving a bounded retry loop until the backend is
//! reachable or all attempts are spent.  The operating-system work itself
//! (spawning the child, connecting to the port, sleeping) is performed by
//! the embedding binary, which feeds its observations back into the state
//! machines defined here.

pub mod token;
pub mod url;
pub mod port;
pub mod probe;
pub mod resolver;
pub mod supervisor;
