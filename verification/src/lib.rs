//! A minimal point-to-point transport that carries APDU command/response
//! pairs between a host application and a hardware-device emulator behind a
//! local TCP endpoint.
//!
//! The verified core is the wire protocol itself: the length-prefixed
//! framing of a command, the interpretation of the single bounded read
//! attempt that fetches the response, and the error taxonomy that surfaces
//! transport failures. The socket work around it — connecting, writing the
//! frame, waiting for readability, performing the read — is asynchronous
//! input/output that a thin unverified shell drives, handing every outcome
//! back to the functions here for the decisions.

pub mod apdu;
pub mod errors;
pub mod frame;
pub mod protocol;
