//! Security Manager pairing engine for a Bluetooth Low Energy peripheral.
//!
//! The engine answers the LE Secure Connections handshake (Bluetooth Core,
//! Vol 3, Part H): pairing request, public-key exchange, commitment, nonce
//! exchange, key derivation, and the closing DHKey check. Every function here
//! carries a contract that is proved; the primitives taken from other crates
//! (P-256, AES-CMAC, the random source, bit ranges) are marked as trusted where
//! they enter.

pub mod bytes;
pub mod engine;
pub mod frame;
pub mod laws;
pub mod pdu;
pub mod primitives;
pub mod session;
pub mod sm;
pub mod toolbox;

