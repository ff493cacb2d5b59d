//! A keychain for post-quantum key material: the catalogue of algorithms, the
//! naming of key files, and the workflows of an interactive session, each as a
//! state machine that a driver feeds with the outcome of what it was asked to do.

pub mod encrypt;
pub mod error;
pub mod keygen;
pub mod persistence;
pub mod protocol;
pub mod registry;
pub mod session;
pub mod text;
pub mod wording;
