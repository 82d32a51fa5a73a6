//! Decision logic of the Lokoda music-networking backend: the data it
//! exchanges, how group conversations are built, listed and written to,
//! how a message is delivered and a group is populated, how passwords are
//! hashed and checked, and which reply every endpoint gives.
//!
//! Database, session and HTTP work is done by the caller; the functions
//! here take what that work returned and say what happens next.

pub mod delivery;
pub mod email;
pub mod enrollment;
pub mod group;
pub mod guid;
pub mod models;
pub mod password;
pub mod register;
pub mod reply;
