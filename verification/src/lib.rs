//! AES-CBC file encryption with PKCS#7 padding.
//!
//! The crate encrypts a byte buffer under a 128-, 192- or 256-bit key, decrypts
//! it again, and drives the run that ties key generation, initialization vector
//! entry, encryption and the self-checking decryption together.
//!
//! - `key`: key strengths, random keys, the initialization vector phrase.
//! - `padding`: PKCS#7 padding and its removal.
//! - `cipher`: encryption and decryption of a message.
//! - `pipeline`: the run as a state machine, for a driver that does the
//!   prompting and the file access.
//! - `report`: what a run tells its user.
//! - `error`: the failures.
//!
//! Every function carries a contract that Verus proves.  Three things are
//! taken on trust from other crates, each behind a private function whose
//! contract says what is assumed: the chained block cipher (`block-modes` over
//! `aes`, in `cipher`), the operating system's random bytes (`rand`, in `key`),
//! and hexadecimal encoding (`hex`, in `report`).

pub mod cipher;
pub mod error;
pub mod key;
pub mod padding;
pub mod pipeline;
pub mod report;
