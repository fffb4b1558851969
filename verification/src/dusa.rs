//! The modes of the encryption service's client. The service itself is
//! a black box behind a local socket; only the choice of operation is
//! the platform's own.

use vstd::prelude::*;

verus! {

/// What the encryption service is asked to do.
#[derive(Debug, Clone, Copy, PartialEq, Eq, Structural)]
pub enum ProgramMode {
    StoreFile,
    RetrieveFile,
    EncryptText,
    DecryptText,
    RemoveFile,
}

} // verus!
