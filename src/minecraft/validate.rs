//! The integrity check: the local installation's checksum against the
//! server's reference checksum.
use vstd::prelude::*;
use crate::download::{is_success, status_is_success};

verus! {

/// Why the check could not be made.
#[derive(Debug, Clone, PartialEq, Eq)]
pub enum ValidationError {
    /// The local checksum could not be computed.
    Checksum(String),
    /// The reference checksum could not be fetched.
    Network(String),
    /// The server answered the reference request with a status other than 2xx.
    Server(u16),
}

/// Decides whether the installation is current, from the local checksum
/// (or why it could not be computed) and the server's answer (its status
/// and text, or why the request failed). It is current exactly when the two
/// checksums are equal texts; a failure in either step is an error, never
/// "stale".
pub fn is_valid_files(local_checksum: Result<String, String>, reference: Result<(u16, String), String>) -> (r: Result<bool, ValidationError>)
    ensures
        local_checksum is Err ==> r == Err::<bool, ValidationError>(
            ValidationError::Checksum(local_checksum->Err_0),
        ),
        local_checksum is Ok && reference is Err ==> r == Err::<bool, ValidationError>(
            ValidationError::Network(reference->Err_0),
        ),
        local_checksum is Ok && reference is Ok && !is_success(reference->Ok_0.0) ==> r == Err::<
            bool,
            ValidationError,
        >(ValidationError::Server(reference->Ok_0.0)),
        local_checksum is Ok && reference is Ok && is_success(reference->Ok_0.0) ==> r == Ok::<
            bool,
            ValidationError,
        >(local_checksum->Ok_0@ == reference->Ok_0.1@),
{
    let local = match local_checksum {
        Err(e) => return Err(ValidationError::Checksum(e)),
        Ok(c) => c,
    };
    let (status, text) = match reference {
        Err(e) => return Err(ValidationError::Network(e)),
        Ok(answer) => answer,
    };
    if !status_is_success(status) {
        return Err(ValidationError::Server(status));
    }
    Ok(local == text)
}

} // verus!
