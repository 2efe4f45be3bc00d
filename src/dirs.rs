//! Directory creation that treats an existing directory as success.
use crate::error::Error;
use vstd::prelude::*;

verus! {

/// Relies on `std::io::Error::kind`: tells whether the error is of kind
/// `AlreadyExists`. Nothing about the opaque error is stated.
#[verifier::external_body]
fn is_already_exists(e: &std::io::Error) -> (r: bool) {
    e.kind() == std::io::ErrorKind::AlreadyExists
}

/// Settles the outcome of creating a directory with all its missing
/// ancestors, given whether a failure says that the directory exists:
/// success and "already exists" are success, any other failure is an I/O
/// error that carries it.
pub fn settle_dir_creation(outcome: Result<(), std::io::Error>, already_exists: bool) -> (r:
    Result<(), Error>)
    ensures
        outcome is Ok ==> r is Ok,
        outcome is Err && already_exists ==> r is Ok,
        outcome is Err && !already_exists ==> r == Err::<(), Error>(Error::Io(outcome->Err_0)),
{
    match outcome {
        Ok(()) => Ok(()),
        Err(e) => {
            if already_exists {
                Ok(())
            } else {
                Err(Error::Io(e))
            }
        },
    }
}

/// The result of creating a directory with all its missing ancestors, from
/// what the filesystem reported: a failure is passed on as an I/O error
/// unless it says that the directory exists already.
pub fn dir_creation_result(outcome: Result<(), std::io::Error>) -> (r: Result<(), Error>)
    ensures
        outcome is Ok ==> r is Ok,
        r is Err ==> outcome is Err && r == Err::<(), Error>(Error::Io(outcome->Err_0)),
{
    match outcome {
        Ok(()) => Ok(()),
        Err(e) => {
            let exists = is_already_exists(&e);
            settle_dir_creation(Err(e), exists)
        },
    }
}

} // verus!
