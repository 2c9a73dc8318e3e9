use vstd::prelude::*;

verus! {

/// Why a key pair was not removed.
pub enum RemoveError {
    /// The user's home directory could not be found.
    NoHomeDirectory,
    /// No private key file of that name is in the store; the name.
    NotFound(String),
    /// The private key file could not be deleted; its name and the reason.
    PrivateDeleteFailed(String, String),
}

impl RemoveError {
    /// The text shown to the user.
    pub fn message(&self) -> (r: String)
        ensures
            match self {
                RemoveError::NoHomeDirectory => r@ == "Could not find home directory"@,
                RemoveError::NotFound(b) => r@ == "SSH key '"@ + b@ + "' not found"@,
                RemoveError::PrivateDeleteFailed(b, e) => r@ == "Failed to remove private key '"@
                    + b@ + "': "@ + e@,
            },
    {
        match self {
            RemoveError::NoHomeDirectory => String::from_str("Could not find home directory"),
            RemoveError::NotFound(b) => String::from_str("SSH key '").concat(b.as_str()).concat(
                "' not found",
            ),
            RemoveError::PrivateDeleteFailed(b, e) => String::from_str(
                "Failed to remove private key '",
            ).concat(b.as_str()).concat("': ").concat(e.as_str()),
        }
    }
}

/// Whether a removal may go on, given whether the private key file is in the
/// store: without it nothing is touched.
pub fn check_key_removal(basename: &str, private_exists: bool) -> (r: Result<(), RemoveError>)
    ensures
        private_exists <==> r is Ok,
        !private_exists ==> match r {
            Err(RemoveError::NotFound(b)) => b@ == basename@,
            _ => false,
        },
{
    if private_exists {
        Ok(())
    } else {
        Err(RemoveError::NotFound(String::from_str(basename)))
    }
}

/// Whether a removal goes on after deleting the private key file: a failure
/// there ends it.
pub fn private_key_removed(basename: &str, deletion: Result<(), String>) -> (r: Result<
    (),
    RemoveError,
>)
    ensures
        deletion is Ok <==> r is Ok,
        deletion is Err ==> match r {
            Err(RemoveError::PrivateDeleteFailed(b, e)) => b@ == basename@ && e@ == deletion->Err_0@,
            _ => false,
        },
{
    match deletion {
        Ok(()) => Ok(()),
        Err(e) => Err(RemoveError::PrivateDeleteFailed(String::from_str(basename), e)),
    }
}

/// What became of the public key file once the private one was deleted.
pub enum PublicKeyRemoval {
    /// There was no public key file.
    Absent,
    Removed,
    /// It could not be deleted; the reason.
    Failed(String),
}

/// The outcome of a removal whose private key file was deleted.
pub struct RemovalReport {
    /// The confirmation shown to the user.
    pub message: String,
    /// Where the public key file could not be deleted, the warning to record.
    pub warning: Option<String>,
}

/// The report of a removal whose private key file was deleted. It is a
/// success whatever became of the public key file; a failure to delete that
/// file is only a warning.
pub fn key_removal_report(basename: &str, public: &PublicKeyRemoval) -> (r: RemovalReport)
    ensures
        r.message@ == "SSH key '"@ + basename@ + "' removed successfully"@,
        r.warning is Some <==> public is Failed,
        r.warning is Some ==> r.warning->0@ == "Warning: Failed to remove public key '"@ + basename@
            + ".pub': "@ + public->Failed_0@,
{
    let message = String::from_str("SSH key '").concat(basename).concat("' removed successfully");
    let warning = match public {
        PublicKeyRemoval::Failed(e) => Some(
            String::from_str("Warning: Failed to remove public key '").concat(basename).concat(
                ".pub': ",
            ).concat(e.as_str()),
        ),
        _ => None,
    };
    RemovalReport { message, warning }
}

} // verus!
