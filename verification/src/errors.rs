use vstd::prelude::*;

verus! {

/// The failures a start or stop attempt can surface to its caller.
///
/// Every failure is terminal for that attempt: nothing here is retried.
#[derive(Debug, Clone, PartialEq, Eq)]
pub enum ServerError {
    /// No stored account is eligible to supply a credential; the start is
    /// refused before any process is spawned.
    EmptyCredentials,
    /// The worker could not be launched; carries the underlying message.
    SpawnFailure(String),
}

impl ServerError {
    /// A user-facing description of the failure.
    pub fn message(&self) -> (r: String)
        ensures
            *self is EmptyCredentials ==> r@ == "no eligible accounts; add an account before starting the server"@,
            self matches ServerError::SpawnFailure(m) ==> r@ == m@,
    {
        match self {
            ServerError::EmptyCredentials => "no eligible accounts; add an account before starting the server".to_owned(),
            ServerError::SpawnFailure(m) => m.clone(),
        }
    }
}

} // verus!
