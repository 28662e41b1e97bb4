//! What can go wrong, and what is said about it.

use object_store::Error as ObjectStoreError;
use serde_json::Error as JsonError;
use vstd::prelude::*;
use vstd::std_specs::convert::FromSpecImpl;
use vstd::string::*;

verus! {

/// `object_store::Error`, carried along unopened.
#[verifier::external_type_specification]
#[verifier::external_body]
pub struct ExObjectStoreError(ObjectStoreError);

/// `serde_json::Error`, carried along unopened.
#[verifier::external_type_specification]
#[verifier::external_body]
pub struct ExJsonError(JsonError);

/// A failure of the object store, by the kinds that the decisions tell apart.
#[derive(Debug)]
pub enum StoreError {
    /// There is no object at the path.
    NotFound(ObjectStoreError),
    /// A write that must create the object found one.
    AlreadyExists(ObjectStoreError),
    /// A write that must replace a given version found another.
    Precondition(ObjectStoreError),
    /// Anything else.
    Other(ObjectStoreError),
}

impl StoreError {
    /// The failure as the store reported it.
    pub open spec fn cause(self) -> ObjectStoreError {
        match self {
            StoreError::NotFound(e) => e,
            StoreError::AlreadyExists(e) => e,
            StoreError::Precondition(e) => e,
            StoreError::Other(e) => e,
        }
    }

    /// A conditional write was refused because its condition did not hold.
    pub open spec fn is_lost_race(self) -> bool {
        self is AlreadyExists || self is Precondition
    }

    pub fn into_cause(self) -> (cause: ObjectStoreError)
        ensures
            cause == self.cause(),
    {
        match self {
            StoreError::NotFound(e) => e,
            StoreError::AlreadyExists(e) => e,
            StoreError::Precondition(e) => e,
            StoreError::Other(e) => e,
        }
    }
}

#[derive(Debug)]
pub enum Error {
    /// The object store failed.
    Store(ObjectStoreError),
    /// A stored document could not be written or read as JSON.
    Json(JsonError),
    /// Lost a conditional-write race to another node.
    Conflict,
    /// The backend returned no ETag after a write, which is required for
    /// conditional renewal. Use a backend that supports ETags (S3, GCS, Azure Blob).
    NoEtag,
    /// The lockfile is absent or its embedded TTL has expired; no current leader.
    NoLeader,
}

impl Error {
    /// The message of this error, where `cause` is the message of the error that
    /// it carries.
    pub open spec fn message(self, cause: Seq<char>) -> Seq<char> {
        match self {
            Error::Store(_) => "object store: "@ + cause,
            Error::Json(_) => "serialization: "@ + cause,
            Error::Conflict => "conditional write conflict"@,
            Error::NoEtag => "backend returned no ETag (required for conditional writes)"@,
            Error::NoLeader => "no current leader"@,
        }
    }

    /// What to tell a person about this error; `cause` is the message of the
    /// error that it carries, and is left out where it carries none.
    pub fn describe(&self, cause: &str) -> (text: String)
        ensures
            text@ == self.message(cause@),
    {
        match self {
            Error::Store(_) => "object store: ".to_owned().concat(cause),
            Error::Json(_) => "serialization: ".to_owned().concat(cause),
            Error::Conflict => "conditional write conflict".to_owned(),
            Error::NoEtag => "backend returned no ETag (required for conditional writes)".to_owned(),
            Error::NoLeader => "no current leader".to_owned(),
        }
    }
}

impl From<ObjectStoreError> for Error {
    fn from(e: ObjectStoreError) -> (error: Error) {
        Error::Store(e)
    }
}

impl FromSpecImpl<ObjectStoreError> for Error {
    open spec fn obeys_from_spec() -> bool {
        true
    }

    open spec fn from_spec(e: ObjectStoreError) -> Error {
        Error::Store(e)
    }
}

impl From<JsonError> for Error {
    fn from(e: JsonError) -> (error: Error) {
        Error::Json(e)
    }
}

impl FromSpecImpl<JsonError> for Error {
    open spec fn obeys_from_spec() -> bool {
        true
    }

    open spec fn from_spec(e: JsonError) -> Error {
        Error::Json(e)
    }
}

/// What a request to the leader can fail with; separates leader-discovery
/// failures from transport-layer failures.
#[derive(Debug)]
pub enum LeaderError<E> {
    /// Could not determine the current leader (lockfile absent, expired, or
    /// unreadable). Inner value is the underlying [`Error`].
    Discovery(Error),
    /// The transport returned an error after the leader address was resolved.
    Transport(E),
}

impl<E> LeaderError<E> {
    /// The message of this error, where `cause` is the message of the error that
    /// it carries.
    pub open spec fn message(self, cause: Seq<char>) -> Seq<char> {
        match self {
            LeaderError::Discovery(_) => "leader discovery: "@ + cause,
            LeaderError::Transport(_) => "transport: "@ + cause,
        }
    }

    /// What to tell a person about this error; `cause` is the message of the
    /// error that it carries.
    pub fn describe(&self, cause: &str) -> (text: String)
        ensures
            text@ == self.message(cause@),
    {
        match self {
            LeaderError::Discovery(_) => "leader discovery: ".to_owned().concat(cause),
            LeaderError::Transport(_) => "transport: ".to_owned().concat(cause),
        }
    }
}

/// The message of an error says of what kind it is, and then all that the error it
/// carries has to say; where it carries none, what is handed in does not matter.
pub proof fn law_message_ends_with_the_cause(error: Error, cause: &str, text: String)
    requires
        call_ensures(Error::describe, (&error, cause), text),
    ensures
        match error {
            Error::Store(_) => text@ == "object store: "@ + cause@,
            Error::Json(_) => text@ == "serialization: "@ + cause@,
            Error::Conflict => text@ == "conditional write conflict"@,
            Error::NoEtag => text@
                == "backend returned no ETag (required for conditional writes)"@,
            Error::NoLeader => text@ == "no current leader"@,
        },
{
}

/// The message of a failed request says at which end it failed, and then all that the
/// error it carries has to say.
pub proof fn law_request_message_ends_with_the_cause<E>(
    error: LeaderError<E>,
    cause: &str,
    text: String,
)
    requires
        call_ensures(LeaderError::<E>::describe, (&error, cause), text),
    ensures
        match error {
            LeaderError::Discovery(_) => text@ == "leader discovery: "@ + cause@,
            LeaderError::Transport(_) => text@ == "transport: "@ + cause@,
        },
{
}

/// A failure of the store keeps the error that the store reported, whatever its kind;
/// a race was lost exactly when a write found the file there that must not be, or not
/// the version that must be.
pub proof fn law_store_failure_keeps_its_cause(
    failure: StoreError,
    reported: ObjectStoreError,
    cause: ObjectStoreError,
)
    requires
        call_ensures(StoreError::into_cause, (failure,), cause),
        failure == StoreError::NotFound(reported) || failure == StoreError::AlreadyExists(reported)
            || failure == StoreError::Precondition(reported) || failure == StoreError::Other(
            reported,
        ),
    ensures
        cause == reported,
        failure.cause() == reported,
        failure.is_lost_race() <==> failure == StoreError::AlreadyExists(reported) || failure
            == StoreError::Precondition(reported),
{
}

} // verus!
