use redis::RedisError;
use vstd::prelude::*;
use vstd::std_specs::convert::FromSpec;

verus! {

/// Makes `redis::RedisError` known to the verifier as an opaque type: a value
/// of it can be held, moved and compared for identity in contracts, and nothing
/// is claimed about what is inside.
#[verifier::external_type_specification]
#[verifier::external_body]
pub struct ExRedisError(redis::RedisError);

/// Common error type of the graph client.
///
/// The set of variants is closed and flat: every failure is exactly one of the
/// seven, and the only nesting is the driver error held by `RedisError`. The two
/// variants that carry text own it.
#[derive(Debug)]
pub enum RedisGraphError {
    /// Any error originating from the `redis` driver (network, protocol,
    /// authentication and so on), carried as it was received.
    RedisError(RedisError),
    /// The database answered with a shape the client did not expect.
    ///
    /// This is a broken contract between client and server and points to a bug
    /// in one of them; it is never a condition a user is meant to run into.
    ServerTypeError(String),
    /// The caller asked for the data as a type that does not fit what the
    /// database returned, such as a number where the result was a string.
    ///
    /// This is the one kind that callers are expected to handle routinely.
    ClientTypeError(String),
    /// A label name has no entry in the graph's label registry.
    ///
    /// The client deals with this itself; it should never reach a caller.
    LabelNotFound,
    /// A relationship type name has no entry in the graph's registry.
    ///
    /// The client deals with this itself; it should never reach a caller.
    RelationshipTypeNotFound,
    /// A property key name has no entry in the graph's registry.
    ///
    /// The client deals with this itself; it should never reach a caller.
    PropertyKeyNotFound,
    /// A text value was requested and the bytes that the database returned are
    /// not valid UTF-8.
    InvalidUtf8,
}

/// Common result type of the graph client: the value of a fallible operation,
/// or the one error that made it fail.
pub type RedisGraphResult<T> = Result<T, RedisGraphError>;

impl vstd::std_specs::convert::FromSpecImpl<RedisError> for RedisGraphError {
    open spec fn obeys_from_spec() -> bool {
        true
    }

    open spec fn from_spec(error: RedisError) -> RedisGraphError {
        RedisGraphError::RedisError(error)
    }
}

impl From<RedisError> for RedisGraphError {
    /// Wraps a driver error without touching it. This is the conversion that
    /// `?` applies wherever a driver result is returned as a
    /// [`RedisGraphResult`].
    fn from(error: RedisError) -> (wrapped: RedisGraphError)
        ensures
            wrapped == RedisGraphError::RedisError(error),
    {
        RedisGraphError::RedisError(error)
    }
}

/// Builds the failing result of a server-side shape mismatch in one step: the
/// result is the `Err` that holds `ServerTypeError` with `message` as given,
/// ready to be returned from the place that saw the mismatch.
pub fn server_type_error<T>(message: String) -> (failure: RedisGraphResult<T>)
    ensures
        failure == Err::<T, RedisGraphError>(RedisGraphError::ServerTypeError(message)),
{
    Err(RedisGraphError::ServerTypeError(message))
}

/// Builds the failing result of a client-side type mismatch in one step: the
/// result is the `Err` that holds `ClientTypeError` with `message` as given,
/// ready to be returned from the place that saw the mismatch.
pub fn client_type_error<T>(message: String) -> (failure: RedisGraphResult<T>)
    ensures
        failure == Err::<T, RedisGraphError>(RedisGraphError::ClientTypeError(message)),
{
    Err(RedisGraphError::ClientTypeError(message))
}

/// How many of the seven variants `error` is an instance of.
pub open spec fn variants_held(error: RedisGraphError) -> nat {
    let redis: nat = if error is RedisError { 1 } else { 0 };
    let server: nat = if error is ServerTypeError { 1 } else { 0 };
    let client: nat = if error is ClientTypeError { 1 } else { 0 };
    let label: nat = if error is LabelNotFound { 1 } else { 0 };
    let relationship: nat = if error is RelationshipTypeNotFound { 1 } else { 0 };
    let property: nat = if error is PropertyKeyNotFound { 1 } else { 0 };
    let utf8: nat = if error is InvalidUtf8 { 1 } else { 0 };
    redis + server + client + label + relationship + property + utf8
}

/// Converting a driver error loses nothing: the converted value is the
/// `RedisError` variant, the error it holds is the one that went in, and two
/// driver errors convert to the same value only if they are the same error.
pub proof fn lemma_conversion_is_lossless(error: RedisError, other: RedisError)
    ensures
        RedisGraphError::from_spec(error) is RedisError,
        RedisGraphError::from_spec(error)->RedisError_0 == error,
        RedisGraphError::from_spec(error) == RedisGraphError::from_spec(other) <==> error == other,
{
}

/// Every error is an instance of exactly one of the seven variants, so a match
/// over the seven needs no catch-all and never takes two arms. Each of the four
/// variants without a payload has a single instance, and these four differ from
/// one another.
pub proof fn lemma_variants_closed_and_distinct(error: RedisGraphError)
    ensures
        variants_held(error) == 1,
        error is LabelNotFound <==> error == RedisGraphError::LabelNotFound,
        error is RelationshipTypeNotFound <==> error == RedisGraphError::RelationshipTypeNotFound,
        error is PropertyKeyNotFound <==> error == RedisGraphError::PropertyKeyNotFound,
        error is InvalidUtf8 <==> error == RedisGraphError::InvalidUtf8,
        RedisGraphError::LabelNotFound != RedisGraphError::RelationshipTypeNotFound,
        RedisGraphError::LabelNotFound != RedisGraphError::PropertyKeyNotFound,
        RedisGraphError::LabelNotFound != RedisGraphError::InvalidUtf8,
        RedisGraphError::RelationshipTypeNotFound != RedisGraphError::PropertyKeyNotFound,
        RedisGraphError::RelationshipTypeNotFound != RedisGraphError::InvalidUtf8,
        RedisGraphError::PropertyKeyNotFound != RedisGraphError::InvalidUtf8,
{
}

/// The two text-carrying kinds keep the message they were built with and are
/// never mistaken for each other, even when the messages agree.
pub proof fn lemma_type_errors_keep_message(message: String, other: String)
    ensures
        RedisGraphError::ServerTypeError(message)->ServerTypeError_0 == message,
        RedisGraphError::ClientTypeError(message)->ClientTypeError_0 == message,
        RedisGraphError::ServerTypeError(message) != RedisGraphError::ClientTypeError(other),
        RedisGraphError::ServerTypeError(message) == RedisGraphError::ServerTypeError(other)
            <==> message == other,
        RedisGraphError::ClientTypeError(message) == RedisGraphError::ClientTypeError(other)
            <==> message == other,
{
}

/// Transforming the success side of a result with `Result::map` leaves a
/// failure as it is, whatever the transformation: the error short-circuits.
///
/// `mapped` stands for what `Err(error).map(op)` returned.
pub proof fn lemma_map_keeps_failure<T, U, F: FnOnce(T) -> U>(
    error: RedisGraphError,
    op: F,
    mapped: RedisGraphResult<U>,
)
    requires
        call_ensures(
            Result::<T, RedisGraphError>::map::<U, F>,
            (Err::<T, RedisGraphError>(error), op),
            mapped,
        ),
    ensures
        mapped == Err::<U, RedisGraphError>(error),
{
}

/// Transforming a result with `Result::map` by an operation that hands its
/// argument back leaves the result as it is, success or failure.
///
/// `mapped` stands for what `result.map(op)` returned.
pub proof fn lemma_map_identity<T, F: FnOnce(T) -> T>(
    result: RedisGraphResult<T>,
    op: F,
    mapped: RedisGraphResult<T>,
)
    requires
        forall|value: T, out: T| op.ensures((value,), out) ==> out == value,
        call_ensures(Result::<T, RedisGraphError>::map::<T, F>, (result, op), mapped),
    ensures
        mapped == result,
{
}

} // verus!
