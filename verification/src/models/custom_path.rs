use crate::error::ApiError;
use vstd::prelude::*;

verus! {

/// The ways in which captured path parameters can fail to become a value of the
/// type that a route asks for.
#[derive(Debug, Clone, Copy, PartialEq, Eq, Structural)]
pub enum PathErrorKind {
    /// The path held another number of parameters than the route declares.
    WrongNumberOfParameters,
    /// The value under a named parameter could not be parsed.
    ParseErrorAtKey,
    /// The value at a position could not be parsed.
    ParseErrorAtIndex,
    /// The single value could not be parsed, as when a number is asked for and
    /// the path holds `abc`.
    ParseError,
    /// A parameter was not UTF-8 once percent-decoded.
    InvalidUtf8InPathParam,
    /// The route asks for a type that no path can be turned into: a mistake in the
    /// server, not in the request.
    UnsupportedType,
    /// Any other failure, described by its message alone.
    Message,
}

/// The ways in which the path extractor can turn a request down.
#[derive(Debug, Clone, Copy, PartialEq, Eq, Structural)]
pub enum PathRejectionKind {
    /// The parameters were captured and could not be deserialized.
    FailedToDeserializePathParams(PathErrorKind),
    /// The router left no parameters for the extractor to read.
    MissingPathParams,
    /// The request's extensions had been taken before the extractor ran.
    ExtensionsAlreadyExtracted,
}

/// A rejection of the path extractor: its kind, and the text in which the
/// extractor describes it.
#[derive(Debug)]
pub struct PathRejection {
    pub kind: PathRejectionKind,
    pub message: String,
}

/// A value extracted from the path of a request.
#[derive(Debug)]
pub struct CustomPath<T>(pub T);

impl<T> CustomPath<T> {
    /// Takes what the path extractor produced: the value it extracted is kept, and
    /// its rejection becomes an `ApiError::PathRejection` that holds it unchanged.
    pub fn from_extraction(
        extracted: Result<T, PathRejection>,
    ) -> (path: Result<CustomPath<T>, ApiError>)
        ensures
            match extracted {
                Ok(value) => path == Ok::<CustomPath<T>, ApiError>(CustomPath(value)),
                Err(rejection) => path == Err::<CustomPath<T>, ApiError>(
                    ApiError::PathRejection(rejection),
                ),
            },
    {
        match extracted {
            Ok(value) => Ok(CustomPath(value)),
            Err(rejection) => Err(ApiError::PathRejection(rejection)),
        }
    }
}

} // verus!
