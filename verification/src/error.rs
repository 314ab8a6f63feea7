use vstd::prelude::*;

verus! {

/// The result of every fallible operation of this crate.
pub type FliteResult<T> = Result<T, FliteError>;

/// Everything that can go wrong at the boundary with the engine.
///
/// Raw status codes and null addresses never leave the crate: each is turned
/// into one of these values as soon as the engine's answer is inspected.
#[derive(Debug, PartialEq, Eq)]
pub enum FliteError {
    /// The engine's initialization entry point returned this nonzero status.
    InitFailed(i32),
    /// The engine has been initialized already, or its initialization is in
    /// flight on behalf of another caller.
    AlreadyInitialized,
    /// The engine answered with a null address where a resource was expected.
    NullPtr,
    /// A voice was requested from a location whose scheme, carried here, is
    /// neither `http` nor `https`.
    InvalidUrlScheme(String),
    /// The engine did not accept the registration of a language.
    LanguageNotAdded,
    /// Text meant for the engine holds a NUL character, which the engine's
    /// NUL-terminated strings cannot carry.
    InvalidText,
    /// The engine reported a duration that is not a positive, finite number
    /// of seconds.
    InvalidDuration,
}

impl Clone for FliteError {
    /// A copy that equals the error, the scheme it may carry included.
    fn clone(&self) -> (copy: FliteError)
        ensures
            copy == *self,
    {
        match self {
            FliteError::InitFailed(status) => FliteError::InitFailed(*status),
            FliteError::AlreadyInitialized => FliteError::AlreadyInitialized,
            FliteError::NullPtr => FliteError::NullPtr,
            FliteError::InvalidUrlScheme(scheme) => FliteError::InvalidUrlScheme(scheme.clone()),
            FliteError::LanguageNotAdded => FliteError::LanguageNotAdded,
            FliteError::InvalidText => FliteError::InvalidText,
            FliteError::InvalidDuration => FliteError::InvalidDuration,
        }
    }
}

} // verus!
