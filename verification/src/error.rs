//! The typed error model, and what a native status code means in it.

use vstd::prelude::*;

verus! {

/// The status code with which the engine reports success.
pub const SUCCESS: u32 = 0;

/// Everything that can go wrong between a caller and the engine.
#[derive(Clone, Copy, Debug, PartialEq, Eq, Structural)]
pub enum Error {
    /// A path, suffix or metric cannot be written as a null-terminated byte
    /// string. Found before anything reaches the engine.
    ConfigError,
    /// The engine returned no handle when asked to open an instance.
    OpenError,
    /// The engine refused to create an instance; carries its status code.
    CreateError(u32),
    /// The engine could not resolve a metric; carries its status code.
    ResolveError(u32),
    /// The engine refused a sample; carries its status code.
    WriteError(u32),
}

/// The native operations that answer with a status code.
#[derive(Clone, Copy, Debug, PartialEq, Eq, Structural)]
pub enum Operation {
    Create,
    Resolve,
    Write,
}

impl Error {
    /// The error that stands for a failed `op` with the given status code.
    pub open spec fn of_status(op: Operation, status: u32) -> Error {
        match op {
            Operation::Create => Error::CreateError(status),
            Operation::Resolve => Error::ResolveError(status),
            Operation::Write => Error::WriteError(status),
        }
    }

    /// The native status code an error carries, if it came with one.
    pub open spec fn spec_code(&self) -> Option<u32> {
        match *self {
            Error::ConfigError => None,
            Error::OpenError => None,
            Error::CreateError(code) => Some(code),
            Error::ResolveError(code) => Some(code),
            Error::WriteError(code) => Some(code),
        }
    }

    /// Whether the error was reported by the engine rather than found in the
    /// caller's own arguments.
    pub open spec fn spec_from_engine(&self) -> bool {
        *self != Error::ConfigError
    }

    /// The native status code this error carries, if it came with one.
    #[verifier::when_used_as_spec(spec_code)]
    pub fn code(&self) -> (code: Option<u32>)
        ensures
            code == self.spec_code(),
    {
        match self {
            Error::ConfigError => None,
            Error::OpenError => None,
            Error::CreateError(code) => Some(*code),
            Error::ResolveError(code) => Some(*code),
            Error::WriteError(code) => Some(*code),
        }
    }

    /// Whether the engine reported this error. A configuration mistake can be
    /// mended without touching the engine; everything else came from it.
    #[verifier::when_used_as_spec(spec_from_engine)]
    pub fn from_engine(&self) -> (engine: bool)
        ensures
            engine == self.spec_from_engine(),
    {
        match self {
            Error::ConfigError => false,
            _ => true,
        }
    }
}

/// A planned call, or the error that stood in its way, with the call taken by
/// its view.
pub open spec fn viewed<T: View>(planned: Result<T, Error>) -> Result<T::V, Error> {
    match planned {
        Ok(call) => Ok(call@),
        Err(e) => Err(e),
    }
}

/// What a status code means for the operation that returned it.
pub open spec fn status_outcome(op: Operation, status: u32) -> Result<(), Error> {
    if status == SUCCESS {
        Ok(())
    } else {
        Err(Error::of_status(op, status))
    }
}

/// Reads the status code of a native operation. Only `SUCCESS` is a
/// success; any other code comes back inside the error of that operation.
pub fn check_status(op: Operation, status: u32) -> (outcome: Result<(), Error>)
    ensures
        outcome == status_outcome(op, status),
        outcome is Ok <==> status == SUCCESS,
        outcome matches Err(e) ==> e.code() == Some(status) && e.from_engine(),
{
    if status == SUCCESS {
        Ok(())
    } else {
        Err(
            match op {
                Operation::Create => Error::CreateError(status),
                Operation::Resolve => Error::ResolveError(status),
                Operation::Write => Error::WriteError(status),
            },
        )
    }
}

} // verus!
