//! Error types of the license operations. Each operation has its own error
//! type, so that a caller can tell which operation failed; each carries the
//! message that says why.

use vstd::prelude::*;

verus! {

/// Base error type: configuration, transport, server and info failures.
#[derive(Debug, Clone)]
pub enum LycentoError {
    Custom(String),
}

impl LycentoError {
    /// The message that this error carries.
    pub open spec fn msg(&self) -> Seq<char> {
        match self {
            LycentoError::Custom(m) => m@,
        }
    }

    pub fn new(message: &str) -> (r: Self)
        ensures
            r.msg() == message@,
    {
        LycentoError::Custom(String::from_str(message))
    }

    pub fn message(&self) -> (r: &str)
        ensures
            r@ == self.msg(),
    {
        match self {
            LycentoError::Custom(m) => m.as_str(),
        }
    }
}

/// Failure of the activate operation.
#[derive(Debug, Clone)]
pub enum ActivationError {
    Custom(String),
}

impl ActivationError {
    /// The message that this error carries.
    pub open spec fn msg(&self) -> Seq<char> {
        match self {
            ActivationError::Custom(m) => m@,
        }
    }

    pub fn new(message: &str) -> (r: Self)
        ensures
            r.msg() == message@,
    {
        ActivationError::Custom(String::from_str(message))
    }

    pub fn message(&self) -> (r: &str)
        ensures
            r@ == self.msg(),
    {
        match self {
            ActivationError::Custom(m) => m.as_str(),
        }
    }

    /// The activation error that carries the message of a base error.
    pub fn from_base(err: LycentoError) -> (r: Self)
        ensures
            r.msg() == err.msg(),
    {
        match err {
            LycentoError::Custom(m) => ActivationError::Custom(m),
        }
    }
}

/// Failure of the validate operation.
#[derive(Debug, Clone)]
pub enum ValidationError {
    Custom(String),
}

impl ValidationError {
    /// The message that this error carries.
    pub open spec fn msg(&self) -> Seq<char> {
        match self {
            ValidationError::Custom(m) => m@,
        }
    }

    pub fn new(message: &str) -> (r: Self)
        ensures
            r.msg() == message@,
    {
        ValidationError::Custom(String::from_str(message))
    }

    pub fn message(&self) -> (r: &str)
        ensures
            r@ == self.msg(),
    {
        match self {
            ValidationError::Custom(m) => m.as_str(),
        }
    }

    /// The validation error that carries the message of a base error.
    pub fn from_base(err: LycentoError) -> (r: Self)
        ensures
            r.msg() == err.msg(),
    {
        match err {
            LycentoError::Custom(m) => ValidationError::Custom(m),
        }
    }
}

/// Failure of the deactivate operation.
#[derive(Debug, Clone)]
pub enum DeactivationError {
    Custom(String),
}

impl DeactivationError {
    /// The message that this error carries.
    pub open spec fn msg(&self) -> Seq<char> {
        match self {
            DeactivationError::Custom(m) => m@,
        }
    }

    pub fn new(message: &str) -> (r: Self)
        ensures
            r.msg() == message@,
    {
        DeactivationError::Custom(String::from_str(message))
    }

    pub fn message(&self) -> (r: &str)
        ensures
            r@ == self.msg(),
    {
        match self {
            DeactivationError::Custom(m) => m.as_str(),
        }
    }

    /// The deactivation error that carries the message of a base error.
    pub fn from_base(err: LycentoError) -> (r: Self)
        ensures
            r.msg() == err.msg(),
    {
        match err {
            LycentoError::Custom(m) => DeactivationError::Custom(m),
        }
    }
}

/// Failure of the transport: connection, timeout, name resolution.
#[derive(Debug, Clone)]
pub enum NetworkError {
    Custom(String),
}

impl NetworkError {
    /// The message that this error carries.
    pub open spec fn msg(&self) -> Seq<char> {
        match self {
            NetworkError::Custom(m) => m@,
        }
    }

    pub fn new(message: &str) -> (r: Self)
        ensures
            r.msg() == message@,
    {
        NetworkError::Custom(String::from_str(message))
    }

    pub fn message(&self) -> (r: &str)
        ensures
            r@ == self.msg(),
    {
        match self {
            NetworkError::Custom(m) => m.as_str(),
        }
    }
}

impl From<LycentoError> for ActivationError {
    fn from(err: LycentoError) -> (r: Self) {
        match err {
            LycentoError::Custom(m) => ActivationError::Custom(m),
        }
    }
}

impl vstd::std_specs::convert::FromSpecImpl<LycentoError> for ActivationError {
    open spec fn obeys_from_spec() -> bool {
        true
    }

    open spec fn from_spec(err: LycentoError) -> Self {
        match err {
            LycentoError::Custom(m) => ActivationError::Custom(m),
        }
    }
}

impl From<LycentoError> for ValidationError {
    fn from(err: LycentoError) -> (r: Self) {
        match err {
            LycentoError::Custom(m) => ValidationError::Custom(m),
        }
    }
}

impl vstd::std_specs::convert::FromSpecImpl<LycentoError> for ValidationError {
    open spec fn obeys_from_spec() -> bool {
        true
    }

    open spec fn from_spec(err: LycentoError) -> Self {
        match err {
            LycentoError::Custom(m) => ValidationError::Custom(m),
        }
    }
}

impl From<LycentoError> for DeactivationError {
    fn from(err: LycentoError) -> (r: Self) {
        match err {
            LycentoError::Custom(m) => DeactivationError::Custom(m),
        }
    }
}

impl vstd::std_specs::convert::FromSpecImpl<LycentoError> for DeactivationError {
    open spec fn obeys_from_spec() -> bool {
        true
    }

    open spec fn from_spec(err: LycentoError) -> Self {
        match err {
            LycentoError::Custom(m) => DeactivationError::Custom(m),
        }
    }
}

} // verus!
