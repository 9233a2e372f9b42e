use vstd::prelude::*;

verus! {

/// The three ways a facade call can fail.
#[derive(Debug, Clone, PartialEq, Eq)]
pub enum UrgError {
    /// The address was malformed, or the driver could not open a connection.
    Connection { message: String },
    /// The driver reported a failure for a query, a capture command or a scan.
    Driver { message: String },
    /// A text field of a driver record was not valid UTF-8.
    TextDecode { message: String },
}

/// The kind of a failure, without its message.
#[derive(Debug, Clone, Copy, PartialEq, Eq, Structural)]
pub enum ErrorKind {
    Connection,
    Driver,
    TextDecode,
}

impl UrgError {
    pub open spec fn kind_spec(&self) -> ErrorKind {
        match self {
            UrgError::Connection { .. } => ErrorKind::Connection,
            UrgError::Driver { .. } => ErrorKind::Driver,
            UrgError::TextDecode { .. } => ErrorKind::TextDecode,
        }
    }

    pub open spec fn message_spec(&self) -> Seq<char> {
        match self {
            UrgError::Connection { message } => message@,
            UrgError::Driver { message } => message@,
            UrgError::TextDecode { message } => message@,
        }
    }

    /// The kind of this failure.
    pub fn kind(&self) -> (r: ErrorKind)
        ensures
            r == self.kind_spec(),
    {
        match self {
            UrgError::Connection { .. } => ErrorKind::Connection,
            UrgError::Driver { .. } => ErrorKind::Driver,
            UrgError::TextDecode { .. } => ErrorKind::TextDecode,
        }
    }

    /// The message this failure carries.
    pub fn message(&self) -> (r: &String)
        ensures
            r@ == self.message_spec(),
    {
        match self {
            UrgError::Connection { message } => message,
            UrgError::Driver { message } => message,
            UrgError::TextDecode { message } => message,
        }
    }

    /// A driver failure, with the driver's message passed on verbatim.
    pub fn driver(message: String) -> (r: UrgError)
        ensures
            r == (UrgError::Driver { message }),
    {
        UrgError::Driver { message }
    }

    /// A connection failure, with the given message passed on verbatim.
    pub fn connection(message: String) -> (r: UrgError)
        ensures
            r == (UrgError::Connection { message }),
    {
        UrgError::Connection { message }
    }
}

} // verus!
