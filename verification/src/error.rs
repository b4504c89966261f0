//! The error adapter: one error type for the two ways a conversion can fail.

use vstd::prelude::*;
use vstd::std_specs::convert::{FromSpecImpl, IntoSpec};
use vstd::string::to_string_from_display_ensures;

verus! {

/// Error for writing, reading or converting json.
///
/// `IO` is a failure of the transport: a stream could not be read or
/// written. `Json` is a structural failure: the text is not JSON, or it does
/// not have the shape of the type asked for, or a value has no JSON form.
/// Either way the cause is kept as it was raised and stays open to the caller.
#[derive(Debug)]
pub enum Error {
    IO(std::io::Error),
    Json(serde_json::Error),
}

impl From<std::io::Error> for Error {
    fn from(io_error: std::io::Error) -> (r: Self) {
        Error::IO(io_error)
    }
}

impl FromSpecImpl<std::io::Error> for Error {
    open spec fn obeys_from_spec() -> bool {
        true
    }

    open spec fn from_spec(io_error: std::io::Error) -> Self {
        Error::IO(io_error)
    }
}

impl From<serde_json::Error> for Error {
    fn from(json_error: serde_json::Error) -> (r: Self) {
        Error::Json(json_error)
    }
}

impl FromSpecImpl<serde_json::Error> for Error {
    open spec fn obeys_from_spec() -> bool {
        true
    }

    open spec fn from_spec(json_error: serde_json::Error) -> Self {
        Error::Json(json_error)
    }
}

impl Error {
    /// The words that name the kind of failure.
    pub open spec fn kind_text(self) -> Seq<char> {
        match self {
            Error::IO(_) => "IO error"@,
            Error::Json(_) => "Json error"@,
        }
    }

    /// How a failure of this kind reads when its cause reads `cause`:
    /// the kind, a colon, a space, the cause.
    pub open spec fn rendering(self, cause: Seq<char>) -> Seq<char> {
        self.kind_text() + ": "@ + cause
    }

    /// Whether `text` is a text that `Display` writes for the wrapped cause.
    pub open spec fn cause_reads(self, text: String) -> bool {
        match self {
            Error::IO(io_error) => to_string_from_display_ensures::<std::io::Error>(
                &io_error,
                text,
            ),
            Error::Json(json_error) => to_string_from_display_ensures::<serde_json::Error>(
                &json_error,
                text,
            ),
        }
    }

    /// Whether this is a failure of the transport.
    pub fn is_io(&self) -> (r: bool)
        ensures
            r == (*self is IO),
    {
        match self {
            Error::IO(_) => true,
            Error::Json(_) => false,
        }
    }

    /// Whether this is a structural failure.
    pub fn is_json(&self) -> (r: bool)
        ensures
            r == (*self is Json),
    {
        match self {
            Error::IO(_) => false,
            Error::Json(_) => true,
        }
    }

    /// The words that name the kind of failure.
    pub fn kind_name(&self) -> (r: &'static str)
        ensures
            r@ == self.kind_text(),
    {
        match self {
            Error::IO(_) => "IO error",
            Error::Json(_) => "Json error",
        }
    }

    /// The message of the wrapped cause, as its `Display` writes it.
    pub fn cause(&self) -> (r: String)
        ensures
            self.cause_reads(r),
    {
        match self {
            Error::IO(io_error) => io_error.to_string(),
            Error::Json(json_error) => json_error.to_string(),
        }
    }

    /// Renders a failure of this kind around a given message.
    pub fn render(&self, cause: &str) -> (r: String)
        ensures
            r@ == self.rendering(cause@),
    {
        let mut text = String::from_str(self.kind_name());
        text.append(": ");
        text.append(cause);
        text
    }

    /// The human-readable form: the kind, then the message of the cause.
    pub fn to_string(&self) -> (r: String)
        ensures
            exists|cause: String| #[trigger] self.cause_reads(cause) && r@ == self.rendering(cause@),
    {
        let cause = self.cause();
        self.render(cause.as_str())
    }
}

/// Turns the error of a result into an [`Error`], and leaves a success as it is.
pub trait ErrInto<T>: Sized {
    /// What `err_into` may give for this result: a success unchanged, and
    /// for a failure the [`Error`] that its cause converts into.
    spec fn converts_to(self, r: Result<T, Error>) -> bool;

    fn err_into(self) -> (r: Result<T, Error>)
        ensures
            self.converts_to(r),
    ;
}

impl<T, E: Into<Error>> ErrInto<T> for Result<T, E> {
    open spec fn converts_to(self, r: Result<T, Error>) -> bool {
        match self {
            Ok(value) => r == Ok::<T, Error>(value),
            Err(cause) => r is Err && (E::obeys_into_spec() ==> r->Err_0 == cause.into_spec()),
        }
    }

    fn err_into(self) -> (r: Result<T, Error>) {
        match self {
            Ok(value) => Ok(value),
            Err(cause) => Err(cause.into()),
        }
    }
}

} // verus!
