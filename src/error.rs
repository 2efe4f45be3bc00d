//! The library's error type.
use log::SetLoggerError;
use vstd::prelude::*;
use vstd::string::to_string_from_display_ensures;

verus! {

/// An error of std's I/O, carried through as an opaque value.
#[verifier::external_type_specification]
#[verifier::external_body]
pub struct ExIoError(std::io::Error);

/// The error that `log` reports when a process-wide logger is already set,
/// carried through as an opaque value.
#[verifier::external_type_specification]
#[verifier::external_body]
pub struct ExSetLoggerError(SetLoggerError);

/// Everything that can go wrong in this library.
#[derive(Debug)]
pub enum Error {
    /// A filesystem or compression failure.
    Io(std::io::Error),
    /// A process-wide logger was installed already.
    Logging(SetLoggerError),
}

/// `p` is a prefix of `s`.
pub open spec fn starts_with(s: Seq<char>, p: Seq<char>) -> bool {
    p.len() <= s.len() && s.subrange(0, p.len() as int) == p
}

impl Error {
    /// The text that introduces an error of the variant of `self`.
    pub open spec fn spec_heading(&self) -> Seq<char> {
        match self {
            Error::Io(_) => seq!['I', 'O', ' ', 'E', 'r', 'r', 'o', 'r', ':', ' '],
            Error::Logging(_) => seq![
                'L', 'o', 'g', 'g', 'i', 'n', 'g', ' ', 'E', 'r', 'r', 'o', 'r', ':', ' ',
            ],
        }
    }

    /// A human-readable description: a heading that names the kind of error,
    /// followed by the wrapped error's own display text.
    pub fn message(&self) -> (r: String)
        ensures
            starts_with(r@, self.spec_heading()),
            exists|t: String|
                #![trigger t@]
                r@ == self.spec_heading() + t@ && match self {
                    Error::Io(e) => to_string_from_display_ensures(e, t),
                    Error::Logging(e) => to_string_from_display_ensures(e, t),
                },
    {
        let (mut text, detail) = match self {
            Error::Io(e) => (String::from_str("IO Error: "), e.to_string()),
            Error::Logging(e) => (String::from_str("Logging Error: "), e.to_string()),
        };
        proof {
            reveal_strlit("IO Error: ");
            reveal_strlit("Logging Error: ");
        }
        assert(text@ == self.spec_heading());
        text.append(detail.as_str());
        assert(text@.subrange(0, self.spec_heading().len() as int) == self.spec_heading());
        text
    }
}

impl From<std::io::Error> for Error {
    fn from(e: std::io::Error) -> (r: Self)
        ensures
            r == Error::Io(e),
    {
        Error::Io(e)
    }
}

impl vstd::std_specs::convert::FromSpecImpl<std::io::Error> for Error {
    open spec fn obeys_from_spec() -> bool {
        true
    }

    open spec fn from_spec(e: std::io::Error) -> Error {
        Error::Io(e)
    }
}

impl From<SetLoggerError> for Error {
    fn from(e: SetLoggerError) -> (r: Self)
        ensures
            r == Error::Logging(e),
    {
        Error::Logging(e)
    }
}

impl vstd::std_specs::convert::FromSpecImpl<SetLoggerError> for Error {
    open spec fn obeys_from_spec() -> bool {
        true
    }

    open spec fn from_spec(e: SetLoggerError) -> Error {
        Error::Logging(e)
    }
}

} // verus!
