//! The one error type of the library: protocol exceptions, transport failures
//! and locally detected malformed data.
use crate::exception::ExceptionCode;
use vstd::prelude::*;
use vstd::string::StringExecFns;

verus! {

/// `std::io::Error`, carried through unread.
#[verifier::external_type_specification]
#[verifier::external_body]
pub struct ExIoError(std::io::Error);

/// What `{:?}` writes for a string: the text between double quotes, with the
/// characters that need it escaped.
pub uninterp spec fn debug_quoted(text: Seq<char>) -> Seq<char>;

/// Calls the `Debug` formatting of `str`. Nothing is proved of it: the result
/// is only given the name `debug_quoted`.
#[verifier::external_body]
fn quote(text: &str) -> (quoted: String)
    ensures
        quoted@ == debug_quoted(text@),
{
    format!("{:?}", text)
}

/// InvalidData reasons
#[derive(Debug)]
pub enum Reason {
    UnexpectedReplySize,
    BytecountNotEven,
    SendBufferEmpty,
    RecvBufferEmpty,
    SendBufferTooBig,
    DecodingError,
    EncodingError,
    InvalidByteorder,
    Custom(String),
}

impl Reason {
    /// How a reason reads in a message, given the quoted form of the text
    /// that a `Custom` reason carries. The other reasons read as their name.
    pub open spec fn spec_text_with(self, quoted: Seq<char>) -> Seq<char> {
        match self {
            Reason::UnexpectedReplySize => "UnexpectedReplySize"@,
            Reason::BytecountNotEven => "BytecountNotEven"@,
            Reason::SendBufferEmpty => "SendBufferEmpty"@,
            Reason::RecvBufferEmpty => "RecvBufferEmpty"@,
            Reason::SendBufferTooBig => "SendBufferTooBig"@,
            Reason::DecodingError => "DecodingError"@,
            Reason::EncodingError => "EncodingError"@,
            Reason::InvalidByteorder => "InvalidByteorder"@,
            Reason::Custom(_) => "Custom("@ + quoted + ")"@,
        }
    }

    /// How a reason reads in a message.
    pub open spec fn spec_text(self) -> Seq<char> {
        match self {
            Reason::Custom(t) => self.spec_text_with(debug_quoted(t@)),
            _ => self.spec_text_with(Seq::empty()),
        }
    }

    /// Renders the reason from the quoted form of its text.
    pub fn text_with(&self, quoted: &str) -> (text: String)
        ensures
            text@ == self.spec_text_with(quoted@),
    {
        match self {
            Reason::UnexpectedReplySize => String::from_str("UnexpectedReplySize"),
            Reason::BytecountNotEven => String::from_str("BytecountNotEven"),
            Reason::SendBufferEmpty => String::from_str("SendBufferEmpty"),
            Reason::RecvBufferEmpty => String::from_str("RecvBufferEmpty"),
            Reason::SendBufferTooBig => String::from_str("SendBufferTooBig"),
            Reason::DecodingError => String::from_str("DecodingError"),
            Reason::EncodingError => String::from_str("EncodingError"),
            Reason::InvalidByteorder => String::from_str("InvalidByteorder"),
            Reason::Custom(_) => String::from_str("Custom(").concat(quoted).concat(")"),
        }
    }

    /// Renders the reason: its name, and for `Custom` the quoted text in
    /// round brackets behind it.
    pub fn text(&self) -> (text: String)
        ensures
            text@ == self.spec_text(),
    {
        match self {
            Reason::Custom(t) => {
                let quoted = quote(t.as_str());
                self.text_with(quoted.as_str())
            },
            _ => self.text_with(""),
        }
    }
}

/// Combination of modbus, I/O and data corruption errors.
#[derive(Debug)]
pub enum Error {
    Exception(ExceptionCode),
    Io(std::io::Error),
    InvalidResponse,
    InvalidData(Reason),
    InvalidFunction,
    ParseCoilError,
    ParseInfoError,
}

impl Error {
    /// The fixed short text of each kind.
    pub open spec fn spec_description(self) -> Seq<char> {
        match self {
            Error::Exception(_) => "Modbus exception"@,
            Error::Io(_) => "I/O error"@,
            Error::InvalidResponse => "Invalid response"@,
            Error::InvalidData(_) => "Invalid data"@,
            Error::InvalidFunction => "Invalid modbus function"@,
            Error::ParseCoilError => "Parse coil could not be parsed"@,
            Error::ParseInfoError => "Failed parsing device info as utf8"@,
        }
    }

    /// The one-line message of an error, given the message of the transport
    /// failure that an `Io` error wraps. The other kinds do not read it.
    pub open spec fn spec_text_with(self, io_message: Seq<char>) -> Seq<char> {
        match self {
            Error::Exception(code) => "Modbus exception: "@ + code.spec_name(),
            Error::Io(_) => "I/O error: "@ + io_message,
            Error::InvalidData(reason) => "Invalid data: "@ + reason.spec_text(),
            _ => self.spec_description(),
        }
    }

    /// The transport failure behind an error. Only `Io` has one.
    pub open spec fn spec_cause(self) -> Option<std::io::Error> {
        match self {
            Error::Io(err) => Some(err),
            _ => None,
        }
    }

    /// The fixed short text of the error's kind.
    pub fn description(&self) -> (text: &'static str)
        ensures
            text@ == self.spec_description(),
    {
        match self {
            Error::Exception(_) => "Modbus exception",
            Error::Io(_) => "I/O error",
            Error::InvalidResponse => "Invalid response",
            Error::InvalidData(_) => "Invalid data",
            Error::InvalidFunction => "Invalid modbus function",
            Error::ParseCoilError => "Parse coil could not be parsed",
            Error::ParseInfoError => "Failed parsing device info as utf8",
        }
    }

    /// Renders the error from the message of the wrapped transport failure.
    pub fn text_with(&self, io_message: &str) -> (text: String)
        ensures
            text@ == self.spec_text_with(io_message@),
    {
        match self {
            Error::Exception(code) => String::from_str("Modbus exception: ").concat(code.name()),
            Error::Io(_) => String::from_str("I/O error: ").concat(io_message),
            Error::InvalidData(reason) => {
                let detail = reason.text();
                String::from_str("Invalid data: ").concat(detail.as_str())
            },
            _ => String::from_str(self.description()),
        }
    }

    /// The one-line message of the error. For every kind but `Io` the text is
    /// fixed by the value; for `Io` it is `I/O error: ` followed by whatever
    /// the transport failure says of itself.
    pub fn to_string(&self) -> (text: String)
        ensures
            match self {
                Error::Io(err) => exists|m: String| #[trigger]
                    vstd::string::to_string_from_display_ensures::<std::io::Error>(err, m)
                        && text@ == self.spec_text_with(m@),
                _ => text@ == self.spec_text_with(Seq::empty()),
            },
    {
        match self {
            Error::Io(err) => {
                let message = err.to_string();
                self.text_with(message.as_str())
            },
            _ => self.text_with(""),
        }
    }

    /// The underlying failure: the wrapped transport failure of an `Io`
    /// error, and nothing for every other kind.
    pub fn cause(&self) -> (found: Option<&std::io::Error>)
        ensures
            self.spec_cause() matches Some(err) ==> found == Some(&err),
            self.spec_cause() is None ==> found is None,
    {
        match self {
            Error::Io(err) => Some(err),
            _ => None,
        }
    }
}

impl From<ExceptionCode> for Error {
    /// The `Exception` error of a code.
    fn from(err: ExceptionCode) -> (e: Error)
        ensures
            e == Error::Exception(err),
    {
        Error::Exception(err)
    }
}

impl vstd::std_specs::convert::FromSpecImpl<ExceptionCode> for Error {
    open spec fn obeys_from_spec() -> bool {
        true
    }

    open spec fn from_spec(err: ExceptionCode) -> Error {
        Error::Exception(err)
    }
}

impl From<std::io::Error> for Error {
    /// The `Io` error that wraps a transport failure, unchanged.
    fn from(err: std::io::Error) -> (e: Error)
        ensures
            e == Error::Io(err),
    {
        Error::Io(err)
    }
}

impl vstd::std_specs::convert::FromSpecImpl<std::io::Error> for Error {
    open spec fn obeys_from_spec() -> bool {
        true
    }

    open spec fn from_spec(err: std::io::Error) -> Error {
        Error::Io(err)
    }
}


/// An error made from an exception code is the `Exception` of that code: its
/// message is `Modbus exception: ` followed by the code's name, so the name
/// is the tail of the message, and it has no cause.
pub proof fn lemma_exception_error(code: ExceptionCode, io_message: Seq<char>)
    ensures
        <Error as vstd::std_specs::convert::FromSpec<ExceptionCode>>::from_spec(code)
            == Error::Exception(code),
        Error::Exception(code).spec_text_with(io_message) == "Modbus exception: "@
            + code.spec_name(),
        ({
            let text = Error::Exception(code).spec_text_with(io_message);
            text.subrange(text.len() - code.spec_name().len(), text.len() as int)
                == code.spec_name()
        }),
        Error::Exception(code).spec_cause() is None,
{
    let text = Error::Exception(code).spec_text_with(io_message);
    assert(text.subrange(text.len() - code.spec_name().len(), text.len() as int)
        =~= code.spec_name());
}

/// An error made from a transport failure has that same failure as its
/// cause.
pub proof fn lemma_io_error_cause(err: std::io::Error)
    ensures
        <Error as vstd::std_specs::convert::FromSpec<std::io::Error>>::from_spec(err)
            == Error::Io(err),
        Error::Io(err).spec_cause() == Some(err),
{
}

/// Every kind of error but `Io` is terminal: it has no cause.
pub proof fn lemma_only_io_has_cause(e: Error)
    ensures
        e.spec_cause() is Some <==> e is Io,
{
}

} // verus!
