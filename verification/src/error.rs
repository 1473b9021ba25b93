//! The failures that the tool reports.

use vstd::prelude::*;

verus! {

/// What went wrong, apart from the words that say so.
#[derive(Debug, Clone, Copy, PartialEq, Eq, Structural)]
pub enum ErrorKind {
    /// A name has no entry in the registry that was asked for it.
    NotFound,
    /// A file or a directory could not be read, written or linked.
    Io,
    /// The text of a configuration file is malformed.
    Decode,
    /// A configuration could not be written as text.
    Encode,
}

/// A failure: its kind and its message.
#[derive(Debug)]
pub struct ConfigError {
    kind: ErrorKind,
    message: String,
}

/// The model of a [`ConfigError`].
pub struct ConfigErrorView {
    pub kind: ErrorKind,
    pub message: Seq<char>,
}

/// The failure to find something, told in `message`.
pub open spec fn not_found_error(message: Seq<char>) -> ConfigErrorView {
    ConfigErrorView { kind: ErrorKind::NotFound, message }
}

/// The failure of an operation on the file system, of which the system said
/// `detail`.
pub open spec fn io_error(detail: Seq<char>) -> ConfigErrorView {
    ConfigErrorView { kind: ErrorKind::Io, message: "IO Error: "@ + detail }
}

/// The failure to read a configuration text, of which the decoder said
/// `detail`.
pub open spec fn decode_error(detail: Seq<char>) -> ConfigErrorView {
    ConfigErrorView { kind: ErrorKind::Decode, message: "TOML Error: "@ + detail }
}

/// The failure to write a configuration as text, of which the encoder said
/// `detail`.
pub open spec fn encode_error(detail: Seq<char>) -> ConfigErrorView {
    ConfigErrorView { kind: ErrorKind::Encode, message: "TOML Error: "@ + detail }
}

impl View for ConfigError {
    type V = ConfigErrorView;

    closed spec fn view(&self) -> ConfigErrorView {
        ConfigErrorView { kind: self.kind, message: self.message@ }
    }
}

impl DeepView for ConfigError {
    type V = ConfigErrorView;

    open spec fn deep_view(&self) -> ConfigErrorView {
        self@
    }
}

impl ConfigError {
    /// A name was not found; `message` says which.
    pub fn not_found(message: &str) -> (error: ConfigError)
        ensures
            error@ == not_found_error(message@),
    {
        ConfigError { kind: ErrorKind::NotFound, message: message.to_owned() }
    }

    /// An operation on the file system failed with `detail`.
    pub fn io(detail: &str) -> (error: ConfigError)
        ensures
            error@ == io_error(detail@),
    {
        let mut message = "IO Error: ".to_owned();
        message.append(detail);
        ConfigError { kind: ErrorKind::Io, message }
    }

    /// A configuration text could not be decoded; the decoder said `detail`.
    pub fn decode(detail: &str) -> (error: ConfigError)
        ensures
            error@ == decode_error(detail@),
    {
        let mut message = "TOML Error: ".to_owned();
        message.append(detail);
        ConfigError { kind: ErrorKind::Decode, message }
    }

    /// A configuration could not be encoded; the encoder said `detail`.
    pub fn encode(detail: &str) -> (error: ConfigError)
        ensures
            error@ == encode_error(detail@),
    {
        let mut message = "TOML Error: ".to_owned();
        message.append(detail);
        ConfigError { kind: ErrorKind::Encode, message }
    }

    /// The kind of the failure.
    pub fn kind(&self) -> (kind: ErrorKind)
        ensures
            kind == self@.kind,
    {
        self.kind
    }

    /// The message of the failure.
    pub fn message(&self) -> (message: &str)
        ensures
            message@ == self@.message,
    {
        self.message.as_str()
    }

    /// The message, as the failure is shown to the user.
    pub fn to_string(&self) -> (shown: String)
        ensures
            shown@ == self@.message,
    {
        self.message.clone()
    }
}

} // verus!
