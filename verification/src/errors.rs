//! The ways in which loading a configuration can fail.

use vstd::prelude::*;

verus! {

/// Why the operating system refused to hand a document over.
#[derive(Debug, Clone, Copy, PartialEq, Eq, Structural)]
pub enum IoKind {
    /// The file does not exist.
    NotFound,
    /// Any other failure.
    Other,
}

/// A failed read or write, with the operating system's own description.
#[derive(Debug, Clone, PartialEq, Eq)]
pub struct IoFailure {
    pub kind: IoKind,
    pub detail: String,
}

/// Why a configuration could not be loaded.
#[derive(Debug, Clone, PartialEq, Eq)]
pub enum ConfigError {
    /// Not expected to occur.
    Unknown,
    /// The configured path, or the path of an import, does not name a file.
    NotAFile,
    /// The document is not a configuration.
    Malformed,
    /// Neither an override nor a platform configuration directory is known.
    UndeterminableConfigLocation,
    /// Imports are nested more than two levels below the root document.
    MaxRecursionDepth,
    /// The document could not be read or written.
    Io(IoFailure),
    /// The document could not be decoded; the payload says why.
    Deserialize(String),
}

/// The view of a [`ConfigError`].
pub enum ErrorView {
    Unknown,
    NotAFile,
    Malformed,
    UndeterminableConfigLocation,
    MaxRecursionDepth,
    Io { kind: IoKind, detail: Seq<char> },
    Deserialize(Seq<char>),
}

impl View for ConfigError {
    type V = ErrorView;

    open spec fn view(&self) -> ErrorView {
        match self {
            ConfigError::Unknown => ErrorView::Unknown,
            ConfigError::NotAFile => ErrorView::NotAFile,
            ConfigError::Malformed => ErrorView::Malformed,
            ConfigError::UndeterminableConfigLocation => ErrorView::UndeterminableConfigLocation,
            ConfigError::MaxRecursionDepth => ErrorView::MaxRecursionDepth,
            ConfigError::Io(failure) => ErrorView::Io {
                kind: failure.kind,
                detail: failure.detail@,
            },
            ConfigError::Deserialize(detail) => ErrorView::Deserialize(detail@),
        }
    }
}

impl ErrorView {
    /// The text shown to a person for this error.
    pub open spec fn message(self) -> Seq<char> {
        match self {
            ErrorView::Unknown => "this error should never fire"@,
            ErrorView::NotAFile =>
                "the path in $OCCASION_CONFIG or one of it's imports is not a file path"@,
            ErrorView::Malformed => "malformed config file"@,
            ErrorView::UndeterminableConfigLocation =>
                "cannot determine config dir, pass $OCCASION_CONFIG directly"@,
            ErrorView::MaxRecursionDepth => "max import depth reached (3)"@,
            ErrorView::Io { kind, detail } => "i/o error: "@ + detail,
            ErrorView::Deserialize(detail) => "cannot parse: "@ + detail,
        }
    }

    /// Whether the error says that the document does not exist yet.
    pub open spec fn is_missing_file(self) -> bool {
        self matches ErrorView::Io { kind, detail } && kind == IoKind::NotFound
    }
}

impl ConfigError {
    /// A copy with the same view.
    pub fn duplicate(&self) -> (r: ConfigError)
        ensures
            r@ == self@,
    {
        match self {
            ConfigError::Unknown => ConfigError::Unknown,
            ConfigError::NotAFile => ConfigError::NotAFile,
            ConfigError::Malformed => ConfigError::Malformed,
            ConfigError::UndeterminableConfigLocation => ConfigError::UndeterminableConfigLocation,
            ConfigError::MaxRecursionDepth => ConfigError::MaxRecursionDepth,
            ConfigError::Io(failure) => ConfigError::Io(
                IoFailure { kind: failure.kind, detail: failure.detail.clone() },
            ),
            ConfigError::Deserialize(detail) => ConfigError::Deserialize(detail.clone()),
        }
    }

    /// The text shown to a person for this error.
    pub fn message(&self) -> (s: String)
        ensures
            s@ == self@.message(),
    {
        match self {
            ConfigError::Unknown => String::from_str("this error should never fire"),
            ConfigError::NotAFile => String::from_str(
                "the path in $OCCASION_CONFIG or one of it's imports is not a file path",
            ),
            ConfigError::Malformed => String::from_str("malformed config file"),
            ConfigError::UndeterminableConfigLocation => String::from_str(
                "cannot determine config dir, pass $OCCASION_CONFIG directly",
            ),
            ConfigError::MaxRecursionDepth => String::from_str("max import depth reached (3)"),
            ConfigError::Io(failure) => String::from_str("i/o error: ").concat(
                failure.detail.as_str(),
            ),
            ConfigError::Deserialize(detail) => String::from_str("cannot parse: ").concat(
                detail.as_str(),
            ),
        }
    }

    /// Whether the error says that the document does not exist yet.
    pub fn is_missing_file(&self) -> (b: bool)
        ensures
            b == self@.is_missing_file(),
    {
        match self {
            ConfigError::Io(failure) => failure.kind == IoKind::NotFound,
            _ => false,
        }
    }
}

} // verus!
