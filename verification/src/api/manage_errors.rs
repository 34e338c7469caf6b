//! The error taxonomy: one closed tagged union with a case per failure
//! source, each carrying only the diagnostic text (or code and text) needed
//! for display, never a raw error object of another crate.

use vstd::prelude::*;

use crate::text::{push_decimal_i64, spec_dec_int};

verus! {

/// An error reported at the API protocol level: the response was readable
/// but did not carry what the protocol promises.
#[derive(Debug)]
pub struct MistralAiApiError {
    pub code: i64,
    pub msg: &'static str,
}

/// The one error type the library reports. Recoverable failures of a single
/// question/answer exchange (`TransportFailure`, `ApiProtocolFailure`) are
/// printed at the loop boundary and the session continues; every other case
/// ends the process.
#[derive(Debug)]
pub enum AppError {
    /// Local read or write failed, terminal I/O included.
    IoFailure(String),
    /// A body that should have been JSON did not parse.
    SerializationFailure(String),
    /// The network or HTTP layer failed before a body was read.
    TransportFailure(String),
    /// Well-formed JSON without the expected answer shape, or an
    /// API-reported error.
    ApiProtocolFailure(MistralAiApiError),
    /// The persisted-configuration backend failed in a way that is not
    /// simply "no record yet".
    ConfigStorageFailure(String),
}

impl MistralAiApiError {
    /// The display text of an API-level error.
    pub open spec fn spec_message(self) -> Seq<char> {
        "Mistral AI error "@ + spec_dec_int(self.code as int) + ": "@ + self.msg@
    }

    /// Renders the error as `Mistral AI error <code>: <msg>`.
    pub fn message(&self) -> (r: String)
        ensures
            r@ == self.spec_message(),
    {
        let mut out = "Mistral AI error ".to_owned();
        push_decimal_i64(&mut out, self.code);
        out.append(": ");
        out.append(self.msg);
        out
    }
}

impl AppError {
    /// The display text of each failure case.
    pub open spec fn spec_message(self) -> Seq<char> {
        match self {
            AppError::IoFailure(t) => "IO error: "@ + t@,
            AppError::SerializationFailure(t) => "JSON error: "@ + t@,
            AppError::TransportFailure(t) => "transport error: "@ + t@,
            AppError::ApiProtocolFailure(e) => "Mixtral API error: "@ + e.spec_message(),
            AppError::ConfigStorageFailure(t) => "config storage error: "@ + t@,
        }
    }

    /// Renders the failure as `<source>: <diagnostic>`.
    pub fn message(&self) -> (r: String)
        ensures
            r@ == self.spec_message(),
    {
        match self {
            AppError::IoFailure(t) => {
                let mut out = "IO error: ".to_owned();
                out.append(t.as_str());
                out
            },
            AppError::SerializationFailure(t) => {
                let mut out = "JSON error: ".to_owned();
                out.append(t.as_str());
                out
            },
            AppError::TransportFailure(t) => {
                let mut out = "transport error: ".to_owned();
                out.append(t.as_str());
                out
            },
            AppError::ApiProtocolFailure(e) => {
                let mut out = "Mixtral API error: ".to_owned();
                let tail = e.message();
                out.append(tail.as_str());
                out
            },
            AppError::ConfigStorageFailure(t) => {
                let mut out = "config storage error: ".to_owned();
                out.append(t.as_str());
                out
            },
        }
    }

    /// Whether a failure of one question/answer exchange is caught at the
    /// loop boundary (printed, then the loop continues) rather than ending
    /// the process.
    pub fn is_recoverable(&self) -> (r: bool)
        ensures
            r == (self is TransportFailure || self is ApiProtocolFailure),
    {
        match self {
            AppError::TransportFailure(_) => true,
            AppError::ApiProtocolFailure(_) => true,
            _ => false,
        }
    }
}

} // verus!
