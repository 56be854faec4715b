//! The ways a fetch can fail, and the message each one shows to a user.
use vstd::prelude::*;
use vstd::string::StringExecFns;

verus! {

/// Why a fetch failed. The `String` fields hold the description that the
/// HTTP client gave of the underlying failure.
#[derive(Debug, PartialEq, Eq)]
pub enum FetchError {
    /// The HTTP client could not be constructed.
    ClientInit(String),
    /// The request could not be sent or answered: DNS, connection, TLS or
    /// the time limit.
    Network(String),
    /// The response declared a length above the limit.
    PayloadTooLarge,
    /// The body could not be read, or its bytes are not UTF-8 text.
    Decode(String),
}

/// The model of a `FetchError`: its kind and the description as characters.
pub enum ErrorView {
    ClientInit(Seq<char>),
    Network(Seq<char>),
    PayloadTooLarge,
    Decode(Seq<char>),
}

impl View for FetchError {
    type V = ErrorView;

    open spec fn view(&self) -> ErrorView {
        match self {
            FetchError::ClientInit(d) => ErrorView::ClientInit(d@),
            FetchError::Network(d) => ErrorView::Network(d@),
            FetchError::PayloadTooLarge => ErrorView::PayloadTooLarge,
            FetchError::Decode(d) => ErrorView::Decode(d@),
        }
    }
}

/// The flat message that a caller receives for an error.
pub open spec fn message_of(e: ErrorView) -> Seq<char> {
    match e {
        ErrorView::ClientInit(d) => "Failed to create client: "@ + d,
        ErrorView::Network(d) => "Failed to fetch iCal: "@ + d,
        ErrorView::PayloadTooLarge => "iCal file is too large (max 5MB)"@,
        ErrorView::Decode(d) => "Failed to read response: "@ + d,
    }
}

impl FetchError {
    /// The message shown to the caller for this error.
    pub fn message(&self) -> (r: String)
        ensures
            r@ == message_of(self@),
    {
        match self {
            FetchError::ClientInit(d) => {
                let mut m = String::from_str("Failed to create client: ");
                m.append(d.as_str());
                m
            },
            FetchError::Network(d) => {
                let mut m = String::from_str("Failed to fetch iCal: ");
                m.append(d.as_str());
                m
            },
            FetchError::PayloadTooLarge => String::from_str("iCal file is too large (max 5MB)"),
            FetchError::Decode(d) => {
                let mut m = String::from_str("Failed to read response: ");
                m.append(d.as_str());
                m
            },
        }
    }
}

} // verus!
