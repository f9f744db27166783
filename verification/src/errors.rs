//! The two failures that the service shows to an HTTP client: the status it
//! answers with and the text it puts under `"error"`.

use vstd::prelude::*;
use vstd::string::StringExecFns;

verus! {

/// A failure to show to a client, with an optional detail.
#[derive(Clone, Copy, Debug, PartialEq, Eq)]
pub enum AppErrorText<'a> {
    /// Something went wrong inside the service; the detail says what.
    ServerError(Option<&'a str>),
    /// Nothing is served under what was asked for; the detail names it.
    NotFound(Option<&'a str>),
}

/// The status of a page that was not found.
pub const STATUS_NOT_FOUND: u16 = 404;

/// The status of a failure inside the service.
pub const STATUS_SERVER_ERROR: u16 = 500;

impl<'a> AppErrorText<'a> {
    /// The HTTP status that goes with the failure.
    pub open spec fn status(&self) -> u16 {
        match *self {
            AppErrorText::NotFound(_) => STATUS_NOT_FOUND,
            AppErrorText::ServerError(_) => STATUS_SERVER_ERROR,
        }
    }

    /// The text that goes with the failure. A missing detail leaves its
    /// place empty.
    pub open spec fn text(&self) -> Seq<char> {
        match *self {
            AppErrorText::NotFound(Some(msg)) => "Page "@ + msg@ + " not found!"@,
            AppErrorText::NotFound(None) => "Page "@ + " not found!"@,
            AppErrorText::ServerError(Some(msg)) => "Internal failure."@ + " Error: "@ + msg@,
            AppErrorText::ServerError(None) => "Internal failure."@,
        }
    }

    /// The HTTP status to answer with: 404 for `NotFound`, 500 for
    /// `ServerError`.
    pub fn status_code(&self) -> (code: u16)
        ensures
            code == self.status(),
    {
        match self {
            AppErrorText::NotFound(_) => STATUS_NOT_FOUND,
            AppErrorText::ServerError(_) => STATUS_SERVER_ERROR,
        }
    }

    /// The message to answer with.
    pub fn message(&self) -> (message: String)
        ensures
            message@ == self.text(),
    {
        match self {
            AppErrorText::NotFound(info_msg) => {
                let mut message = String::from_str("Page ");
                match info_msg {
                    Some(msg) => {
                        message.append(msg);
                    },
                    None => {},
                }
                message.append(" not found!");
                message
            },
            AppErrorText::ServerError(info_msg) => {
                let mut message = String::from_str("Internal failure.");
                match info_msg {
                    Some(msg) => {
                        message.append(" Error: ");
                        message.append(msg);
                    },
                    None => {},
                }
                message
            },
        }
    }
}

} // verus!
