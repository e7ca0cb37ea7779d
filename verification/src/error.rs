//! What can go wrong with the webviews of a window.

use vstd::prelude::*;
use vstd::string::StringExecFns;

verus! {

#[derive(Clone, Debug, PartialEq, Eq)]
pub enum Error {
    FailedToGetMainWindow,
    /// The webview library failed; its message is kept.
    Wry(String),
    FailedToGetWebview(String),
    FailedToUpdateAnchor,
}

impl Error {
    /// The text of the message for this error.
    pub open spec fn message_text(self) -> Seq<char> {
        match self {
            Error::FailedToGetMainWindow => "failed to get main window"@,
            Error::Wry(cause) => "wry error: "@ + cause@,
            Error::FailedToGetWebview(name) => "webview with name '"@ + name@ + "' doesn't exist"@,
            Error::FailedToUpdateAnchor =>
                "cannot update anchnor of a webview with not relative bounds"@,
        }
    }

    /// The message for this error.
    pub fn message(&self) -> (text: String)
        ensures
            text@ == self.message_text(),
    {
        match self {
            Error::FailedToGetMainWindow => String::from_str("failed to get main window"),
            Error::Wry(cause) => String::from_str("wry error: ").concat(cause.as_str()),
            Error::FailedToGetWebview(name) => String::from_str("webview with name '").concat(
                name.as_str(),
            ).concat("' doesn't exist"),
            Error::FailedToUpdateAnchor => String::from_str(
                "cannot update anchnor of a webview with not relative bounds",
            ),
        }
    }
}

} // verus!
