//! What a call to the mimo channel can fail with, apart from the transport.

use vstd::prelude::*;

verus! {

/// A failure that the bridge itself decides on.
#[derive(Debug, Clone, PartialEq, Eq)]
pub enum BridgeError {
    /// There is no usable session: a login is needed.
    NotAuthenticated,
    /// The upstream answered with something other than what was asked for.
    Proxy(String),
    /// An error of another part, with what it says of itself.
    Other(String),
}

/// A [`BridgeError`] with its message as a sequence of characters.
pub enum BridgeErrorView {
    /// There is no usable session.
    NotAuthenticated,
    /// The upstream's answer is refused with this message.
    Proxy(Seq<char>),
    /// Another part failed with this message.
    Other(Seq<char>),
}

impl View for BridgeError {
    type V = BridgeErrorView;

    open spec fn view(&self) -> BridgeErrorView {
        match self {
            BridgeError::NotAuthenticated => BridgeErrorView::NotAuthenticated,
            BridgeError::Proxy(message) => BridgeErrorView::Proxy(message@),
            BridgeError::Other(message) => BridgeErrorView::Other(message@),
        }
    }
}

/// An error is viewed as it is, with its message's characters.
pub proof fn error_view_keeps_the_error(error: BridgeError)
    ensures
        error is NotAuthenticated <==> error@ is NotAuthenticated,
        error matches BridgeError::Proxy(message) ==> error@ == BridgeErrorView::Proxy(message@),
        error matches BridgeError::Other(message) ==> error@ == BridgeErrorView::Other(message@),
{
}

} // verus!
