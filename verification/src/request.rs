//! The verification request, independent of how it travels.

use vstd::prelude::*;

verus! {

/// A verification request: the signed message and the encoded forms of the
/// group signature and of the combined group public key.
///
/// The message is never interpreted. The two encoded fields are text that is
/// decoded into typed objects only when the request is dispatched.
#[derive(Debug, PartialEq, Eq)]
pub struct VerifyParams {
    pub message: Vec<u8>,
    pub signature: String,
    pub gpk: String,
}

/// The mathematical value of a request.
pub struct RequestView {
    pub message: Seq<u8>,
    pub signature: Seq<char>,
    pub gpk: Seq<char>,
}

impl View for VerifyParams {
    type V = RequestView;

    open spec fn view(&self) -> RequestView {
        RequestView { message: self.message@, signature: self.signature@, gpk: self.gpk@ }
    }
}

impl RequestView {
    /// Whether the signature and the key are each a single line, so that the
    /// framed encoding can carry them. The message is free to hold anything.
    pub open spec fn line_free(self) -> bool {
        !self.signature.contains('\n') && !self.gpk.contains('\n')
    }
}

} // verus!
