use vstd::prelude::*;

verus! {

/// One generated signature: an encoded image (or a reference to one) and the
/// seed it was generated from.
#[derive(Clone, Debug)]
pub struct Signature {
    pub image: String,
    pub seed: String,
}

/// The decoded body of a successful warm-up answer. Its contents are never
/// interpreted: decoding it only tells a well-formed answer from a malformed one.
#[derive(Clone, Debug)]
pub struct SignaturesResponse {
    pub combined_velocity: u64,
    pub layer_dimensions: Vec<u16>,
    pub strategy: String,
    pub signatures: Vec<Signature>,
}

/// The body of the warm-up request.
#[derive(Clone, Copy, Debug, PartialEq, Eq, Structural)]
pub struct CreateSignatureRequest {
    pub save: bool,
}

impl CreateSignatureRequest {
    /// The body that asks the service not to keep what it generates.
    pub fn warm_up() -> (r: Self)
        ensures
            !r.save,
    {
        CreateSignatureRequest { save: false }
    }
}

} // verus!
