//! Session descriptions: one offer or answer with its serialized body.

use vstd::prelude::*;

verus! {

/// The type tag of a session description.
#[derive(Clone, Copy, Debug, PartialEq, Eq, Structural)]
pub enum SdpType {
    Offer,
    Answer,
}

/// One offer or answer. It is never changed once built.
#[derive(Debug, PartialEq, Eq)]
pub struct SessionDescription {
    sdp_type: SdpType,
    sdp: String,
}

impl SessionDescription {
    pub fn new(sdp_type: SdpType, sdp: String) -> (r: Self)
        ensures
            r.spec_sdp_type() == sdp_type,
            r.spec_sdp() == sdp@,
    {
        SessionDescription { sdp_type, sdp }
    }

    pub closed spec fn spec_sdp_type(&self) -> SdpType {
        self.sdp_type
    }

    pub closed spec fn spec_sdp(&self) -> Seq<char> {
        self.sdp@
    }

    #[verifier::when_used_as_spec(spec_sdp_type)]
    pub fn sdp_type(&self) -> (r: SdpType)
        ensures
            r == self.spec_sdp_type(),
    {
        self.sdp_type
    }

    /// The serialized body.
    pub fn sdp(&self) -> (r: &str)
        ensures
            r@ == self.spec_sdp(),
    {
        self.sdp.as_str()
    }
}

impl Clone for SessionDescription {
    fn clone(&self) -> (r: Self)
        ensures
            r == *self,
    {
        SessionDescription { sdp_type: self.sdp_type, sdp: self.sdp.clone() }
    }
}

} // verus!
