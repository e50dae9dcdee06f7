//! Connectivity candidates.

use vstd::prelude::*;

verus! {

/// One connectivity candidate: the media-stream tag, the media-line index
/// and the candidate description. Plain data, duplicated freely.
#[derive(Debug, PartialEq, Eq)]
pub struct IceCandidate {
    pub sdp_mid: String,
    pub sdp_mline_index: i32,
    pub sdp: String,
}

impl IceCandidate {
    pub fn new(sdp_mid: String, sdp_mline_index: i32, sdp: String) -> (r: Self)
        ensures
            r.sdp_mid == sdp_mid,
            r.sdp_mline_index == sdp_mline_index,
            r.sdp == sdp,
    {
        IceCandidate { sdp_mid, sdp_mline_index, sdp }
    }
}

impl Clone for IceCandidate {
    fn clone(&self) -> (r: Self)
        ensures
            r == *self,
    {
        IceCandidate {
            sdp_mid: self.sdp_mid.clone(),
            sdp_mline_index: self.sdp_mline_index,
            sdp: self.sdp.clone(),
        }
    }
}

} // verus!
