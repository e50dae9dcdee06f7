//! The session handle and its signaling operations.
//!
//! Each operation checks what it is given, records what the session now
//! waits for, and returns the one native call that the embedding
//! application makes on the engine. What the engine reports back is handed
//! to a completing function, which decides the caller-visible result.

use crate::data_channel::{DataChannel, RffiDataChannelInit};
use crate::error::RingRtcError;
use crate::ice_candidate::IceCandidate;
use crate::sdp::{SdpType, SessionDescription};
use crate::sdp_observer::{
    fire_step,
    CreateSessionDescriptionObserver,
    DescriptionSide,
    ObserverState,
    PendingSet,
    RffiCreateSessionDescriptionObserver,
    RffiSetSessionDescriptionObserver,
    SetSessionDescriptionObserver,
};
use crate::text::{check_c_text, is_c_text};
use vstd::prelude::*;

verus! {

/// Native address of the engine's session.
#[derive(Clone, Copy, Debug, PartialEq, Eq, Structural)]
pub struct RffiPeerConnectionInterface {
    pub addr: usize,
}

/// Native address of one of the engine's data channels.
#[derive(Clone, Copy, Debug, PartialEq, Eq, Structural)]
pub struct RffiDataChannelInterface {
    pub addr: usize,
}

/// An asynchronous description operation to start on the engine.
#[derive(Debug)]
pub enum SignalingOp {
    CreateOffer(RffiCreateSessionDescriptionObserver),
    CreateAnswer(RffiCreateSessionDescriptionObserver),
    SetLocalDescription(RffiSetSessionDescriptionObserver, SessionDescription),
    SetRemoteDescription(RffiSetSessionDescriptionObserver, SessionDescription),
}

/// One asynchronous call to make on the session `pc`; its outcome comes
/// back through the observer named in `op`.
#[derive(Debug)]
pub struct SignalingCall {
    pub pc: RffiPeerConnectionInterface,
    pub op: SignalingOp,
}

/// The native call that opens a channel, with text already checked.
#[derive(Debug)]
pub struct DataChannelRequest {
    pc: RffiPeerConnectionInterface,
    label: String,
    config: RffiDataChannelInit,
}

/// The native call that adds a candidate, with text already checked.
#[derive(Debug)]
pub struct IceCandidateRequest {
    pc: RffiPeerConnectionInterface,
    sdp_mid: String,
    sdp_mline_index: i32,
    sdp: String,
}

/// Handle to one native session, with the descriptions that the engine has
/// confirmed as applied to it.
#[derive(Debug)]
pub struct PeerConnection {
    rffi_pc_interface: RffiPeerConnectionInterface,
    local_description: Option<SessionDescription>,
    remote_description: Option<SessionDescription>,
}

fn copy_description(d: &Option<SessionDescription>) -> (r: Option<SessionDescription>)
    ensures
        r == *d,
{
    match d {
        Some(d) => Some(d.clone()),
        None => None,
    }
}

impl PeerConnection {
    pub closed spec fn spec_rffi_pc_interface(&self) -> RffiPeerConnectionInterface {
        self.rffi_pc_interface
    }

    pub closed spec fn spec_local_description(&self) -> Option<SessionDescription> {
        self.local_description
    }

    pub closed spec fn spec_remote_description(&self) -> Option<SessionDescription> {
        self.remote_description
    }

    /// A handle bound to the engine's session `rffi_pc_interface`, with no
    /// description applied yet.
    pub fn new(rffi_pc_interface: RffiPeerConnectionInterface) -> (r: Self)
        ensures
            r.spec_rffi_pc_interface() == rffi_pc_interface,
            r.spec_local_description() is None,
            r.spec_remote_description() is None,
    {
        PeerConnection { rffi_pc_interface, local_description: None, remote_description: None }
    }

    pub fn get_rffi_interface(&self) -> (r: RffiPeerConnectionInterface)
        ensures
            r == self.spec_rffi_pc_interface(),
    {
        self.rffi_pc_interface
    }

    /// The local description the engine confirmed last, if any.
    pub fn local_description(&self) -> (r: Option<SessionDescription>)
        ensures
            r == self.spec_local_description(),
    {
        copy_description(&self.local_description)
    }

    /// The remote description the engine confirmed last, if any.
    pub fn remote_description(&self) -> (r: Option<SessionDescription>)
        ensures
            r == self.spec_remote_description(),
    {
        copy_description(&self.remote_description)
    }
}

/// `q` is what asking `pc` for a channel labelled `label` gives: a request
/// for exactly that label, ordered, on that session, when the label can
/// cross the native boundary; the encoding error otherwise.
pub open spec fn data_channel_requested(
    pc: RffiPeerConnectionInterface,
    label: Seq<char>,
    q: Result<DataChannelRequest, RingRtcError>,
) -> bool {
    if is_c_text(label) {
        &&& q matches Ok(req)
        &&& req.spec_pc() == pc
        &&& req.spec_label() == label
        &&& req.spec_config() == RffiDataChannelInit { ordered: true }
    } else {
        q == Err::<DataChannelRequest, RingRtcError>(RingRtcError::TextEncoding)
    }
}

/// `r` is what completing `req` gives when the engine returned `native`: the
/// channel under the requested label, or, when the engine returned none, the
/// creation failure carrying that label.
pub open spec fn data_channel_completed(
    req: DataChannelRequest,
    native: Option<RffiDataChannelInterface>,
    r: Result<DataChannel, RingRtcError>,
) -> bool {
    match native {
        Some(h) => {
            &&& r matches Ok(dc)
            &&& dc.spec_rffi_data_channel() == h
            &&& dc.spec_label() == req.spec_label()
        },
        None => {
            &&& r matches Err(RingRtcError::CreateDataChannel(l))
            &&& l@ == req.spec_label()
        },
    }
}

/// `q` is what asking `pc` to add candidate `c` gives: a request that
/// carries the tag, the index and the body unchanged, when both text fields
/// can cross the native boundary; the encoding error otherwise.
pub open spec fn ice_candidate_requested(
    pc: RffiPeerConnectionInterface,
    c: IceCandidate,
    q: Result<IceCandidateRequest, RingRtcError>,
) -> bool {
    if is_c_text(c.sdp_mid@) && is_c_text(c.sdp@) {
        &&& q matches Ok(req)
        &&& req.spec_pc() == pc
        &&& req.spec_sdp_mid() == c.sdp_mid@
        &&& req.spec_sdp_mline_index() == c.sdp_mline_index
        &&& req.spec_sdp() == c.sdp@
    } else {
        q == Err::<IceCandidateRequest, RingRtcError>(RingRtcError::TextEncoding)
    }
}

/// The result of adding a candidate once the engine answered `add_ok`.
pub open spec fn ice_candidate_added(add_ok: bool) -> Result<(), RingRtcError> {
    if add_ok {
        Ok(())
    } else {
        Err(RingRtcError::AddIceCandidate)
    }
}

/// A channel is never tied to another label than the one asked for: for a
/// label that can cross the native boundary, asking for a channel gives a
/// request, and completing it with whatever the engine returned gives either
/// a channel under that label or the creation failure carrying that label.
pub proof fn lemma_channel_keeps_label(
    pc: RffiPeerConnectionInterface,
    label: Seq<char>,
    q: Result<DataChannelRequest, RingRtcError>,
    native: Option<RffiDataChannelInterface>,
    r: Result<DataChannel, RingRtcError>,
)
    requires
        is_c_text(label),
        data_channel_requested(pc, label, q),
    ensures
        q is Ok,
        data_channel_completed(q->Ok_0, native, r) ==> match r {
            Ok(dc) => dc.spec_label() == label && native == Some(dc.spec_rffi_data_channel()),
            Err(e) => native is None && (e matches RingRtcError::CreateDataChannel(l) && l@
                == label),
        },
{
}

/// A candidate that the engine accepts was added with success and reached the
/// engine unchanged: the request built for it carries its tag, index and body
/// as they are, and completing it with the engine's acceptance gives success.
pub proof fn lemma_accepted_candidate_unchanged(
    pc: RffiPeerConnectionInterface,
    c: IceCandidate,
    q: Result<IceCandidateRequest, RingRtcError>,
)
    requires
        is_c_text(c.sdp_mid@),
        is_c_text(c.sdp@),
        ice_candidate_requested(pc, c, q),
    ensures
        q is Ok,
        q->Ok_0.spec_pc() == pc,
        q->Ok_0.spec_sdp_mid() == c.sdp_mid@,
        q->Ok_0.spec_sdp_mline_index() == c.sdp_mline_index,
        q->Ok_0.spec_sdp() == c.sdp@,
        ice_candidate_added(true) == Ok::<(), RingRtcError>(()),
{
}

/// A candidate whose tag or body holds `'\0'` fails with the encoding error,
/// and no request for the engine is made.
pub proof fn lemma_nul_candidate_rejected(
    pc: RffiPeerConnectionInterface,
    c: IceCandidate,
    q: Result<IceCandidateRequest, RingRtcError>,
)
    requires
        !is_c_text(c.sdp_mid@) || !is_c_text(c.sdp@),
        ice_candidate_requested(pc, c, q),
    ensures
        q == Err::<IceCandidateRequest, RingRtcError>(RingRtcError::TextEncoding),
{
}

impl DataChannelRequest {
    pub closed spec fn spec_pc(&self) -> RffiPeerConnectionInterface {
        self.pc
    }

    pub closed spec fn spec_label(&self) -> Seq<char> {
        self.label@
    }

    pub closed spec fn spec_config(&self) -> RffiDataChannelInit {
        self.config
    }

    pub fn pc(&self) -> (r: RffiPeerConnectionInterface)
        ensures
            r == self.spec_pc(),
    {
        self.pc
    }

    /// The label; it holds no `'\0'`.
    pub fn label(&self) -> (r: &str)
        ensures
            r@ == self.spec_label(),
    {
        self.label.as_str()
    }

    pub fn config(&self) -> (r: RffiDataChannelInit)
        ensures
            r == self.spec_config(),
    {
        self.config
    }

    /// Turns the engine's answer into the caller's result: the channel it
    /// returned, or the creation failure with the label when it returned none.
    pub fn complete(self, rffi_data_channel: Option<RffiDataChannelInterface>) -> (r: Result<
        DataChannel,
        RingRtcError,
    >)
        ensures
            data_channel_completed(self, rffi_data_channel, r),
    {
        match rffi_data_channel {
            Some(h) => Ok(DataChannel::new(h, self.label)),
            None => Err(RingRtcError::CreateDataChannel(self.label)),
        }
    }
}

impl IceCandidateRequest {
    pub closed spec fn spec_pc(&self) -> RffiPeerConnectionInterface {
        self.pc
    }

    pub closed spec fn spec_sdp_mid(&self) -> Seq<char> {
        self.sdp_mid@
    }

    pub closed spec fn spec_sdp_mline_index(&self) -> i32 {
        self.sdp_mline_index
    }

    pub closed spec fn spec_sdp(&self) -> Seq<char> {
        self.sdp@
    }

    pub fn pc(&self) -> (r: RffiPeerConnectionInterface)
        ensures
            r == self.spec_pc(),
    {
        self.pc
    }

    /// The media-stream tag; it holds no `'\0'`.
    pub fn sdp_mid(&self) -> (r: &str)
        ensures
            r@ == self.spec_sdp_mid(),
    {
        self.sdp_mid.as_str()
    }

    pub fn sdp_mline_index(&self) -> (r: i32)
        ensures
            r == self.spec_sdp_mline_index(),
    {
        self.sdp_mline_index
    }

    /// The candidate body; it holds no `'\0'`.
    pub fn sdp(&self) -> (r: &str)
        ensures
            r@ == self.spec_sdp(),
    {
        self.sdp.as_str()
    }

    /// Turns the engine's pass/fail answer into the caller's result.
    pub fn complete(self, add_ok: bool) -> (r: Result<(), RingRtcError>)
        ensures
            r == ice_candidate_added(add_ok),
    {
        if add_ok {
            Ok(())
        } else {
            Err(RingRtcError::AddIceCandidate)
        }
    }
}

impl PeerConnection {
    /// Asks for a new data channel labelled `label`. A label holding `'\0'`
    /// fails with the encoding error before anything reaches the engine;
    /// otherwise the result is the native call to make, whose answer goes to
    /// `DataChannelRequest::complete`.
    pub fn create_data_channel(&self, label: String) -> (r: Result<DataChannelRequest, RingRtcError>)
        ensures
            data_channel_requested(self.spec_rffi_pc_interface(), label@, r),
    {
        if !check_c_text(label.as_str()) {
            return Err(RingRtcError::TextEncoding);
        }
        let config = RffiDataChannelInit::new(true);
        Ok(DataChannelRequest { pc: self.rffi_pc_interface, label, config })
    }

    /// Asks to add `candidate`. A tag or body holding `'\0'` fails with the
    /// encoding error before anything reaches the engine; otherwise the
    /// result is the native call to make, carrying the candidate's fields
    /// unchanged, whose answer goes to `IceCandidateRequest::complete`. The
    /// caller keeps `candidate`.
    pub fn add_ice_candidate(&self, candidate: &IceCandidate) -> (r: Result<
        IceCandidateRequest,
        RingRtcError,
    >)
        ensures
            ice_candidate_requested(self.spec_rffi_pc_interface(), *candidate, r),
    {
        let clone = candidate.clone();
        if !check_c_text(clone.sdp_mid.as_str()) || !check_c_text(clone.sdp.as_str()) {
            return Err(RingRtcError::TextEncoding);
        }
        Ok(
            IceCandidateRequest {
                pc: self.rffi_pc_interface,
                sdp_mid: clone.sdp_mid,
                sdp_mline_index: clone.sdp_mline_index,
                sdp: clone.sdp,
            },
        )
    }
}

impl PeerConnection {
    /// Starts generating an offer. The observer, which must not have been
    /// handed to any operation before, now waits for the engine's single
    /// report; the result is the native call to make.
    pub fn create_offer(&self, csd_observer: &mut CreateSessionDescriptionObserver) -> (r:
        SignalingCall)
        requires
            old(csd_observer).spec_state() is Idle,
        ensures
            final(csd_observer).spec_state() == ObserverState::<
                SdpType,
                SessionDescription,
            >::Pending(SdpType::Offer),
            final(csd_observer).spec_rffi_observer() == old(csd_observer).spec_rffi_observer(),
            r.pc == self.spec_rffi_pc_interface(),
            r.op == SignalingOp::CreateOffer(old(csd_observer).spec_rffi_observer()),
    {
        csd_observer.issue(SdpType::Offer);
        SignalingCall {
            pc: self.rffi_pc_interface,
            op: SignalingOp::CreateOffer(csd_observer.get_rffi_observer()),
        }
    }

    /// Starts generating an answer, as `create_offer` does an offer. Whether
    /// a remote offer was applied first is for the engine to judge; it
    /// reports a failure through the observer.
    pub fn create_answer(&self, csd_observer: &mut CreateSessionDescriptionObserver) -> (r:
        SignalingCall)
        requires
            old(csd_observer).spec_state() is Idle,
        ensures
            final(csd_observer).spec_state() == ObserverState::<
                SdpType,
                SessionDescription,
            >::Pending(SdpType::Answer),
            final(csd_observer).spec_rffi_observer() == old(csd_observer).spec_rffi_observer(),
            r.pc == self.spec_rffi_pc_interface(),
            r.op == SignalingOp::CreateAnswer(old(csd_observer).spec_rffi_observer()),
    {
        csd_observer.issue(SdpType::Answer);
        SignalingCall {
            pc: self.rffi_pc_interface,
            op: SignalingOp::CreateAnswer(csd_observer.get_rffi_observer()),
        }
    }

    /// Starts applying `desc` as the local description. `desc` is only read;
    /// the call and the observer carry copies of it.
    pub fn set_local_description(
        &self,
        ssd_observer: &mut SetSessionDescriptionObserver,
        desc: &SessionDescription,
    ) -> (r: SignalingCall)
        requires
            old(ssd_observer).spec_state() is Idle,
        ensures
            final(ssd_observer).spec_state() == ObserverState::<PendingSet, ()>::Pending(
                (DescriptionSide::Local, *desc),
            ),
            final(ssd_observer).spec_rffi_observer() == old(ssd_observer).spec_rffi_observer(),
            r.pc == self.spec_rffi_pc_interface(),
            r.op == SignalingOp::SetLocalDescription(
                old(ssd_observer).spec_rffi_observer(),
                *desc,
            ),
    {
        ssd_observer.issue(DescriptionSide::Local, desc.clone());
        SignalingCall {
            pc: self.rffi_pc_interface,
            op: SignalingOp::SetLocalDescription(ssd_observer.get_rffi_observer(), desc.clone()),
        }
    }

    /// Starts applying `desc`, received from the peer, as the remote
    /// description. `desc` is only read.
    pub fn set_remote_description(
        &self,
        ssd_observer: &mut SetSessionDescriptionObserver,
        desc: &SessionDescription,
    ) -> (r: SignalingCall)
        requires
            old(ssd_observer).spec_state() is Idle,
        ensures
            final(ssd_observer).spec_state() == ObserverState::<PendingSet, ()>::Pending(
                (DescriptionSide::Remote, *desc),
            ),
            final(ssd_observer).spec_rffi_observer() == old(ssd_observer).spec_rffi_observer(),
            r.pc == self.spec_rffi_pc_interface(),
            r.op == SignalingOp::SetRemoteDescription(
                old(ssd_observer).spec_rffi_observer(),
                *desc,
            ),
    {
        ssd_observer.issue(DescriptionSide::Remote, desc.clone());
        SignalingCall {
            pc: self.rffi_pc_interface,
            op: SignalingOp::SetRemoteDescription(ssd_observer.get_rffi_observer(), desc.clone()),
        }
    }

    /// Delivers the engine's report for the set operation that
    /// `ssd_observer` waits on. The report is accepted only while the
    /// observer is pending; an accepted success makes the description it
    /// applied the session's local or remote description. Anything else
    /// leaves the session as it was.
    pub fn complete_set_description(
        &mut self,
        ssd_observer: &mut SetSessionDescriptionObserver,
        outcome: Result<(), String>,
    ) -> (accepted: bool)
        ensures
            (final(ssd_observer).spec_state(), accepted) == fire_step(
                old(ssd_observer).spec_state(),
                outcome,
            ),
            final(ssd_observer).spec_rffi_observer() == old(ssd_observer).spec_rffi_observer(),
            final(self).spec_rffi_pc_interface() == old(self).spec_rffi_pc_interface(),
            (final(self).spec_local_description(), final(self).spec_remote_description()) == (
            match (old(ssd_observer).spec_state(), outcome) {
                (ObserverState::Pending((DescriptionSide::Local, d)), Ok(_)) => (
                    Some(d),
                    old(self).spec_remote_description(),
                ),
                (ObserverState::Pending((DescriptionSide::Remote, d)), Ok(_)) => (
                    old(self).spec_local_description(),
                    Some(d),
                ),
                _ => (old(self).spec_local_description(), old(self).spec_remote_description()),
            }),
    {
        let succeeded = outcome.is_ok();
        match ssd_observer.fire(outcome) {
            Some((side, desc)) => {
                if succeeded {
                    match side {
                        DescriptionSide::Local => {
                            self.local_description = Some(desc);
                        },
                        DescriptionSide::Remote => {
                            self.remote_description = Some(desc);
                        },
                    }
                }
                true
            },
            None => false,
        }
    }
}

} // verus!
