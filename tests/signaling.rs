use ringrtc::data_channel::RffiDataChannelInit;
use ringrtc::error::RingRtcError;
use ringrtc::ice_candidate::IceCandidate;
use ringrtc::peer_connection::{
    PeerConnection, RffiDataChannelInterface, RffiPeerConnectionInterface, SignalingOp,
};
use ringrtc::sdp::{SdpType, SessionDescription};
use ringrtc::sdp_observer::{
    CreateSessionDescriptionObserver, ObserverState, RffiCreateSessionDescriptionObserver,
    RffiSetSessionDescriptionObserver, SetSessionDescriptionObserver,
};
use ringrtc::text::check_c_text;

fn session() -> PeerConnection {
    PeerConnection::new(RffiPeerConnectionInterface { addr: 0x1000 })
}

fn offer() -> SessionDescription {
    SessionDescription::new(SdpType::Offer, "v=0\r\no=- 1 2 IN IP4 127.0.0.1\r\n".to_string())
}

#[test]
fn c_text_accepts_plain_and_empty_text() {
    assert!(check_c_text(""));
    assert!(check_c_text("candidate:1 1 UDP 2122260223 10.0.0.1 5000 typ host"));
    assert!(check_c_text("ünïcödé"));
}

#[test]
fn c_text_refuses_terminator_anywhere() {
    assert!(!check_c_text("\0"));
    assert!(!check_c_text("ab\0cd"));
    assert!(!check_c_text("abcd\0"));
}

#[test]
fn new_session_has_no_descriptions() {
    let pc = session();
    assert_eq!(pc.get_rffi_interface(), RffiPeerConnectionInterface { addr: 0x1000 });
    assert_eq!(pc.local_description(), None);
    assert_eq!(pc.remote_description(), None);
}

#[test]
fn data_channel_opened_under_requested_label() {
    let pc = session();
    let req = pc.create_data_channel("chat".to_string()).unwrap();
    assert_eq!(req.label(), "chat");
    assert_eq!(req.pc(), RffiPeerConnectionInterface { addr: 0x1000 });
    assert_eq!(req.config(), RffiDataChannelInit { ordered: true });
    let dc = req.complete(Some(RffiDataChannelInterface { addr: 0x2000 })).unwrap();
    assert_eq!(dc.label(), "chat");
    assert_eq!(dc.get_rffi_interface(), RffiDataChannelInterface { addr: 0x2000 });
}

#[test]
fn data_channel_null_from_engine_carries_label() {
    let pc = session();
    let req = pc.create_data_channel("chat".to_string()).unwrap();
    let r = req.complete(None);
    assert_eq!(r.unwrap_err(), RingRtcError::CreateDataChannel("chat".to_string()));
}

#[test]
fn data_channel_label_with_terminator_is_encoding_error() {
    let pc = session();
    let r = pc.create_data_channel("ch\0at".to_string());
    assert_eq!(r.unwrap_err(), RingRtcError::TextEncoding);
}

#[test]
fn data_channel_empty_label_is_accepted() {
    let pc = session();
    let req = pc.create_data_channel(String::new()).unwrap();
    assert_eq!(req.label(), "");
}

#[test]
fn candidate_with_terminator_in_tag_is_encoding_error() {
    let pc = session();
    let c = IceCandidate::new("au\0dio".to_string(), 0, "candidate:1 1 UDP".to_string());
    assert_eq!(pc.add_ice_candidate(&c).unwrap_err(), RingRtcError::TextEncoding);
}

#[test]
fn candidate_with_terminator_in_body_is_encoding_error() {
    let pc = session();
    let c = IceCandidate::new("audio".to_string(), 0, "candidate:1\0 1 UDP".to_string());
    assert_eq!(pc.add_ice_candidate(&c).unwrap_err(), RingRtcError::TextEncoding);
}

#[test]
fn candidate_fields_pass_through_unchanged() {
    let pc = session();
    let body = "candidate:1 1 UDP 2122260223 192.168.1.2 54321 typ host";
    let c = IceCandidate::new("video".to_string(), 7, body.to_string());
    let req = pc.add_ice_candidate(&c).unwrap();
    assert_eq!(req.pc(), RffiPeerConnectionInterface { addr: 0x1000 });
    assert_eq!(req.sdp_mid(), "video");
    assert_eq!(req.sdp_mline_index(), 7);
    assert_eq!(req.sdp(), body);
    assert_eq!(req.complete(true), Ok(()));
    assert_eq!(c, IceCandidate::new("video".to_string(), 7, body.to_string()));
}

#[test]
fn candidate_accept_and_reject_are_distinct() {
    let pc = session();
    let c = IceCandidate::new("audio".to_string(), 0, "candidate:1 1 UDP".to_string());
    let accepted = pc.add_ice_candidate(&c).unwrap().complete(true);
    let rejected = pc.add_ice_candidate(&c).unwrap().complete(false);
    assert_eq!(accepted, Ok(()));
    assert_eq!(rejected, Err(RingRtcError::AddIceCandidate));
    assert_ne!(accepted, rejected);
}

#[test]
fn candidate_clone_is_equal() {
    let c = IceCandidate::new("audio".to_string(), -1, "x".to_string());
    assert_eq!(c.clone(), c);
}

#[test]
fn create_offer_completes_exactly_once() {
    let pc = session();
    let mut obs = CreateSessionDescriptionObserver::new(RffiCreateSessionDescriptionObserver {
        addr: 0x3000,
    });
    assert!(obs.is_idle());
    assert_eq!(obs.result(), None);
    let call = pc.create_offer(&mut obs);
    assert_eq!(call.pc, RffiPeerConnectionInterface { addr: 0x1000 });
    assert!(matches!(
        call.op,
        SignalingOp::CreateOffer(RffiCreateSessionDescriptionObserver { addr: 0x3000 })
    ));
    assert!(!obs.is_idle());
    assert_eq!(obs.result(), None);
    assert!(obs.on_success(offer()));
    assert!(!obs.on_failure("late".to_string()));
    let other = SessionDescription::new(SdpType::Offer, "other".to_string());
    assert!(!obs.on_success(other));
    assert_eq!(obs.result(), Some(Ok(offer())));
}

#[test]
fn create_answer_failure_is_delivered_once() {
    let pc = session();
    let mut obs = CreateSessionDescriptionObserver::new(RffiCreateSessionDescriptionObserver {
        addr: 0x3100,
    });
    let call = pc.create_answer(&mut obs);
    assert!(matches!(call.op, SignalingOp::CreateAnswer(_)));
    assert!(obs.on_failure("no remote offer".to_string()));
    assert!(!obs.on_success(offer()));
    assert_eq!(obs.result(), Some(Err("no remote offer".to_string())));
}

#[test]
fn idle_observer_refuses_reports() {
    let mut obs = CreateSessionDescriptionObserver::new(RffiCreateSessionDescriptionObserver {
        addr: 0x3200,
    });
    assert!(!obs.on_success(offer()));
    assert!(obs.is_idle());
    assert_eq!(obs.result(), None);
}

#[test]
fn set_description_leaves_argument_untouched() {
    let pc = session();
    let desc = offer();
    let copy = desc.clone();
    let mut obs = SetSessionDescriptionObserver::new(RffiSetSessionDescriptionObserver {
        addr: 0x4000,
    });
    let call = pc.set_local_description(&mut obs, &desc);
    assert_eq!(desc, copy);
    match call.op {
        SignalingOp::SetLocalDescription(o, d) => {
            assert_eq!(o, RffiSetSessionDescriptionObserver { addr: 0x4000 });
            assert_eq!(d, copy);
        }
        _ => panic!("wrong operation"),
    }
    let mut obs2 = SetSessionDescriptionObserver::new(RffiSetSessionDescriptionObserver {
        addr: 0x4100,
    });
    let call2 = pc.set_remote_description(&mut obs2, &desc);
    assert_eq!(desc, copy);
    assert!(matches!(call2.op, SignalingOp::SetRemoteDescription(_, _)));
}

#[test]
fn offer_then_set_local_reports_local_description() {
    let mut pc = session();
    let mut create = CreateSessionDescriptionObserver::new(RffiCreateSessionDescriptionObserver {
        addr: 0x3000,
    });
    pc.create_offer(&mut create);
    assert!(create.on_success(offer()));
    let d = create.result().unwrap().unwrap();
    assert_eq!(d.sdp_type(), SdpType::Offer);
    let mut set = SetSessionDescriptionObserver::new(RffiSetSessionDescriptionObserver {
        addr: 0x4000,
    });
    pc.set_local_description(&mut set, &d);
    assert_eq!(pc.local_description(), None);
    assert!(pc.complete_set_description(&mut set, Ok(())));
    assert_eq!(set.result(), Some(Ok(())));
    assert_eq!(pc.local_description(), Some(d.clone()));
    assert_eq!(pc.local_description().unwrap().sdp(), d.sdp());
    assert_eq!(pc.remote_description(), None);
    assert!(!pc.complete_set_description(&mut set, Err("again".to_string())));
    assert_eq!(pc.local_description(), Some(d));
}

#[test]
fn set_remote_success_records_remote_description() {
    let mut pc = session();
    let remote = SessionDescription::new(SdpType::Offer, "remote".to_string());
    let mut set = SetSessionDescriptionObserver::new(RffiSetSessionDescriptionObserver {
        addr: 0x4200,
    });
    pc.set_remote_description(&mut set, &remote);
    assert!(pc.complete_set_description(&mut set, Ok(())));
    assert_eq!(pc.remote_description(), Some(remote));
    assert_eq!(pc.local_description(), None);
}

#[test]
fn set_failure_leaves_session_unchanged() {
    let mut pc = session();
    let mut set = SetSessionDescriptionObserver::new(RffiSetSessionDescriptionObserver {
        addr: 0x4300,
    });
    pc.set_local_description(&mut set, &offer());
    assert!(pc.complete_set_description(&mut set, Err("bad sdp".to_string())));
    assert_eq!(set.result(), Some(Err("bad sdp".to_string())));
    assert_eq!(pc.local_description(), None);
    assert!(!pc.complete_set_description(&mut set, Ok(())));
    assert_eq!(pc.local_description(), None);
}

#[test]
fn report_on_idle_set_observer_is_refused() {
    let mut pc = session();
    let mut set = SetSessionDescriptionObserver::new(RffiSetSessionDescriptionObserver {
        addr: 0x4400,
    });
    assert!(!pc.complete_set_description(&mut set, Ok(())));
    assert!(set.is_idle());
    assert_eq!(pc.local_description(), None);
    assert_eq!(pc.remote_description(), None);
}

#[test]
fn observer_state_values() {
    let s: ObserverState<SdpType, SessionDescription> = ObserverState::Pending(SdpType::Answer);
    assert_ne!(s, ObserverState::Idle);
}
