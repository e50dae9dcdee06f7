//! Data channels opened within a session.

use crate::peer_connection::RffiDataChannelInterface;
use vstd::prelude::*;

verus! {

/// Configuration handed to the engine with a new channel.
#[derive(Clone, Copy, Debug, PartialEq, Eq, Structural)]
pub struct RffiDataChannelInit {
    pub ordered: bool,
}

impl RffiDataChannelInit {
    pub fn new(ordered: bool) -> (r: Self)
        ensures
            r.ordered == ordered,
    {
        RffiDataChannelInit { ordered }
    }
}

/// An opened channel: the engine's channel and the label it was opened with.
/// Built only from a channel that the engine returned.
#[derive(Debug)]
pub struct DataChannel {
    rffi_data_channel: RffiDataChannelInterface,
    label: String,
}

impl DataChannel {
    pub closed spec fn spec_rffi_data_channel(&self) -> RffiDataChannelInterface {
        self.rffi_data_channel
    }

    pub closed spec fn spec_label(&self) -> Seq<char> {
        self.label@
    }

    pub(crate) fn new(rffi_data_channel: RffiDataChannelInterface, label: String) -> (r: Self)
        ensures
            r.spec_rffi_data_channel() == rffi_data_channel,
            r.spec_label() == label@,
    {
        DataChannel { rffi_data_channel, label }
    }

    pub fn get_rffi_interface(&self) -> (r: RffiDataChannelInterface)
        ensures
            r == self.spec_rffi_data_channel(),
    {
        self.rffi_data_channel
    }

    pub fn label(&self) -> (r: &str)
        ensures
            r@ == self.spec_label(),
    {
        self.label.as_str()
    }
}

} // verus!
