//! Message registry: the closed set of protocol message kinds, each with a
//! fixed payload size, plus the wire tag that names a kind inside a packet.

use vstd::prelude::*;

verus! {

/// Payload size of a `Params` message.
pub const PARAMS_SIZE: usize = 76;

/// Payload size of a `Controls` message.
pub const CONTROLS_SIZE: usize = 18;

/// The largest payload any message kind carries.
pub const MAX_PAYLOAD_SIZE: usize = PARAMS_SIZE;

/// The protocol's message kinds. The live instrument only exercises the
/// reading request/response pair, but the framing supports the full set.
#[derive(Clone, Copy, PartialEq, Eq, Structural, Debug)]
pub enum MsgType {
    /// Full parameter record, sent by the instrument.
    Params,
    /// Motor direction bits, packed into one byte.
    SetMotorDirs,
    /// Request for a parameter record.
    ReqParams,
    /// Acknowledgement, e.g. in response to setting something.
    Ack,
    /// Controls data, sent by the instrument.
    Controls,
    /// Request for controls data.
    ReqControls,
}

impl MsgType {
    /// Fixed payload byte count owned by each message kind.
    pub open spec fn spec_payload_size(self) -> usize {
        match self {
            MsgType::Params => PARAMS_SIZE,
            MsgType::SetMotorDirs => 1,
            MsgType::ReqParams => 0,
            MsgType::Ack => 0,
            MsgType::Controls => CONTROLS_SIZE,
            MsgType::ReqControls => 0,
        }
    }

    /// Fixed payload byte count owned by each message kind.
    pub fn payload_size(&self) -> (r: usize)
        ensures
            r == self.spec_payload_size(),
    {
        match self {
            MsgType::Params => PARAMS_SIZE,
            MsgType::SetMotorDirs => 1,
            MsgType::ReqParams => 0,
            MsgType::Ack => 0,
            MsgType::Controls => CONTROLS_SIZE,
            MsgType::ReqControls => 0,
        }
    }

    /// Wire tag of a message kind: the first byte of every packet.
    pub open spec fn spec_tag(self) -> u8 {
        match self {
            MsgType::Params => 0,
            MsgType::SetMotorDirs => 1,
            MsgType::ReqParams => 2,
            MsgType::Ack => 3,
            MsgType::Controls => 4,
            MsgType::ReqControls => 5,
        }
    }

    /// Wire tag of a message kind: the first byte of every packet.
    pub fn tag(&self) -> (r: u8)
        ensures
            r == self.spec_tag(),
    {
        match self {
            MsgType::Params => 0,
            MsgType::SetMotorDirs => 1,
            MsgType::ReqParams => 2,
            MsgType::Ack => 3,
            MsgType::Controls => 4,
            MsgType::ReqControls => 5,
        }
    }

    /// The message kind a wire tag names, if any.
    pub open spec fn spec_from_tag(t: u8) -> Option<MsgType> {
        if t == 0 {
            Some(MsgType::Params)
        } else if t == 1 {
            Some(MsgType::SetMotorDirs)
        } else if t == 2 {
            Some(MsgType::ReqParams)
        } else if t == 3 {
            Some(MsgType::Ack)
        } else if t == 4 {
            Some(MsgType::Controls)
        } else if t == 5 {
            Some(MsgType::ReqControls)
        } else {
            None
        }
    }

    /// The message kind a wire tag names; an unrecognized tag gives `None`.
    pub fn from_tag(t: u8) -> (r: Option<MsgType>)
        ensures
            r == Self::spec_from_tag(t),
    {
        if t == 0 {
            Some(MsgType::Params)
        } else if t == 1 {
            Some(MsgType::SetMotorDirs)
        } else if t == 2 {
            Some(MsgType::ReqParams)
        } else if t == 3 {
            Some(MsgType::Ack)
        } else if t == 4 {
            Some(MsgType::Controls)
        } else if t == 5 {
            Some(MsgType::ReqControls)
        } else {
            None
        }
    }
}

/// Tags name kinds uniquely: reading back the tag of any kind yields that
/// kind, so the registry's two directions never diverge.
pub proof fn lemma_tag_round_trip(kind: MsgType)
    ensures
        MsgType::spec_from_tag(kind.spec_tag()) == Some(kind),
{
}

} // verus!
