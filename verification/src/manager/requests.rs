//! The requests that the client puts together itself.

use crate::manager::callback::int64_value;
use crate::wire::field::{delimited_field, put_delimited_field, put_varint_field, varint_field};
use vstd::prelude::*;
use vstd::utf8::encode_utf8;

verus! {

/// Field number of the payload type inside a close-position request.
pub const CLOSE_PAYLOAD_TYPE_FIELD: u32 = 1;

/// Field number of the trader inside a close-position request.
pub const CLOSE_TRADER_ID_FIELD: u32 = 2;

/// Field number of the position inside a close-position request.
pub const CLOSE_POSITION_ID_FIELD: u32 = 3;

/// Field number of the volume inside a close-position request.
pub const CLOSE_VOLUME_FIELD: u32 = 4;

/// Field number of the channel inside a close-position request.
pub const CLOSE_CHANNEL_FIELD: u32 = 5;

/// Asks the gateway to close a position, wholly or in part.
#[derive(Clone, Debug, PartialEq, Eq)]
pub struct ProtoManagerClosePositionReq {
    pub payload_type: Option<i32>,
    pub trader_id: i64,
    pub position_id: i64,
    pub volume: i64,
    /// Where the request comes from.
    pub channel: Option<String>,
}

pub struct ProtoManagerClosePositionReqView {
    pub payload_type: Option<i32>,
    pub trader_id: i64,
    pub position_id: i64,
    pub volume: i64,
    pub channel: Option<Seq<char>>,
}

impl View for ProtoManagerClosePositionReq {
    type V = ProtoManagerClosePositionReqView;

    open spec fn view(&self) -> ProtoManagerClosePositionReqView {
        ProtoManagerClosePositionReqView {
            payload_type: self.payload_type,
            trader_id: self.trader_id,
            position_id: self.position_id,
            volume: self.volume,
            channel: match self.channel {
                Some(channel) => Some(channel@),
                None => None,
            },
        }
    }
}

/// The channel that a request names where it names none.
pub open spec fn default_channel() -> Seq<char> {
    "ManagerAPI"@
}

/// A 32-bit signed number widened to 64 bits, as the unsigned number with
/// the same bits.
pub open spec fn int32_value(v: i32) -> u64 {
    if v >= 0 {
        v as u64
    } else {
        (v + 0x1_0000_0000_0000_0000) as u64
    }
}

impl ProtoManagerClosePositionReqView {
    /// The request as it is sent: with its own channel, or with the default
    /// channel where it has none. Nothing else changes.
    pub open spec fn with_default_channel(self) -> ProtoManagerClosePositionReqView {
        ProtoManagerClosePositionReqView {
            channel: match self.channel {
                Some(channel) => Some(channel),
                None => Some(default_channel()),
            },
            ..self
        }
    }

    /// The payload of the request: the payload type where it has one, the
    /// trader, the position, the volume, and the channel where it has one,
    /// in the order of their field numbers.
    pub open spec fn payload(self) -> Seq<u8> {
        (match self.payload_type {
            Some(tag) => varint_field(CLOSE_PAYLOAD_TYPE_FIELD, int32_value(tag)),
            None => Seq::empty(),
        }) + varint_field(CLOSE_TRADER_ID_FIELD, int64_value(self.trader_id)) + varint_field(
            CLOSE_POSITION_ID_FIELD,
            int64_value(self.position_id),
        ) + varint_field(CLOSE_VOLUME_FIELD, int64_value(self.volume)) + (match self.channel {
            Some(channel) => delimited_field(CLOSE_CHANNEL_FIELD, encode_utf8(channel)),
            None => Seq::empty(),
        })
    }
}

/// The unsigned number with the bits of `v`.
pub fn int64_bits(v: i64) -> (bits: u64)
    ensures
        bits == int64_value(v),
{
    if v >= 0 {
        v as u64
    } else {
        u64::MAX - ((-(v + 1)) as u64)
    }
}

/// The unsigned 64-bit number with the bits of `v` widened.
pub fn int32_bits(v: i32) -> (bits: u64)
    ensures
        bits == int32_value(v),
{
    if v >= 0 {
        v as u64
    } else {
        u64::MAX - ((-(v + 1)) as u64)
    }
}

impl ProtoManagerClosePositionReq {
    /// The request with the default channel put in where it names none.
    pub fn with_default_channel(self) -> (sent: ProtoManagerClosePositionReq)
        ensures
            sent@ == self@.with_default_channel(),
    {
        let channel = match self.channel {
            Some(channel) => channel,
            None => "ManagerAPI".to_owned(),
        };
        ProtoManagerClosePositionReq {
            payload_type: self.payload_type,
            trader_id: self.trader_id,
            position_id: self.position_id,
            volume: self.volume,
            channel: Some(channel),
        }
    }

    /// The payload of the request.
    pub fn encode_payload(&self) -> (payload: Vec<u8>)
        ensures
            payload@ == self@.payload(),
    {
        let mut payload: Vec<u8> = Vec::new();
        match self.payload_type {
            Some(tag) => {
                put_varint_field(CLOSE_PAYLOAD_TYPE_FIELD, int32_bits(tag), &mut payload);
            },
            None => {},
        }
        put_varint_field(CLOSE_TRADER_ID_FIELD, int64_bits(self.trader_id), &mut payload);
        put_varint_field(CLOSE_POSITION_ID_FIELD, int64_bits(self.position_id), &mut payload);
        put_varint_field(CLOSE_VOLUME_FIELD, int64_bits(self.volume), &mut payload);
        match &self.channel {
            Some(channel) => {
                put_delimited_field(CLOSE_CHANNEL_FIELD, channel.as_str().as_bytes(), &mut payload);
            },
            None => {},
        }
        assert(payload@ =~= self@.payload());
        payload
    }
}

} // verus!
