//! Domain enumerations carried in payload fields, the message-type tag
//! registry, and the decode error kinds.
//!
//! Each enumeration travels on the wire as a fixed-width unsigned integer;
//! the `value` spec functions give that wire value, the `as_*` methods
//! produce it, and the `try_from_*` methods map a wire value back, exactly
//! for the values of a declared variant.

use vstd::prelude::*;

verus! {

/// Interface position a tube is addressed at.
#[derive(Debug, Clone, Copy, PartialEq, Eq, Structural)]
pub enum InterfacePositionIndex {
    IP0,
    IP1,
}

/// What a carrier position holds.
#[derive(Debug, Clone, Copy, PartialEq, Eq, Structural)]
pub enum CarrierOccupancy {
    EmptyCarrier,
    UncappedTube,
    CappedTube,
}

/// Kind of sample tube.
#[derive(Debug, Clone, Copy, PartialEq, Eq, Structural)]
pub enum TubeType {
    Greiner,
}

/// Processing priority of a sample.
#[derive(Debug, Clone, Copy, PartialEq, Eq, Structural)]
pub enum SamplePriority {
    Undefined,
    Routine,
    STAT,
}

/// The 16-bit tag identifying a payload variant. `NoMessageType` stands
/// only for a not-yet-populated message and is never dispatched.
#[derive(Debug, Clone, Copy, PartialEq, Eq, Structural)]
pub enum MessageType {
    NoMessageType,
    AddQueueRequest,
    AddQueueResponse,
}

/// Status code carried by a queue-add response.
#[derive(Debug, Clone, Copy, PartialEq, Eq, Structural)]
pub enum AddQueueCommandStatusValues {
    CommandOk,
}

/// Why a frame was rejected. Every decode path returns one of these; no
/// decode path panics, and an error is local to the one frame.
#[derive(Debug, Clone, Copy, PartialEq, Eq, Structural)]
pub enum DecodeError {
    /// The start or end marker is missing, or the frame's length does not
    /// agree with its contents: the frame boundary is lost.
    FramingError,
    /// The message-type tag is not in the variant registry.
    UnknownMessageType,
    /// The checksum recomputed over header and payload differs from the
    /// transmitted one.
    ChecksumError,
    /// The buffer ends before the field being read: a truncated frame.
    BufferTooShort,
    /// A field exceeds its maximum encodable size, so no frame can carry it.
    FrameTooLarge,
    /// A payload field holds a value outside its declared range.
    MalformedPayload,
}

impl InterfacePositionIndex {
    /// Wire value of this variant.
    pub open spec fn value(self) -> u8 {
        match self {
            InterfacePositionIndex::IP0 => 0,
            InterfacePositionIndex::IP1 => 1,
        }
    }

    /// The variant a wire value stands for, if any.
    pub open spec fn spec_from_u8(v: u8) -> Option<InterfacePositionIndex> {
        if v == 0 {
            Some(InterfacePositionIndex::IP0)
        } else if v == 1 {
            Some(InterfacePositionIndex::IP1)
        } else {
            None
        }
    }

    pub fn as_u8(&self) -> (r: u8)
        ensures
            r == self.value(),
    {
        match self {
            InterfacePositionIndex::IP0 => 0,
            InterfacePositionIndex::IP1 => 1,
        }
    }

    pub fn try_from_u8(v: u8) -> (r: Option<InterfacePositionIndex>)
        ensures
            r == Self::spec_from_u8(v),
    {
        if v == 0 {
            Some(InterfacePositionIndex::IP0)
        } else if v == 1 {
            Some(InterfacePositionIndex::IP1)
        } else {
            None
        }
    }
}

impl CarrierOccupancy {
    /// Wire value of this variant.
    pub open spec fn value(self) -> u8 {
        match self {
            CarrierOccupancy::EmptyCarrier => 0,
            CarrierOccupancy::UncappedTube => 1,
            CarrierOccupancy::CappedTube => 2,
        }
    }

    /// The variant a wire value stands for, if any.
    pub open spec fn spec_from_u8(v: u8) -> Option<CarrierOccupancy> {
        if v == 0 {
            Some(CarrierOccupancy::EmptyCarrier)
        } else if v == 1 {
            Some(CarrierOccupancy::UncappedTube)
        } else if v == 2 {
            Some(CarrierOccupancy::CappedTube)
        } else {
            None
        }
    }

    pub fn as_u8(&self) -> (r: u8)
        ensures
            r == self.value(),
    {
        match self {
            CarrierOccupancy::EmptyCarrier => 0,
            CarrierOccupancy::UncappedTube => 1,
            CarrierOccupancy::CappedTube => 2,
        }
    }

    pub fn try_from_u8(v: u8) -> (r: Option<CarrierOccupancy>)
        ensures
            r == Self::spec_from_u8(v),
    {
        if v == 0 {
            Some(CarrierOccupancy::EmptyCarrier)
        } else if v == 1 {
            Some(CarrierOccupancy::UncappedTube)
        } else if v == 2 {
            Some(CarrierOccupancy::CappedTube)
        } else {
            None
        }
    }
}

impl TubeType {
    /// Wire value of this variant.
    pub open spec fn value(self) -> u8 {
        match self {
            TubeType::Greiner => 0,
        }
    }

    /// The variant a wire value stands for, if any.
    pub open spec fn spec_from_u8(v: u8) -> Option<TubeType> {
        if v == 0 {
            Some(TubeType::Greiner)
        } else {
            None
        }
    }

    pub fn as_u8(&self) -> (r: u8)
        ensures
            r == self.value(),
    {
        match self {
            TubeType::Greiner => 0,
        }
    }

    pub fn try_from_u8(v: u8) -> (r: Option<TubeType>)
        ensures
            r == Self::spec_from_u8(v),
    {
        if v == 0 {
            Some(TubeType::Greiner)
        } else {
            None
        }
    }
}

impl SamplePriority {
    /// Wire value of this variant.
    pub open spec fn value(self) -> u8 {
        match self {
            SamplePriority::Undefined => 0,
            SamplePriority::Routine => 1,
            SamplePriority::STAT => 2,
        }
    }

    /// The variant a wire value stands for, if any.
    pub open spec fn spec_from_u8(v: u8) -> Option<SamplePriority> {
        if v == 0 {
            Some(SamplePriority::Undefined)
        } else if v == 1 {
            Some(SamplePriority::Routine)
        } else if v == 2 {
            Some(SamplePriority::STAT)
        } else {
            None
        }
    }

    pub fn as_u8(&self) -> (r: u8)
        ensures
            r == self.value(),
    {
        match self {
            SamplePriority::Undefined => 0,
            SamplePriority::Routine => 1,
            SamplePriority::STAT => 2,
        }
    }

    pub fn try_from_u8(v: u8) -> (r: Option<SamplePriority>)
        ensures
            r == Self::spec_from_u8(v),
    {
        if v == 0 {
            Some(SamplePriority::Undefined)
        } else if v == 1 {
            Some(SamplePriority::Routine)
        } else if v == 2 {
            Some(SamplePriority::STAT)
        } else {
            None
        }
    }
}

impl AddQueueCommandStatusValues {
    /// Wire value of this variant.
    pub open spec fn value(self) -> u8 {
        match self {
            AddQueueCommandStatusValues::CommandOk => 0,
        }
    }

    /// The variant a wire value stands for, if any.
    pub open spec fn spec_from_u8(v: u8) -> Option<AddQueueCommandStatusValues> {
        if v == 0 {
            Some(AddQueueCommandStatusValues::CommandOk)
        } else {
            None
        }
    }

    pub fn as_u8(&self) -> (r: u8)
        ensures
            r == self.value(),
    {
        match self {
            AddQueueCommandStatusValues::CommandOk => 0,
        }
    }

    pub fn try_from_u8(v: u8) -> (r: Option<AddQueueCommandStatusValues>)
        ensures
            r == Self::spec_from_u8(v),
    {
        if v == 0 {
            Some(AddQueueCommandStatusValues::CommandOk)
        } else {
            None
        }
    }
}

impl MessageType {
    /// Wire value of this tag.
    pub open spec fn value(self) -> u16 {
        match self {
            MessageType::NoMessageType => 0,
            MessageType::AddQueueRequest => 0x0405,
            MessageType::AddQueueResponse => 0x0406,
        }
    }

    /// The tag a wire value stands for, if any.
    pub open spec fn spec_from_u16(v: u16) -> Option<MessageType> {
        if v == 0 {
            Some(MessageType::NoMessageType)
        } else if v == 0x0405 {
            Some(MessageType::AddQueueRequest)
        } else if v == 0x0406 {
            Some(MessageType::AddQueueResponse)
        } else {
            None
        }
    }

    pub fn as_u16(&self) -> (r: u16)
        ensures
            r == self.value(),
    {
        match self {
            MessageType::NoMessageType => 0,
            MessageType::AddQueueRequest => 0x0405,
            MessageType::AddQueueResponse => 0x0406,
        }
    }

    pub fn try_from_u16(v: u16) -> (r: Option<MessageType>)
        ensures
            r == Self::spec_from_u16(v),
    {
        if v == 0 {
            Some(MessageType::NoMessageType)
        } else if v == 0x0405 {
            Some(MessageType::AddQueueRequest)
        } else if v == 0x0406 {
            Some(MessageType::AddQueueResponse)
        } else {
            None
        }
    }
}

/// Every tag's wire value maps back to that tag: the registry loses nothing.
pub proof fn lemma_message_type_value_round_trip(t: MessageType)
    ensures
        MessageType::spec_from_u16(t.value()) == Some(t),
{
}

} // verus!
