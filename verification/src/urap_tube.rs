//! The sample-tube descriptor carried by a queue-add request: carrier
//! occupancy, tube type, a length-prefixed sample identifier, priority,
//! and the tube's height and diameter.

use vstd::prelude::*;
use vstd::string::StringSliceAdditionalSpecFns;
use vstd::utf8::{encode_utf8, valid_utf8};

use crate::bytebuf::{bm_append, bm_bytes, bm_get, bm_new, bm_put_u8};
use crate::enums::{CarrierOccupancy, DecodeError, SamplePriority, TubeType};
use crate::utils::{bytes_range_to_vec, sample_id_field_length, string_from_utf8};

verus! {

/// A sample-tube descriptor. On the wire it occupies `6 + n` bytes, where
/// `n` is the byte length of the sample identifier; the identifier must
/// fit in 255 bytes to be encodable.
#[derive(Debug)]
pub struct UrapTube {
    pub carrier_occupancy: CarrierOccupancy,
    pub tube_type: TubeType,
    pub sample_id: String,
    pub sample_priority: SamplePriority,
    pub tube_height: u8,
    pub tube_diameter: u8,
}

/// Mathematical image of a tube: the sample identifier as its UTF-8 bytes.
#[verifier::ext_equal]
pub ghost struct TubeModel {
    pub carrier_occupancy: CarrierOccupancy,
    pub tube_type: TubeType,
    pub sample_id: Seq<u8>,
    pub sample_priority: SamplePriority,
    pub tube_height: u8,
    pub tube_diameter: u8,
}

impl View for UrapTube {
    type V = TubeModel;

    open spec fn view(&self) -> TubeModel {
        TubeModel {
            carrier_occupancy: self.carrier_occupancy,
            tube_type: self.tube_type,
            sample_id: encode_utf8(self.sample_id@),
            sample_priority: self.sample_priority,
            tube_height: self.tube_height,
            tube_diameter: self.tube_diameter,
        }
    }
}

impl TubeModel {
    /// A tube model that can travel in a frame: its sample identifier is a
    /// string's worth of bytes and fits the 1-byte length prefix.
    pub open spec fn wf(self) -> bool {
        valid_utf8(self.sample_id) && self.sample_id.len() <= 255
    }
}

/// The bytes a tube writes: occupancy, tube type, length-prefixed sample
/// identifier, priority, height, diameter.
pub open spec fn spec_tube_bytes(t: TubeModel) -> Seq<u8> {
    seq![t.carrier_occupancy.value(), t.tube_type.value(), t.sample_id.len() as u8]
        + t.sample_id + seq![t.sample_priority.value(), t.tube_height, t.tube_diameter]
}

/// What decoding a tube at `offset` yields: the tube, or the first fault
/// found, in the order the fields are read. A field value outside its
/// declared range, or a sample identifier that is not UTF-8, rejects the
/// frame as malformed.
pub open spec fn spec_parse_tube(s: Seq<u8>, offset: int) -> Result<TubeModel, DecodeError>
    recommends
        0 <= offset,
{
    if offset + 3 > s.len() {
        Err(DecodeError::BufferTooShort)
    } else {
        match CarrierOccupancy::spec_from_u8(s[offset]) {
            None => Err(DecodeError::MalformedPayload),
            Some(occupancy) => match TubeType::spec_from_u8(s[offset + 1]) {
                None => Err(DecodeError::MalformedPayload),
                Some(tube_type) => {
                    let n = s[offset + 2] as int;
                    if offset + 6 + n > s.len() {
                        Err(DecodeError::BufferTooShort)
                    } else {
                        let sample = s.subrange(offset + 3, offset + 3 + n);
                        if !valid_utf8(sample) {
                            Err(DecodeError::MalformedPayload)
                        } else {
                            match SamplePriority::spec_from_u8(s[offset + 3 + n]) {
                                None => Err(DecodeError::MalformedPayload),
                                Some(priority) => Ok(
                                    TubeModel {
                                        carrier_occupancy: occupancy,
                                        tube_type,
                                        sample_id: sample,
                                        sample_priority: priority,
                                        tube_height: s[offset + 4 + n],
                                        tube_diameter: s[offset + 5 + n],
                                    },
                                ),
                            }
                        }
                    }
                },
            },
        }
    }
}

impl UrapTube {
    pub fn new(
        carrier_occupancy: CarrierOccupancy,
        tube_type: TubeType,
        sample_id: String,
        sample_priority: SamplePriority,
        tube_height: u8,
        tube_diameter: u8,
    ) -> (r: Self)
        ensures
            r.carrier_occupancy == carrier_occupancy,
            r.tube_type == tube_type,
            r.sample_id == sample_id,
            r.sample_priority == sample_priority,
            r.tube_height == tube_height,
            r.tube_diameter == tube_diameter,
    {
        UrapTube {
            carrier_occupancy,
            tube_type,
            sample_id,
            sample_priority,
            tube_height,
            tube_diameter,
        }
    }

    /// A fresh copy of this tube, field for field.
    pub fn duplicate(&self) -> (r: Self)
        ensures
            r@ == self@,
            r.sample_id == self.sample_id,
    {
        UrapTube {
            carrier_occupancy: self.carrier_occupancy,
            tube_type: self.tube_type,
            sample_id: self.sample_id.clone(),
            sample_priority: self.sample_priority,
            tube_height: self.tube_height,
            tube_diameter: self.tube_diameter,
        }
    }

    /// Writes the tube's fields in wire order; fails exactly when the
    /// sample identifier does not fit the 1-byte length prefix.
    pub fn encode(&self) -> (r: Result<bytes::BytesMut, DecodeError>)
        ensures
            match r {
                Ok(b) => self@.wf() && bm_bytes(b) == spec_tube_bytes(self@),
                Err(e) => e == DecodeError::FrameTooLarge && !self@.wf(),
            },
    {
        proof {
            vstd::utf8::encode_utf8_valid_utf8(self.sample_id@);
        }
        let sid = self.sample_id.as_str();
        proof {
            assert(sid.spec_bytes() =~= encode_utf8(self.sample_id@));
        }
        let sid_bytes = sid.as_bytes();
        if sid_bytes.len() > 255 {
            return Err(DecodeError::FrameTooLarge);
        }
        let mut dst = bm_new();
        bm_put_u8(&mut dst, self.carrier_occupancy.as_u8());
        bm_put_u8(&mut dst, self.tube_type.as_u8());
        let id_field = sample_id_field_length(sid);
        bm_append(&mut dst, &id_field);
        bm_put_u8(&mut dst, self.sample_priority.as_u8());
        bm_put_u8(&mut dst, self.tube_height);
        bm_put_u8(&mut dst, self.tube_diameter);
        proof {
            assert(bm_bytes(dst) =~= spec_tube_bytes(self@));
        }
        Ok(dst)
    }

    /// Reads a tube's fields starting at `offset`, in wire order.
    pub fn from_bytes(src: &bytes::BytesMut, offset: usize) -> (r: Result<UrapTube, DecodeError>)
        requires
            offset + 6 + 255 <= usize::MAX,
        ensures
            match (r, spec_parse_tube(bm_bytes(*src), offset as int)) {
                (Ok(t), Ok(m)) => t@ == m && m.wf(),
                (Err(e), Err(me)) => e == me,
                _ => false,
            },
    {
        let total = crate::bytebuf::bm_len(src);
        if offset > total || total - offset < 3 {
            return Err(DecodeError::BufferTooShort);
        }
        let occupancy = match CarrierOccupancy::try_from_u8(bm_get(src, offset)) {
            None => {
                return Err(DecodeError::MalformedPayload);
            },
            Some(o) => o,
        };
        let tube_type = match TubeType::try_from_u8(bm_get(src, offset + 1)) {
            None => {
                return Err(DecodeError::MalformedPayload);
            },
            Some(t) => t,
        };
        let n = bm_get(src, offset + 2) as usize;
        if total - offset < 6 || total - offset - 6 < n {
            return Err(DecodeError::BufferTooShort);
        }
        let sample_bytes = bytes_range_to_vec(src, offset + 3, n);
        let sample_id = match string_from_utf8(sample_bytes) {
            None => {
                return Err(DecodeError::MalformedPayload);
            },
            Some(s) => s,
        };
        let priority = match SamplePriority::try_from_u8(bm_get(src, offset + 3 + n)) {
            None => {
                return Err(DecodeError::MalformedPayload);
            },
            Some(p) => p,
        };
        let tube = UrapTube {
            carrier_occupancy: occupancy,
            tube_type,
            sample_id,
            sample_priority: priority,
            tube_height: bm_get(src, offset + 4 + n),
            tube_diameter: bm_get(src, offset + 5 + n),
        };
        proof {
            assert(tube@ =~= spec_parse_tube(bm_bytes(*src), offset as int).unwrap());
        }
        Ok(tube)
    }
}

/// Encoding a well-formed tube and parsing the bytes back yields the same
/// tube again, wherever in a frame the bytes stand.
pub proof fn lemma_tube_round_trip(t: TubeModel, prefix: Seq<u8>, suffix: Seq<u8>)
    requires
        t.wf(),
    ensures
        spec_parse_tube(prefix + spec_tube_bytes(t) + suffix, prefix.len() as int) == Ok::<
            TubeModel,
            DecodeError,
        >(t),
{
    let s = prefix + spec_tube_bytes(t) + suffix;
    let offset = prefix.len() as int;
    let n = t.sample_id.len() as int;
    assert(s[offset] == t.carrier_occupancy.value());
    assert(s[offset + 1] == t.tube_type.value());
    assert(s[offset + 2] == n as u8);
    assert(s.subrange(offset + 3, offset + 3 + n) =~= t.sample_id);
    assert(s[offset + 3 + n] == t.sample_priority.value());
    assert(s[offset + 4 + n] == t.tube_height);
    assert(s[offset + 5 + n] == t.tube_diameter);
    assert(CarrierOccupancy::spec_from_u8(t.carrier_occupancy.value())
        == Some(t.carrier_occupancy));
    assert(TubeType::spec_from_u8(t.tube_type.value()) == Some(t.tube_type));
    assert(SamplePriority::spec_from_u8(t.sample_priority.value()) == Some(t.sample_priority));
    assert(spec_parse_tube(s, offset).unwrap() =~= t);
}

} // verus!
