//! Frames and their wire form.
//!
//! A frame on the wire is a first byte of flags and opcode, a length of one,
//! three or nine bytes whose top bit says whether a masking key follows, the
//! four bytes of that key if it does, and the payload, XORed with the key
//! where there is one. [`encode`] and [`decode`] say this over byte
//! sequences; [`Frame::to_bytes`] and [`Frame::from`] compute them.

use vstd::prelude::*;
use vstd::slice::slice_subrange;
use vstd::slice::slice_to_vec;
use rand::Rng;
use crate::bytes::be_bytes;
use crate::bytes::be_value;
use crate::bytes::read_be;
use crate::bytes::write_be;
use crate::mask::apply_mask;
use crate::mask::mask_bytes;
use crate::opcode::DecodeError;
use crate::opcode::Opcode;

verus! {

/// A frame as a mathematical value: what [`Frame`] holds, with sequences in
/// place of buffers.
pub struct FrameView {
    pub fin: bool,
    pub rsv1: bool,
    pub rsv2: bool,
    pub rsv3: bool,
    pub opcode: Opcode,
    pub mask: bool,
    pub payload_len: nat,
    pub masking_key: Option<Seq<u8>>,
    pub payload_data: Seq<u8>,
}

impl FrameView {
    /// The invariants of a frame: the length is that of the payload and fits
    /// the widest length field, and a key of four bytes is there exactly when
    /// `mask` is set.
    pub open spec fn wf(self) -> bool {
        &&& self.payload_len == self.payload_data.len()
        &&& self.payload_len <= u64::MAX
        &&& self.mask <==> self.masking_key is Some
        &&& self.masking_key matches Some(key) ==> key.len() == 4
    }

    /// The final, unreserved frame with the given opcode, key and payload.
    pub open spec fn fresh(opcode: Opcode, masking_key: Option<Seq<u8>>, payload_data: Seq<u8>)
        -> FrameView {
        FrameView {
            fin: true,
            rsv1: false,
            rsv2: false,
            rsv3: false,
            opcode,
            mask: masking_key is Some,
            payload_len: payload_data.len(),
            masking_key,
            payload_data,
        }
    }
}

/// One message unit. `payload_data` is always the plain payload: masking is
/// applied when the frame is written and removed when it is read.
#[derive(Clone, Debug)]
pub struct Frame {
    pub fin: bool,
    pub rsv1: bool,
    pub rsv2: bool,
    pub rsv3: bool,
    pub opcode: Opcode,
    pub mask: bool,
    pub payload_len: usize,
    pub masking_key: Option<[u8; 4]>,
    pub payload_data: Vec<u8>,
}

/// The sequence of a key's bytes, if there is a key.
pub open spec fn key_view(masking_key: Option<[u8; 4]>) -> Option<Seq<u8>> {
    match masking_key {
        Some(key) => Some(key@),
        None => None,
    }
}

impl View for Frame {
    type V = FrameView;

    open spec fn view(&self) -> FrameView {
        FrameView {
            fin: self.fin,
            rsv1: self.rsv1,
            rsv2: self.rsv2,
            rsv3: self.rsv3,
            opcode: self.opcode,
            mask: self.mask,
            payload_len: self.payload_len as nat,
            masking_key: key_view(self.masking_key),
            payload_data: self.payload_data@,
        }
    }
}

/// What stands in front of a frame's payload, as a mathematical value.
pub struct HeaderView {
    pub fin: bool,
    pub rsv1: bool,
    pub rsv2: bool,
    pub rsv3: bool,
    pub opcode: Opcode,
    pub mask: bool,
    pub payload_len: nat,
    pub masking_key: Option<Seq<u8>>,
    /// The number of bytes in front of the payload, key included.
    pub header_len: nat,
}

/// What stands in front of a frame's payload.
#[derive(Clone, Copy, Debug)]
pub struct FrameHeader {
    pub fin: bool,
    pub rsv1: bool,
    pub rsv2: bool,
    pub rsv3: bool,
    pub opcode: Opcode,
    pub mask: bool,
    pub payload_len: u64,
    pub masking_key: Option<[u8; 4]>,
    /// The number of bytes in front of the payload, key included.
    pub header_len: usize,
}

impl View for FrameHeader {
    type V = HeaderView;

    open spec fn view(&self) -> HeaderView {
        HeaderView {
            fin: self.fin,
            rsv1: self.rsv1,
            rsv2: self.rsv2,
            rsv3: self.rsv3,
            opcode: self.opcode,
            mask: self.mask,
            payload_len: self.payload_len as nat,
            masking_key: key_view(self.masking_key),
            header_len: self.header_len as nat,
        }
    }
}

/// A flag as a bit.
pub open spec fn bit(flag: bool) -> u8 {
    if flag {
        1
    } else {
        0
    }
}

/// The first byte of a frame: `fin`, the three reserved bits, the opcode.
pub open spec fn first_byte(fin: bool, rsv1: bool, rsv2: bool, rsv3: bool, opcode: Opcode) -> u8 {
    bit(fin) << 7 | bit(rsv1) << 6 | bit(rsv2) << 5 | bit(rsv3) << 4 | opcode.value()
}

/// The length field of a frame: the mask bit with the length itself where it
/// is under 126, else with the marker 126 and two bytes, or 127 and eight.
pub open spec fn length_field(mask: bool, payload_len: nat) -> Seq<u8> {
    if payload_len < 126 {
        seq![bit(mask) << 7 | payload_len as u8]
    } else if payload_len < 65536 {
        seq![bit(mask) << 7 | 126u8] + be_bytes(payload_len, 2)
    } else {
        seq![bit(mask) << 7 | 127u8] + be_bytes(payload_len, 8)
    }
}

/// The payload as it goes on the wire: behind its key and XORed with it
/// where the frame is masked, else as it is.
pub open spec fn wire_payload(frame: FrameView) -> Seq<u8> {
    if frame.mask {
        frame.masking_key->0 + mask_bytes(frame.payload_data, frame.masking_key->0)
    } else {
        frame.payload_data
    }
}

/// The wire form of a frame.
pub open spec fn encode(frame: FrameView) -> Seq<u8>
    recommends
        frame.wf(),
{
    seq![first_byte(frame.fin, frame.rsv1, frame.rsv2, frame.rsv3, frame.opcode)] + length_field(
        frame.mask,
        frame.payload_len,
    ) + wire_payload(frame)
}

/// How many bytes of extended length follow a length marker.
pub open spec fn length_width(marker: u8) -> int {
    if marker == 126 {
        2
    } else if marker == 127 {
        8
    } else {
        0
    }
}

/// What the bytes in front of a payload say, or why they say nothing: no
/// first byte, a first byte with an unknown opcode, or too few bytes for the
/// length and the key that the second byte announces.
pub open spec fn decode_header(bytes: Seq<u8>) -> Result<HeaderView, DecodeError> {
    if bytes.len() < 1 {
        Err(DecodeError::ShortBuffer)
    } else if Opcode::of_value(bytes[0] & 0x0F) is None {
        Err(DecodeError::InvalidOpcode)
    } else if bytes.len() < 2 {
        Err(DecodeError::ShortBuffer)
    } else {
        let mask = bytes[1] & 0x80 != 0;
        let marker = bytes[1] & 0x7F;
        let key_at: int = 2 + length_width(marker);
        let header_len: int = if mask {
            key_at + 4
        } else {
            key_at
        };
        if bytes.len() < header_len {
            Err(DecodeError::ShortBuffer)
        } else {
            Ok(
                HeaderView {
                    fin: bytes[0] & 0x80 != 0,
                    rsv1: bytes[0] & 0x40 != 0,
                    rsv2: bytes[0] & 0x20 != 0,
                    rsv3: bytes[0] & 0x10 != 0,
                    opcode: Opcode::of_value(bytes[0] & 0x0F)->0,
                    mask,
                    payload_len: if marker < 126 {
                        marker as nat
                    } else {
                        be_value(bytes.subrange(2, key_at))
                    },
                    masking_key: if mask {
                        Some(bytes.subrange(key_at, key_at + 4))
                    } else {
                        None
                    },
                    header_len: header_len as nat,
                },
            )
        }
    }
}

/// The frame that `bytes` begins with, or why there is none. Bytes behind
/// the frame are not looked at.
pub open spec fn decode(bytes: Seq<u8>) -> Result<FrameView, DecodeError> {
    match decode_header(bytes) {
        Err(error) => Err(error),
        Ok(header) => if bytes.len() < header.header_len + header.payload_len {
            Err(DecodeError::ShortBuffer)
        } else {
            let raw = bytes.subrange(
                header.header_len as int,
                (header.header_len + header.payload_len) as int,
            );
            Ok(
                FrameView {
                    fin: header.fin,
                    rsv1: header.rsv1,
                    rsv2: header.rsv2,
                    rsv3: header.rsv3,
                    opcode: header.opcode,
                    mask: header.mask,
                    payload_len: header.payload_len,
                    masking_key: header.masking_key,
                    payload_data: match header.masking_key {
                        Some(key) => mask_bytes(raw, key),
                        None => raw,
                    },
                },
            )
        }
    }
}

/// The view of a header that was read, or the error.
pub open spec fn header_result_view(result: Result<FrameHeader, DecodeError>) -> Result<
    HeaderView,
    DecodeError,
> {
    match result {
        Ok(header) => Ok(header@),
        Err(error) => Err(error),
    }
}

/// The view of a frame that was read, or the error.
pub open spec fn frame_result_view(result: Result<Frame, DecodeError>) -> Result<
    FrameView,
    DecodeError,
> {
    match result {
        Ok(frame) => Ok(frame@),
        Err(error) => Err(error),
    }
}

/// Four bytes from `rand`'s thread-local generator, by `Rng::fill` on
/// `rand::thread_rng()`. Nothing is claimed of the bytes: each call may give
/// others. (The generator panics where the operating system gives it no
/// seed.)
#[verifier::external_body]
fn random_masking_key() -> (key: [u8; 4]) {
    let mut key = [0u8; 4];
    rand::thread_rng().fill(&mut key);
    key
}

fn flag_bit(flag: bool) -> (value: u8)
    ensures
        value == bit(flag),
{
    if flag {
        1
    } else {
        0
    }
}

impl Frame {
    /// The invariants of a frame hold.
    pub open spec fn wf(&self) -> bool {
        self@.wf()
    }

    /// A final frame with the given opcode, key and payload; no payload
    /// gives an empty one. The frame is masked exactly when a key is given.
    pub fn with_key(
        opcode: Opcode,
        masking_key: Option<[u8; 4]>,
        payload_data: Option<Vec<u8>>,
    ) -> (frame: Frame)
        ensures
            frame.wf(),
            frame@ == FrameView::fresh(
                opcode,
                key_view(masking_key),
                match payload_data {
                    Some(payload) => payload@,
                    None => Seq::empty(),
                },
            ),
    {
        let payload_data = match payload_data {
            Some(payload) => payload,
            None => Vec::new(),
        };
        Frame {
            fin: true,
            rsv1: false,
            rsv2: false,
            rsv3: false,
            opcode,
            mask: masking_key.is_some(),
            payload_len: payload_data.len(),
            masking_key,
            payload_data,
        }
    }

    /// A final frame with the given opcode and payload; no payload gives an
    /// empty one. Where `mask` is set the frame gets a key of four random
    /// bytes, and no key otherwise. The payload is kept as it is given.
    pub fn new(opcode: Opcode, mask: bool, payload_data: Option<Vec<u8>>) -> (frame: Frame)
        ensures
            frame.wf(),
            frame@.mask == mask,
            frame@ == FrameView::fresh(
                opcode,
                frame@.masking_key,
                match payload_data {
                    Some(payload) => payload@,
                    None => Seq::empty(),
                },
            ),
    {
        let masking_key = if mask {
            Some(random_masking_key())
        } else {
            None
        };
        Frame::with_key(opcode, masking_key, payload_data)
    }

    /// The wire form of the frame.
    pub fn to_bytes(self) -> (buffer: Vec<u8>)
        requires
            self.wf(),
        ensures
            buffer@ == encode(self@),
    {
        let mut buffer: Vec<u8> = Vec::new();
        let mask_bit = flag_bit(self.mask) << 7;
        buffer.push(
            flag_bit(self.fin) << 7 | flag_bit(self.rsv1) << 6 | flag_bit(self.rsv2) << 5
                | flag_bit(self.rsv3) << 4 | u8::from(self.opcode),
        );
        if self.payload_len < 126 {
            buffer.push(mask_bit | self.payload_len as u8);
        } else if self.payload_len < 65536 {
            buffer.push(mask_bit | 126u8);
            write_be(&mut buffer, self.payload_len as u64, 2);
        } else {
            buffer.push(mask_bit | 127u8);
            write_be(&mut buffer, self.payload_len as u64, 8);
        }
        match self.masking_key {
            Some(key) => {
                let mut key_bytes = slice_to_vec(key.as_slice());
                let mut masked = apply_mask(self.payload_data.as_slice(), &key);
                buffer.append(&mut key_bytes);
                buffer.append(&mut masked);
            },
            None => {
                let mut payload = self.payload_data;
                buffer.append(&mut payload);
            },
        }
        assert(buffer@ =~= encode(self@));
        buffer
    }

    /// Reads what stands in front of the payload of the frame that `buffer`
    /// begins with.
    pub fn read_header(buffer: &[u8]) -> (result: Result<FrameHeader, DecodeError>)
        ensures
            header_result_view(result) == decode_header(buffer@),
    {
        if buffer.len() < 1 {
            return Err(DecodeError::ShortBuffer);
        }
        let first = buffer[0];
        let opcode = match Opcode::from(first) {
            Ok(opcode) => opcode,
            Err(error) => {
                return Err(error);
            },
        };
        if buffer.len() < 2 {
            return Err(DecodeError::ShortBuffer);
        }
        let second = buffer[1];
        let mask = second & 0x80 != 0;
        let marker = second & 0x7F;
        assert(marker <= 127) by (bit_vector)
            requires
                marker == second & 0x7F,
        ;
        let width: usize = if marker == 126 {
            2
        } else if marker == 127 {
            8
        } else {
            0
        };
        let key_at: usize = 2 + width;
        let header_len: usize = if mask {
            key_at + 4
        } else {
            key_at
        };
        if buffer.len() < header_len {
            return Err(DecodeError::ShortBuffer);
        }
        let payload_len: u64 = if marker < 126 {
            marker as u64
        } else {
            read_be(buffer, 2, width)
        };
        let masking_key = if mask {
            let key = [buffer[key_at], buffer[key_at + 1], buffer[key_at + 2], buffer[key_at + 3]];
            assert(key@ =~= buffer@.subrange(key_at as int, key_at + 4));
            Some(key)
        } else {
            None
        };
        Ok(
            FrameHeader {
                fin: first & 0x80 != 0,
                rsv1: first & 0x40 != 0,
                rsv2: first & 0x20 != 0,
                rsv3: first & 0x10 != 0,
                opcode,
                mask,
                payload_len,
                masking_key,
                header_len,
            },
        )
    }

    /// Reads the frame that `buffer` begins with.
    pub fn from(buffer: &[u8]) -> (result: Result<Frame, DecodeError>)
        ensures
            frame_result_view(result) == decode(buffer@),
            result matches Ok(frame) ==> frame.wf(),
    {
        let header = match Frame::read_header(buffer) {
            Ok(header) => header,
            Err(error) => {
                return Err(error);
            },
        };
        if header.payload_len > (buffer.len() - header.header_len) as u64 {
            return Err(DecodeError::ShortBuffer);
        }
        let payload_len = header.payload_len as usize;
        let raw = slice_subrange(buffer, header.header_len, header.header_len + payload_len);
        let payload_data = match header.masking_key {
            Some(key) => apply_mask(raw, &key),
            None => slice_to_vec(raw),
        };
        Ok(
            Frame {
                fin: header.fin,
                rsv1: header.rsv1,
                rsv2: header.rsv2,
                rsv3: header.rsv3,
                opcode: header.opcode,
                mask: header.mask,
                payload_len,
                masking_key: header.masking_key,
                payload_data,
            },
        )
    }
}

} // verus!
