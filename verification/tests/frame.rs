use websocket_server::bytes::{read_be, write_be};
use websocket_server::frame::{Frame, FrameHeader};
use websocket_server::mask::apply_mask;
use websocket_server::opcode::{DecodeError, Opcode};

fn text_frame(payload_data: Vec<u8>, masking_key: Option<[u8; 4]>) -> Frame {
    Frame {
        fin: true,
        rsv1: false,
        rsv2: false,
        rsv3: false,
        opcode: Opcode::Text,
        mask: masking_key.is_some(),
        payload_len: payload_data.len(),
        masking_key,
        payload_data,
    }
}

fn assert_same(a: &Frame, b: &Frame) {
    assert_eq!(a.fin, b.fin);
    assert_eq!(a.rsv1, b.rsv1);
    assert_eq!(a.rsv2, b.rsv2);
    assert_eq!(a.rsv3, b.rsv3);
    assert_eq!(a.opcode, b.opcode);
    assert_eq!(a.mask, b.mask);
    assert_eq!(a.payload_len, b.payload_len);
    assert_eq!(a.masking_key, b.masking_key);
    assert_eq!(a.payload_data, b.payload_data);
}

#[test]
fn test_frame_new_text_data() {
    let frame = Frame::new(Opcode::Text, false, Some(vec![0x4f, 0x4b]));
    assert_eq!(frame.opcode, Opcode::Text);
    assert_eq!(frame.mask, false);
    assert_eq!(frame.payload_len, 2);
    assert_eq!(frame.masking_key, None);
    assert_eq!(frame.payload_data, vec![0x4f, 0x4b]);
}

#[test]
fn test_frame_new_masking_text_data() {
    let frame = Frame::new(
        Opcode::Text,
        true,
        Some(vec![0x4f, 0x4b, 0x4f, 0x4b, 0x4f, 0x4b]),
    );
    assert_eq!(frame.opcode, Opcode::Text);
    assert_eq!(frame.mask, true);
    assert_eq!(frame.payload_len, 6);
    assert!(frame.masking_key.is_some());
    // The payload is kept plain; the key is applied when the frame is written.
    assert_eq!(
        frame.payload_data,
        vec![0x4f, 0x4b, 0x4f, 0x4b, 0x4f, 0x4b]
    );
    let m = frame.masking_key.unwrap();
    let wire = frame.to_bytes();
    assert_eq!(
        wire[6..].to_vec(),
        vec![
            0x4f ^ m[0],
            0x4b ^ m[1],
            0x4f ^ m[2],
            0x4b ^ m[3],
            0x4f ^ m[0],
            0x4b ^ m[1]
        ]
    );
}

#[test]
fn test_frame_from_text_data() {
    let buffer = [
        0b10000001, // fin, rsv1, rsv2, rsv3, opcode
        0b00000010, // mask, payload_len
        0x4f, 0x4b, // OK
    ];
    let frame = Frame::from(&buffer[..]).unwrap();
    assert_eq!(frame.fin, true);
    assert_eq!(frame.rsv1, false);
    assert_eq!(frame.rsv2, false);
    assert_eq!(frame.rsv3, false);
    assert_eq!(frame.opcode, Opcode::Text);
    assert_eq!(frame.mask, false);
    assert_eq!(frame.payload_len, 2);
    assert_eq!(frame.masking_key, None);
    assert_eq!(frame.payload_data, vec![0x4f, 0x4b]);
}

#[test]
fn test_frame_from_masking_text_data() {
    let buffer = [
        0b10000001, // fin, rsv1, rsv2, rsv3, opcode
        0b10000100, // mask, payload_len
        0b00000000, 0b01001011, 0b01010101, 0b10101010, // masking_key
        0b01001111, 0b00000000, 0b00011010, 0b11100001, // OKOK
    ];
    let frame = Frame::from(&buffer[..]).unwrap();
    assert_eq!(frame.opcode, Opcode::Text);
    assert_eq!(frame.mask, true);
    assert_eq!(
        frame.masking_key,
        Some([0b00000000, 0b01001011, 0b01010101, 0b10101010])
    );
    assert_eq!(frame.payload_data, vec![0x4f, 0x4b, 0x4f, 0x4b]);
}

#[test]
fn test_frame_from_medium_text_data() {
    let data: Vec<u8> = (0..256).map(|_| 0x40).collect();

    let mut buffer = [
        0b10000001, // fin, rsv1, rsv2, rsv3, opcode
        0b01111110, // mask, payload_len (extended)
        0x01, 0x00, // payload_len (256)
    ]
    .to_vec();
    buffer.append(&mut data.clone());

    let frame = Frame::from(&buffer[..]).unwrap();
    assert_eq!(frame.opcode, Opcode::Text);
    assert_eq!(frame.payload_len, 256);
    assert_eq!(frame.payload_data, data);
}

#[test]
fn test_frame_to_bytes_text_data() {
    let frame = Frame {
        fin: true,
        rsv1: false,
        rsv2: false,
        rsv3: false,
        opcode: Opcode::Text,
        mask: false,
        payload_len: 2,
        masking_key: None,
        payload_data: vec![0x4f, 0x4b],
    };
    let buffer = frame.to_bytes();
    assert_eq!(buffer, vec![0b10000001, 0b00000010, 0x4f, 0x4b]);
}

#[test]
fn test_frame_to_bytes_masking_text_data() {
    let frame = Frame {
        fin: true,
        rsv1: false,
        rsv2: false,
        rsv3: false,
        opcode: Opcode::Text,
        mask: true,
        payload_len: 6,
        masking_key: Some([0b00000000, 0b01001011, 0b01010101, 0b10101010]),
        payload_data: vec![0x4f, 0x4b, 0x4f, 0x4b, 0x4f, 0x4b],
    };

    let buffer = frame.to_bytes();
    assert_eq!(
        buffer,
        vec![
            // header
            0b10000001, 0b10000110, 0b00000000, 0b01001011, 0b01010101, 0b10101010,
            // data
            0b01001111, 0b00000000, 0b00011010, 0b11100001, 0b01001111, 0b00000000,
        ]
    );
}

#[test]
fn test_frame_to_bytes_medium_text_data() {
    let frame = Frame {
        fin: true,
        rsv1: false,
        rsv2: false,
        rsv3: false,
        opcode: Opcode::Text,
        mask: false,
        payload_len: 256,
        masking_key: None,
        payload_data: (0..256).map(|_| 0x40).collect(),
    };

    let buffer = frame.to_bytes();

    let mut expected = vec![
        // header
        0b10000001, 0b01111110, 0x01, 0x00,
    ];
    expected.append(&mut (0..256).map(|_| 0x40).collect::<Vec<u8>>());

    assert_eq!(buffer, expected);
}

#[test]
fn opcode_values_both_ways() {
    let all = [
        (Opcode::Continuation, 0x0u8),
        (Opcode::Text, 0x1),
        (Opcode::Binary, 0x2),
        (Opcode::Close, 0x8),
        (Opcode::Ping, 0x9),
        (Opcode::Pong, 0xA),
    ];
    for (opcode, value) in all {
        assert_eq!(u8::from(opcode), value);
        assert_eq!(Opcode::from(value), Ok(opcode));
        // Only the low four bits are read.
        assert_eq!(Opcode::from(value | 0xF0), Ok(opcode));
    }
}

#[test]
fn opcode_unknown_values_are_errors() {
    for value in [0x3u8, 0x4, 0x5, 0x6, 0x7, 0xB, 0xC, 0xD, 0xE, 0xF] {
        assert_eq!(Opcode::from(value), Err(DecodeError::InvalidOpcode));
        assert_eq!(Opcode::from(0x80 | value), Err(DecodeError::InvalidOpcode));
    }
}

#[test]
fn opcode_control_and_data() {
    assert!(Opcode::Close.is_control());
    assert!(Opcode::Ping.is_control());
    assert!(Opcode::Pong.is_control());
    assert!(!Opcode::Text.is_control());
    assert!(!Opcode::Binary.is_control());
    assert!(!Opcode::Continuation.is_control());
}

#[test]
fn mask_xors_with_the_key_in_turn() {
    let key = [0x01, 0x02, 0x04, 0x08];
    assert_eq!(
        apply_mask(&[0x10, 0x10, 0x10, 0x10, 0x10, 0xff], &key),
        vec![0x11, 0x12, 0x14, 0x18, 0x11, 0xfd]
    );
    assert_eq!(apply_mask(&[], &key), Vec::<u8>::new());
}

#[test]
fn mask_twice_is_identity() {
    let key = [0xde, 0xad, 0xbe, 0xef];
    let data: Vec<u8> = (0..=255u8).chain(0..=17u8).collect();
    let once = apply_mask(&data, &key);
    assert_ne!(once, data);
    assert_eq!(apply_mask(&once, &key), data);
}

#[test]
fn big_endian_write_and_read() {
    let mut buffer = vec![0xaa];
    write_be(&mut buffer, 0x0102, 2);
    assert_eq!(buffer, vec![0xaa, 0x01, 0x02]);
    write_be(&mut buffer, 0x0102_0304_0506_0708, 8);
    assert_eq!(
        buffer,
        vec![0xaa, 0x01, 0x02, 0x01, 0x02, 0x03, 0x04, 0x05, 0x06, 0x07, 0x08]
    );
    assert_eq!(read_be(&buffer, 1, 2), 0x0102);
    assert_eq!(read_be(&buffer, 3, 8), 0x0102_0304_0506_0708);
    assert_eq!(read_be(&buffer, 0, 0), 0);
    let mut low = Vec::new();
    write_be(&mut low, 0x0001_ffff, 2);
    assert_eq!(low, vec![0xff, 0xff]);
    assert_eq!(read_be(&[0xff; 8], 0, 8), u64::MAX);
}

#[test]
fn length_forms_at_the_boundaries() {
    for (len, head) in [
        (0usize, vec![0x81u8, 0x00]),
        (1, vec![0x81, 0x01]),
        (125, vec![0x81, 0x7d]),
        (126, vec![0x81, 0x7e, 0x00, 0x7e]),
        (127, vec![0x81, 0x7e, 0x00, 0x7f]),
        (65535, vec![0x81, 0x7e, 0xff, 0xff]),
        (
            65536,
            vec![0x81, 0x7f, 0x00, 0x00, 0x00, 0x00, 0x00, 0x01, 0x00, 0x00],
        ),
    ] {
        let payload = vec![0x61u8; len];
        let wire = text_frame(payload.clone(), None).to_bytes();
        assert_eq!(wire.len(), head.len() + len);
        assert_eq!(wire[..head.len()].to_vec(), head);
        assert_eq!(wire[head.len()..].to_vec(), payload);
    }
}

#[test]
fn length_forms_with_the_mask_bit() {
    let key = [1, 2, 3, 4];
    let wire = text_frame(vec![0u8; 126], Some(key)).to_bytes();
    assert_eq!(wire[..8].to_vec(), vec![0x81, 0xfe, 0x00, 0x7e, 1, 2, 3, 4]);
    assert_eq!(wire.len(), 8 + 126);
    assert_eq!(wire[8..12].to_vec(), vec![1, 2, 3, 4]);
    let wire = text_frame(vec![0u8; 65536], Some(key)).to_bytes();
    assert_eq!(
        wire[..14].to_vec(),
        vec![0x81, 0xff, 0, 0, 0, 0, 0, 1, 0, 0, 1, 2, 3, 4]
    );
}

#[test]
fn first_byte_carries_flags_and_opcode() {
    let frame = Frame {
        fin: false,
        rsv1: true,
        rsv2: false,
        rsv3: true,
        opcode: Opcode::Pong,
        mask: false,
        payload_len: 0,
        masking_key: None,
        payload_data: vec![],
    };
    assert_eq!(frame.to_bytes(), vec![0b0101_1010, 0x00]);
    let frame = Frame::from(&[0b0010_1001, 0x00]).unwrap();
    assert_eq!(frame.fin, false);
    assert_eq!(frame.rsv1, false);
    assert_eq!(frame.rsv2, true);
    assert_eq!(frame.rsv3, false);
    assert_eq!(frame.opcode, Opcode::Ping);
    assert_eq!(frame.payload_len, 0);
    assert_eq!(frame.payload_data, Vec::<u8>::new());
}

#[test]
fn roundtrip_unmasked_frames() {
    for len in [0usize, 1, 2, 125, 126, 127, 300, 65535, 65536, 70000] {
        for opcode in [
            Opcode::Continuation,
            Opcode::Text,
            Opcode::Binary,
            Opcode::Close,
            Opcode::Ping,
            Opcode::Pong,
        ] {
            let payload: Vec<u8> = (0..len).map(|i| (i % 251) as u8).collect();
            let frame = Frame {
                fin: len % 2 == 0,
                rsv1: len % 3 == 0,
                rsv2: len % 5 == 0,
                rsv3: len % 7 == 0,
                opcode,
                mask: false,
                payload_len: len,
                masking_key: None,
                payload_data: payload,
            };
            let wire = frame.clone().to_bytes();
            let back = Frame::from(&wire).unwrap();
            assert_same(&back, &frame);
        }
    }
}

#[test]
fn roundtrip_masked_frames() {
    let key = [0x37, 0xfa, 0x21, 0x3d];
    for len in [0usize, 1, 5, 125, 126, 65535, 65536] {
        let payload: Vec<u8> = (0..len).map(|i| (i * 7 % 256) as u8).collect();
        let frame = Frame::with_key(Opcode::Binary, Some(key), Some(payload.clone()));
        assert_eq!(frame.mask, true);
        assert_eq!(frame.payload_data, payload);
        let wire = frame.to_bytes();
        let back = Frame::from(&wire).unwrap();
        assert_eq!(back.payload_data, payload);
        assert_eq!(back.masking_key, Some(key));
        assert_eq!(back.opcode, Opcode::Binary);
        assert_eq!(back.payload_len, len);
        assert_eq!(back.to_bytes(), wire);
    }
}

#[test]
fn roundtrip_with_a_random_key() {
    let payload = b"Hello".to_vec();
    let frame = Frame::new(Opcode::Text, true, Some(payload.clone()));
    let key = frame.masking_key.unwrap();
    let wire = frame.to_bytes();
    assert_eq!(wire.len(), 2 + 4 + 5);
    assert_eq!(wire[..2].to_vec(), vec![0x81, 0x85]);
    assert_eq!(wire[2..6].to_vec(), key.to_vec());
    let back = Frame::from(&wire).unwrap();
    assert_eq!(back.payload_data, payload);
    assert_eq!(back.masking_key, Some(key));
}

#[test]
fn rfc_masked_hello() {
    let wire = [
        0x81, 0x85, 0x37, 0xfa, 0x21, 0x3d, 0x7f, 0x9f, 0x4d, 0x51, 0x58,
    ];
    let frame = Frame::from(&wire).unwrap();
    assert_eq!(frame.payload_data, b"Hello".to_vec());
    assert_eq!(frame.masking_key, Some([0x37, 0xfa, 0x21, 0x3d]));
    assert_eq!(frame.to_bytes(), wire.to_vec());
}

#[test]
fn new_defaults() {
    let frame = Frame::new(Opcode::Close, false, None);
    assert_eq!(frame.fin, true);
    assert_eq!(frame.rsv1, false);
    assert_eq!(frame.rsv2, false);
    assert_eq!(frame.rsv3, false);
    assert_eq!(frame.opcode, Opcode::Close);
    assert_eq!(frame.mask, false);
    assert_eq!(frame.payload_len, 0);
    assert_eq!(frame.masking_key, None);
    assert_eq!(frame.payload_data, Vec::<u8>::new());
    assert_eq!(frame.to_bytes(), vec![0x88, 0x00]);
    let masked = Frame::new(Opcode::Ping, true, None);
    assert_eq!(masked.mask, true);
    assert!(masked.masking_key.is_some());
    assert_eq!(masked.payload_len, 0);
}

#[test]
fn with_key_follows_the_key() {
    let plain = Frame::with_key(Opcode::Text, None, Some(vec![1, 2, 3]));
    assert_eq!(plain.mask, false);
    assert_eq!(plain.masking_key, None);
    assert_eq!(plain.payload_len, 3);
    let masked = Frame::with_key(Opcode::Text, Some([9, 8, 7, 6]), None);
    assert_eq!(masked.mask, true);
    assert_eq!(masked.masking_key, Some([9, 8, 7, 6]));
    assert_eq!(masked.payload_len, 0);
    assert_eq!(masked.to_bytes(), vec![0x81, 0x80, 9, 8, 7, 6]);
}

#[test]
fn decode_ignores_what_follows_the_frame() {
    let frame = Frame::from(&[0x81, 0x01, 0x41, 0x42, 0x43]).unwrap();
    assert_eq!(frame.payload_data, vec![0x41]);
    let mut buffer = [0u8; 4096];
    buffer[..4].copy_from_slice(&[0x81, 0x02, 0x4f, 0x4b]);
    let frame = Frame::from(&buffer).unwrap();
    assert_eq!(frame.payload_data, vec![0x4f, 0x4b]);
}

#[test]
fn decode_invalid_opcode() {
    assert_eq!(
        Frame::from(&[0x83, 0x00]).err(),
        Some(DecodeError::InvalidOpcode)
    );
    // The opcode is looked at before the second byte is asked for.
    assert_eq!(Frame::from(&[0x0f]).err(), Some(DecodeError::InvalidOpcode));
}

#[test]
fn decode_short_buffers() {
    let short: [&[u8]; 9] = [
        &[],
        &[0x81],
        &[0x81, 0x02, 0x4f],
        &[0x81, 0x7e, 0x01],
        &[0x81, 0x7e, 0x00, 0x01],
        &[0x81, 0x7f, 0, 0, 0, 0, 0, 0, 0],
        &[0x81, 0x80, 1, 2, 3],
        &[0x81, 0x81, 1, 2, 3, 4],
        &[0x81, 0xfe, 0x00, 0x7e, 1, 2, 3],
    ];
    for buffer in short {
        assert_eq!(Frame::from(buffer).err(), Some(DecodeError::ShortBuffer));
    }
}

#[test]
fn decode_huge_length_is_short_buffer() {
    let mut buffer = vec![0x81, 0x7f];
    buffer.extend_from_slice(&[0xff; 8]);
    buffer.extend_from_slice(&[0x00; 32]);
    assert_eq!(Frame::from(&buffer).err(), Some(DecodeError::ShortBuffer));
    let header: FrameHeader = Frame::read_header(&buffer).unwrap();
    assert_eq!(header.payload_len, u64::MAX);
    assert_eq!(header.header_len, 10);
    let mut buffer = vec![0x81, 0x7f];
    buffer.extend_from_slice(&[0x80, 0, 0, 0, 0, 0, 0, 0]);
    assert_eq!(Frame::from(&buffer).err(), Some(DecodeError::ShortBuffer));
    assert_eq!(
        Frame::read_header(&buffer).unwrap().payload_len,
        1u64 << 63
    );
}

#[test]
fn read_header_fields() {
    let header = Frame::read_header(&[0x89, 0xfe, 0x12, 0x34, 5, 6, 7, 8]).unwrap();
    assert_eq!(header.fin, true);
    assert_eq!(header.rsv1, false);
    assert_eq!(header.rsv2, false);
    assert_eq!(header.rsv3, false);
    assert_eq!(header.opcode, Opcode::Ping);
    assert_eq!(header.mask, true);
    assert_eq!(header.payload_len, 0x1234);
    assert_eq!(header.masking_key, Some([5, 6, 7, 8]));
    assert_eq!(header.header_len, 8);
    let header = Frame::read_header(&[0x01, 0x7d]).unwrap();
    assert_eq!(header.fin, false);
    assert_eq!(header.opcode, Opcode::Text);
    assert_eq!(header.mask, false);
    assert_eq!(header.payload_len, 125);
    assert_eq!(header.masking_key, None);
    assert_eq!(header.header_len, 2);
    assert_eq!(
        Frame::read_header(&[0x81, 0x80, 1, 2, 3]).err(),
        Some(DecodeError::ShortBuffer)
    );
}

#[test]
fn decode_accepts_long_form_of_a_short_length() {
    let frame = Frame::from(&[0x82, 0x7e, 0x00, 0x02, 0xaa, 0xbb]).unwrap();
    assert_eq!(frame.payload_len, 2);
    assert_eq!(frame.payload_data, vec![0xaa, 0xbb]);
    assert_eq!(frame.to_bytes(), vec![0x82, 0x02, 0xaa, 0xbb]);
}
