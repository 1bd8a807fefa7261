use mediasoup::data_structures::WebRtcMessage;
use mediasoup::frame::{classify_frame, decode_frame, encode_frame, FrameClass, FrameDecode};
use mediasoup::ids::{format_uuid, DataProducerId, RouterId};
use mediasoup::text::format_u64;

#[test]
fn frame_round_trip() {
    let payload = b"{\"id\":1}".to_vec();
    let frame = encode_frame(payload.clone());
    assert_eq!(frame.len(), payload.len() + 4);
    assert_eq!(&frame[0..4], &(payload.len() as u32).to_le_bytes());
    match decode_frame(&frame, 0) {
        FrameDecode::Frame { start, end } => {
            assert_eq!(start, 4);
            assert_eq!(end, frame.len());
            assert_eq!(&frame[start..end], payload.as_slice());
        }
        FrameDecode::Incomplete => panic!("complete frame not decoded"),
    }
}

#[test]
fn two_frames_decode_in_order() {
    let mut stream = encode_frame(b"first".to_vec());
    stream.extend_from_slice(&encode_frame(b"second!".to_vec()));
    let (s1, e1) = match decode_frame(&stream, 0) {
        FrameDecode::Frame { start, end } => (start, end),
        FrameDecode::Incomplete => panic!("first frame missing"),
    };
    assert_eq!(&stream[s1..e1], b"first");
    let (s2, e2) = match decode_frame(&stream, e1) {
        FrameDecode::Frame { start, end } => (start, end),
        FrameDecode::Incomplete => panic!("second frame missing"),
    };
    assert_eq!(&stream[s2..e2], b"second!");
    assert_eq!(e2, stream.len());
}

#[test]
fn partial_frames_wait_for_more_bytes() {
    let frame = encode_frame(b"abcdef".to_vec());
    assert_eq!(decode_frame(&frame[..2], 0), FrameDecode::Incomplete);
    assert_eq!(decode_frame(&frame[..7], 0), FrameDecode::Incomplete);
    assert_eq!(decode_frame(&frame, frame.len()), FrameDecode::Incomplete);
}

#[test]
fn classification_by_first_byte() {
    assert_eq!(classify_frame(b"{\"id\":1}"), FrameClass::ControlJson);
    assert_eq!(classify_frame(b"Dsome debug line"), FrameClass::DebugLog);
    assert_eq!(classify_frame(b"Wsome warning"), FrameClass::WarnLog);
    assert_eq!(classify_frame(b"Esome error"), FrameClass::ErrorLog);
    assert_eq!(classify_frame(b"Xdump body"), FrameClass::DumpLog);
    assert_eq!(classify_frame(b"zzz"), FrameClass::Unexpected);
    assert_eq!(classify_frame(b""), FrameClass::Unexpected);
}

#[test]
fn webrtc_message_round_trips() {
    let m = WebRtcMessage::String(b"hello".to_vec());
    let (ppid, payload) = m.clone().into_ppid_and_payload();
    assert_eq!(ppid, 51);
    assert_eq!(payload, b"hello".to_vec());
    assert_eq!(WebRtcMessage::new(ppid, payload), Some(m));

    let m = WebRtcMessage::Binary(vec![1, 2, 3]);
    let (ppid, payload) = m.clone().into_ppid_and_payload();
    assert_eq!(ppid, 53);
    assert_eq!(WebRtcMessage::new(ppid, payload), Some(m));

    let (ppid, payload) = WebRtcMessage::EmptyString.into_ppid_and_payload();
    assert_eq!((ppid, payload.clone()), (56, vec![b' ']));
    assert_eq!(WebRtcMessage::new(ppid, payload), Some(WebRtcMessage::EmptyString));

    let (ppid, payload) = WebRtcMessage::EmptyBinary.into_ppid_and_payload();
    assert_eq!((ppid, payload.clone()), (57, vec![0]));
    assert_eq!(WebRtcMessage::new(ppid, payload), Some(WebRtcMessage::EmptyBinary));

    assert_eq!(WebRtcMessage::new(99, vec![1]), None);
}

#[test]
fn uuid_renders_hyphenated() {
    assert_eq!(
        format_uuid(0x0123_4567_89ab_cdef_0011_2233_4455_6677u128),
        "01234567-89ab-cdef-0011-223344556677"
    );
    assert_eq!(format_uuid(0), "00000000-0000-0000-0000-000000000000");
    assert_eq!(format_uuid(u128::MAX), "ffffffff-ffff-ffff-ffff-ffffffffffff");
    let id = RouterId::from_u128(0xfe);
    assert_eq!(id.hyphenated_string(), "00000000-0000-0000-0000-0000000000fe");
}

#[test]
fn fresh_identifiers_differ() {
    let a = DataProducerId::new();
    let b = DataProducerId::new();
    assert_ne!(a.hyphenated_string(), b.hyphenated_string());
    assert_eq!(a.hyphenated_string().len(), 36);
}

#[test]
fn decimal_rendering() {
    assert_eq!(format_u64(0), "0");
    assert_eq!(format_u64(7), "7");
    assert_eq!(format_u64(1234567890), "1234567890");
    assert_eq!(format_u64(u64::MAX), "18446744073709551615");
}
