use trailsense_edge::models::{ClassifierBank, WeakClassifier};
use trailsense_edge::probes::fingerprint_store::{FingerprintBuffer, MAX_FINGERPRINTS};
use trailsense_edge::probes::probe_parser::{
    capture, fingerprint_probe, read_packet, CaptureOutcome, Denylist, FrameClass, FrameHeader,
    Oui, BODY_OFFSET,
};

const PROBE_REQUEST: u8 = 0x40;
const BEACON: u8 = 0x80;
const ACK: u8 = 0xD4;
const PS_POLL: u8 = 0xA4;
const DATA: u8 = 0x08;
const RESERVED: u8 = 0x0C;

fn frame(control: u8, transmitter: [u8; 6], body: &[u8]) -> Vec<u8> {
    let mut bytes = vec![control, 0x00, 0x00, 0x00];
    bytes.extend_from_slice(&[0xFF; 6]);
    bytes.extend_from_slice(&transmitter);
    bytes.extend_from_slice(&[0xFF; 6]);
    bytes.extend_from_slice(&[0x10, 0x00]);
    bytes.extend_from_slice(body);
    bytes
}

fn bank() -> ClassifierBank {
    ClassifierBank::new(vec![
        WeakClassifier::new(vec![0x0F, 0x00], vec![0x00, 0x00], 2).unwrap(),
        WeakClassifier::new(vec![0x00, 0xFF], vec![0xFF, 0x00], 1).unwrap(),
    ])
    .unwrap()
}

const PHONE: [u8; 6] = [0x02, 0x11, 0x22, 0x33, 0x44, 0x55];

#[test]
fn probe_request_is_fingerprinted_and_stored() {
    let mut store = FingerprintBuffer::new();
    let bytes = frame(PROBE_REQUEST, PHONE, &[0xA5, 0xFF]);
    assert_eq!(bytes.len(), BODY_OFFSET + 2);
    let outcome = read_packet(&bytes, &Denylist::default(), &bank(), &mut store);
    // first classifier: 2 >= 2; second: 8 - 4 >= 1
    assert_eq!(outcome, CaptureOutcome::Stored(0b11));
    assert_eq!(store.snapshot(), vec![0b11]);
    assert_eq!(fingerprint_probe(&[0xA5, 0xFF], &bank()), 0b11);
}

#[test]
fn probe_request_without_body_is_fingerprinted_as_empty() {
    let mut store = FingerprintBuffer::new();
    let bytes = frame(PROBE_REQUEST, PHONE, &[]);
    let outcome = read_packet(&bytes, &Denylist::default(), &bank(), &mut store);
    assert_eq!(outcome, CaptureOutcome::Stored(0));
    assert_eq!(store.len(), 1);
}

#[test]
fn short_frames_are_malformed() {
    let mut store = FingerprintBuffer::new();
    for len in 0..10 {
        let bytes = frame(PROBE_REQUEST, PHONE, &[]);
        let outcome = read_packet(&bytes[..len], &Denylist::default(), &bank(), &mut store);
        assert_eq!(outcome, CaptureOutcome::Malformed);
    }
    assert_eq!(store.len(), 0);
}

#[test]
fn frames_that_end_before_the_transmitter_have_none() {
    let mut store = FingerprintBuffer::new();
    for len in 10..16 {
        let bytes = frame(PROBE_REQUEST, PHONE, &[]);
        let outcome = read_packet(&bytes[..len], &Denylist::default(), &bank(), &mut store);
        assert_eq!(outcome, CaptureOutcome::NoTransmitter);
    }
    assert_eq!(store.len(), 0);
}

#[test]
fn frames_without_second_address_are_dropped() {
    let mut store = FingerprintBuffer::new();
    let bytes = frame(ACK, PHONE, &[1, 2, 3]);
    assert_eq!(
        read_packet(&bytes, &Denylist::default(), &bank(), &mut store),
        CaptureOutcome::NoTransmitter
    );
    let bytes = frame(RESERVED, PHONE, &[1, 2, 3]);
    assert_eq!(
        read_packet(&bytes, &Denylist::default(), &bank(), &mut store),
        CaptureOutcome::NoTransmitter
    );
    assert_eq!(store.len(), 0);
}

#[test]
fn denied_vendors_are_dropped() {
    let mut store = FingerprintBuffer::new();
    for oui in [[84u8, 138, 186], [52, 152, 122], [112, 211, 121], [16, 60, 89]] {
        let mac = [oui[0], oui[1], oui[2], 1, 2, 3];
        let bytes = frame(PROBE_REQUEST, mac, &[0xA5, 0xFF]);
        assert_eq!(
            read_packet(&bytes, &Denylist::default(), &bank(), &mut store),
            CaptureOutcome::Denied
        );
    }
    // Only the first three octets count.
    let bytes = frame(PROBE_REQUEST, [84, 138, 187, 84, 138, 186], &[0xA5, 0xFF]);
    assert_eq!(
        read_packet(&bytes, &Denylist::default(), &bank(), &mut store),
        CaptureOutcome::Stored(0b11)
    );
    assert_eq!(store.len(), 1);
}

#[test]
fn denylist_is_configurable() {
    let mut store = FingerprintBuffer::new();
    let mine = Denylist::new(vec![Oui(0x02, 0x11, 0x22)]);
    let bytes = frame(PROBE_REQUEST, PHONE, &[0xA5, 0xFF]);
    assert_eq!(read_packet(&bytes, &mine, &bank(), &mut store), CaptureOutcome::Denied);
    let bytes = frame(PROBE_REQUEST, [84, 138, 186, 0, 0, 0], &[0xA5, 0xFF]);
    assert_eq!(read_packet(&bytes, &mine, &bank(), &mut store), CaptureOutcome::Stored(0b11));
    let none = Denylist::new(Vec::new());
    assert!(!none.denies(&PHONE));
    assert!(mine.denies(&PHONE));
    assert!(!mine.denies(&[0x02, 0x11, 0x23, 0, 0, 0]));
    assert!(Denylist::default().denies(&[16, 60, 89, 9, 9, 9]));
}

#[test]
fn denylist_is_consulted_before_the_frame_type() {
    let mut store = FingerprintBuffer::new();
    let bytes = frame(BEACON, [84, 138, 186, 0, 0, 0], &[0; 8]);
    assert_eq!(
        read_packet(&bytes, &Denylist::default(), &bank(), &mut store),
        CaptureOutcome::Denied
    );
}

#[test]
fn other_frame_types_are_dropped() {
    let mut store = FingerprintBuffer::new();
    for control in [BEACON, DATA, PS_POLL, 0x00, 0x50] {
        let bytes = frame(control, PHONE, &[0xA5, 0xFF]);
        assert_eq!(
            read_packet(&bytes, &Denylist::default(), &bank(), &mut store),
            CaptureOutcome::NotProbeRequest
        );
    }
    assert_eq!(store.len(), 0);
}

#[test]
fn probe_requests_that_end_in_the_header_are_too_short() {
    let mut store = FingerprintBuffer::new();
    for len in 16..BODY_OFFSET {
        let bytes = frame(PROBE_REQUEST, PHONE, &[]);
        let outcome = read_packet(&bytes[..len], &Denylist::default(), &bank(), &mut store);
        assert_eq!(outcome, CaptureOutcome::TooShort);
    }
    assert_eq!(store.len(), 0);
}

#[test]
fn full_store_reports_overflow() {
    let mut store = FingerprintBuffer::new();
    for _ in 0..MAX_FINGERPRINTS {
        store.push(0);
    }
    let bytes = frame(PROBE_REQUEST, PHONE, &[0xA5, 0xFF]);
    let outcome = read_packet(&bytes, &Denylist::default(), &bank(), &mut store);
    assert_eq!(outcome, CaptureOutcome::Overflow(0b11));
    assert_eq!(store.len(), MAX_FINGERPRINTS);
    assert!(store.snapshot().iter().all(|c| *c == 0));
}

#[test]
fn capture_follows_the_header_it_is_given() {
    let mut store = FingerprintBuffer::new();
    let bytes = frame(BEACON, PHONE, &[0xA5, 0xFF]);
    let deny = Denylist::default();
    assert_eq!(capture(None, &bytes, &deny, &bank(), &mut store), CaptureOutcome::Malformed);
    let header = FrameHeader { transmitter: None, class: FrameClass::ProbeRequest };
    assert_eq!(
        capture(Some(header), &bytes, &deny, &bank(), &mut store),
        CaptureOutcome::NoTransmitter
    );
    let header = FrameHeader { transmitter: Some([16, 60, 89, 0, 0, 0]), class: FrameClass::ProbeRequest };
    assert_eq!(capture(Some(header), &bytes, &deny, &bank(), &mut store), CaptureOutcome::Denied);
    for class in [FrameClass::Management, FrameClass::Control, FrameClass::Data, FrameClass::Unknown] {
        let header = FrameHeader { transmitter: Some(PHONE), class };
        assert_eq!(
            capture(Some(header), &bytes, &deny, &bank(), &mut store),
            CaptureOutcome::NotProbeRequest
        );
    }
    let header = FrameHeader { transmitter: Some(PHONE), class: FrameClass::ProbeRequest };
    assert_eq!(
        capture(Some(header), &bytes[..23], &deny, &bank(), &mut store),
        CaptureOutcome::TooShort
    );
    assert_eq!(store.len(), 0);
    let header = FrameHeader { transmitter: Some(PHONE), class: FrameClass::ProbeRequest };
    assert_eq!(
        capture(Some(header), &bytes, &deny, &bank(), &mut store),
        CaptureOutcome::Stored(0b11)
    );
    assert_eq!(store.snapshot(), vec![0b11]);
}

#[test]
fn header_is_read_from_the_first_byte_and_the_length() {
    let nobody = Denylist::new(Vec::new());
    for first in 0..=255u8 {
        let frame_type = (first >> 2) & 0x3;
        let subtype = (first >> 4) & 0xF;
        let carries = frame_type == 0
            || frame_type == 2
            || (frame_type == 1 && [8u8, 9, 10, 14].contains(&subtype));
        let probe_request = frame_type == 0 && subtype == 4;
        for flags in [0x00u8, 0x01, 0x40, 0xFF] {
            for len in 0..=26usize {
                let mut bytes = frame(first, PHONE, &[0xA5, 0xFF]);
                bytes[1] = flags;
                bytes.truncate(len);
                let expected = if len < 10 {
                    CaptureOutcome::Malformed
                } else if !(carries && len >= 16) {
                    CaptureOutcome::NoTransmitter
                } else if !probe_request {
                    CaptureOutcome::NotProbeRequest
                } else if len < BODY_OFFSET {
                    CaptureOutcome::TooShort
                } else {
                    CaptureOutcome::Stored(fingerprint_probe(&bytes[BODY_OFFSET..], &bank()))
                };
                let mut store = FingerprintBuffer::new();
                assert_eq!(read_packet(&bytes, &nobody, &bank(), &mut store), expected);
            }
        }
    }
}

#[test]
fn transmitter_is_bytes_ten_to_fifteen() {
    let mut store = FingerprintBuffer::new();
    let mut bytes = frame(PROBE_REQUEST, PHONE, &[0xA5, 0xFF]);
    for (i, b) in bytes.iter_mut().enumerate() {
        if !(10..16).contains(&i) && i != 0 {
            *b = 0x77;
        }
    }
    let only_theirs = Denylist::new(vec![Oui(0x77, 0x77, 0x77)]);
    assert!(matches!(
        read_packet(&bytes, &only_theirs, &bank(), &mut store),
        CaptureOutcome::Stored(_)
    ));
    let only_his = Denylist::new(vec![Oui(PHONE[0], PHONE[1], PHONE[2])]);
    assert_eq!(read_packet(&bytes, &only_his, &bank(), &mut store), CaptureOutcome::Denied);
}
