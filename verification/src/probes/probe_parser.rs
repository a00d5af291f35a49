//! The capture path: from a raw 802.11 frame to a stored fingerprint.

use vstd::prelude::*;
use vstd::slice::slice_subrange;

use crate::models::{code_bit, code_upto, fingerprint, lemma_code_msb_first};
use crate::models::{ClassifierBank, ClassifierModel, CODE_BITS};
use crate::probes::fingerprint_store::{FingerprintBuffer, MAX_FINGERPRINTS};

verus! {

/// Length of the fixed MAC header; the probe body starts here.
pub const BODY_OFFSET: usize = 24;

/// The first three octets of a MAC address, which name its vendor.
#[derive(Clone, Copy, Debug, PartialEq, Eq, Structural)]
pub struct Oui(pub u8, pub u8, pub u8);

/// Vendor prefixes whose frames are not counted.
pub struct Denylist {
    prefixes: Vec<Oui>,
}

impl View for Denylist {
    type V = Seq<Oui>;

    closed spec fn view(&self) -> Seq<Oui> {
        self.prefixes@
    }
}

/// The vendor prefix of `mac` is one of `prefixes`.
pub open spec fn denied(prefixes: Seq<Oui>, mac: Seq<u8>) -> bool {
    exists|i: int| 0 <= i < prefixes.len() && #[trigger] prefixes[i] == Oui(mac[0], mac[1], mac[2])
}

/// The prefixes denied unless configured otherwise.
pub open spec fn default_prefixes() -> Seq<Oui> {
    seq![Oui(84, 138, 186), Oui(52, 152, 122), Oui(112, 211, 121), Oui(16, 60, 89)]
}

impl Denylist {
    /// A denylist of the given prefixes.
    pub fn new(prefixes: Vec<Oui>) -> (list: Self)
        ensures
            list@ == prefixes@,
    {
        Denylist { prefixes }
    }

    /// Whether frames sent from `mac` are to be ignored.
    pub fn denies(&self, mac: &[u8; 6]) -> (hit: bool)
        ensures
            hit == denied(self@, mac@),
    {
        let mut i: usize = 0;
        while i < self.prefixes.len()
            invariant
                i <= self.prefixes.len(),
                forall|k: int|
                    0 <= k < i ==> #[trigger] self.prefixes@[k] != Oui(mac@[0], mac@[1], mac@[2]),
            decreases self.prefixes.len() - i,
        {
            let p = self.prefixes[i];
            if p.0 == mac[0] && p.1 == mac[1] && p.2 == mac[2] {
                return true;
            }
            i += 1;
        }
        false
    }
}

impl Default for Denylist {
    /// The node's own vendor and the infrastructure vendors around it.
    fn default() -> (list: Self)
        ensures
            list@ == default_prefixes(),
    {
        let mut prefixes: Vec<Oui> = Vec::new();
        prefixes.push(Oui(84, 138, 186));
        prefixes.push(Oui(52, 152, 122));
        prefixes.push(Oui(112, 211, 121));
        prefixes.push(Oui(16, 60, 89));
        assert(prefixes@ =~= default_prefixes());
        Denylist { prefixes }
    }
}

/// What kind of frame the frame control field announces.
#[derive(Clone, Copy, Debug, PartialEq, Eq, Structural)]
pub enum FrameClass {
    /// A management frame of subtype probe request.
    ProbeRequest,
    /// Any other management frame.
    Management,
    /// A control frame.
    Control,
    /// A data frame.
    Data,
    /// A frame of the reserved type.
    Unknown,
}

/// What the capture path reads from a frame's header.
pub struct FrameHeader {
    /// Address 2, the transmitter, where the frame carries one.
    pub transmitter: Option<[u8; 6]>,
    /// Type and subtype, as far as the capture path tells them apart.
    pub class: FrameClass,
}

/// The frame's type: bits 2 and 3 of the first byte of the frame control
/// field. 0 is management, 1 control, 2 data, 3 reserved.
pub open spec fn frame_type_bits(first: u8) -> u8 {
    (first >> 2u8) & 0x3u8
}

/// The frame's subtype: the upper four bits of the first byte of the frame
/// control field.
pub open spec fn frame_subtype_bits(first: u8) -> u8 {
    (first >> 4u8) & 0xFu8
}

/// The class that the first byte of a frame announces. A probe request is a
/// management frame of subtype 4.
pub open spec fn class_of(first: u8) -> FrameClass {
    if frame_type_bits(first) == 0 {
        if frame_subtype_bits(first) == 4 {
            FrameClass::ProbeRequest
        } else {
            FrameClass::Management
        }
    } else if frame_type_bits(first) == 1 {
        FrameClass::Control
    } else if frame_type_bits(first) == 2 {
        FrameClass::Data
    } else {
        FrameClass::Unknown
    }
}

/// Whether frames that begin with this byte have a second address:
/// management and data frames do, and of the control frames the block
/// acknowledgement request (subtype 8), the block acknowledgement (9), the
/// power-save poll (10) and the end of the contention-free period (14).
pub open spec fn carries_transmitter(first: u8) -> bool {
    let subtype = frame_subtype_bits(first);
    ||| frame_type_bits(first) == 0
    ||| frame_type_bits(first) == 2
    ||| frame_type_bits(first) == 1 && (subtype == 8 || subtype == 9 || subtype == 10 || subtype
        == 14)
}

/// Whether `header` is what the 802.11 parser reads from `frame`.
///
/// The parser accepts exactly the frames of ten bytes or more. The class
/// follows from the first byte. The transmitter is there when the frame's
/// type has a second address and the frame reaches to its end at byte 16;
/// it is bytes 10 to 15.
pub open spec fn header_of(frame: Seq<u8>, header: Option<FrameHeader>) -> bool {
    &&& header is Some <==> frame.len() >= 10
    &&& header matches Some(h) ==> {
        &&& h.class == class_of(frame[0])
        &&& h.transmitter is Some <==> carries_transmitter(frame[0]) && frame.len() >= 16
        &&& h.transmitter matches Some(mac) ==> mac@ == frame.subrange(10, 16)
    }
}

/// Parses a frame without check sequence with `ieee80211::GenericFrame::new`,
/// then reads `address_2` and the frame type of `frame_control_field`.
///
/// The parser accepts a frame of ten bytes or more, whatever it holds. It
/// takes type and subtype from bits 2 to 7 of the first byte and ignores the
/// protocol version. It reports a second address, bytes 10 to 15, for the
/// types that have one, provided the frame reaches that far.
#[verifier::external_body]
fn parse_header(frame: &[u8]) -> (header: Option<FrameHeader>)
    ensures
        header_of(frame@, header),
{
    let generic = ieee80211::GenericFrame::new(frame, false).ok()?;
    let class = match generic.frame_control_field().frame_type() {
        ieee80211::common::FrameType::Management(
            ieee80211::common::ManagementFrameSubtype::ProbeRequest,
        ) => FrameClass::ProbeRequest,
        ieee80211::common::FrameType::Management(_) => FrameClass::Management,
        ieee80211::common::FrameType::Control(_) => FrameClass::Control,
        ieee80211::common::FrameType::Data(_) => FrameClass::Data,
        ieee80211::common::FrameType::Unknown(_) => FrameClass::Unknown,
    };
    Some(FrameHeader { transmitter: generic.address_2().map(|mac| mac.0), class })
}

/// What became of a captured frame.
#[derive(Clone, Copy, Debug, PartialEq, Eq, Structural)]
pub enum CaptureOutcome {
    /// The header could not be parsed.
    Malformed,
    /// The frame carries no transmitter address.
    NoTransmitter,
    /// The transmitter's vendor prefix is on the denylist.
    Denied,
    /// The frame is not a probe request.
    NotProbeRequest,
    /// The frame ends before the probe body starts.
    TooShort,
    /// The fingerprint was computed and stored.
    Stored(u16),
    /// The fingerprint was computed but the store was full: it is dropped and
    /// the caller should warn.
    Overflow(u16),
}

/// The outcome for a frame, given what the parser read from its header and
/// how many fingerprints the store holds.
pub open spec fn capture_outcome(
    header: Option<FrameHeader>,
    frame: Seq<u8>,
    prefixes: Seq<Oui>,
    bank: Seq<ClassifierModel>,
    held: nat,
) -> CaptureOutcome {
    match header {
        None => CaptureOutcome::Malformed,
        Some(h) => match h.transmitter {
            None => CaptureOutcome::NoTransmitter,
            Some(mac) => if denied(prefixes, mac@) {
                CaptureOutcome::Denied
            } else if h.class != FrameClass::ProbeRequest {
                CaptureOutcome::NotProbeRequest
            } else if frame.len() < BODY_OFFSET {
                CaptureOutcome::TooShort
            } else if held < MAX_FINGERPRINTS {
                CaptureOutcome::Stored(fingerprint(frame.skip(BODY_OFFSET as int), bank))
            } else {
                CaptureOutcome::Overflow(fingerprint(frame.skip(BODY_OFFSET as int), bank))
            },
        },
    }
}

/// What the store holds after a frame with the given outcome.
pub open spec fn store_after(held: Seq<u16>, outcome: CaptureOutcome) -> Seq<u16> {
    match outcome {
        CaptureOutcome::Stored(code) => held.push(code),
        _ => held,
    }
}

/// Compresses a probe body into a fingerprint.
///
/// Each classifier of the bank votes in turn; every vote shifts the code left
/// by one and fills the lowest bit, so the first classifier ends in the most
/// significant of the bank's bits. The function allocates nothing and accepts
/// every body, the empty one too.
pub fn fingerprint_probe(data: &[u8], bank: &ClassifierBank) -> (code: u16)
    ensures
        code == fingerprint(data@, bank@),
        forall|j: int|
            0 <= j < bank@.len() ==> code_bit(code, (bank@.len() - 1 - j) as nat)
                == #[trigger] bank@[j].output(data@),
        forall|k: nat| bank@.len() <= k < CODE_BITS ==> !#[trigger] code_bit(code, k),
{
    let n = bank.len();
    let mut code: u16 = 0;
    let mut idx: usize = 0;
    while idx < n
        invariant
            idx <= n,
            n == bank@.len(),
            code == code_upto(data@, bank@, idx as nat),
        decreases n - idx,
    {
        let vote: u16 = if bank.classifier(idx).output(data) {
            1
        } else {
            0
        };
        code = (code << 1u16) | vote;
        idx += 1;
    }
    proof {
        lemma_code_msb_first(data@, bank@, n as nat);
    }
    code
}

/// Handles a frame whose header has been read: filters it, fingerprints the
/// probe body and stores the fingerprint.
pub fn capture(
    header: Option<FrameHeader>,
    frame: &[u8],
    denylist: &Denylist,
    bank: &ClassifierBank,
    store: &mut FingerprintBuffer,
) -> (outcome: CaptureOutcome)
    ensures
        outcome == capture_outcome(header, frame@, denylist@, bank@, old(store)@.len()),
        final(store)@ == store_after(old(store)@, outcome),
        outcome is Overflow ==> old(store)@.len() == MAX_FINGERPRINTS,
{
    let header = match header {
        Some(h) => h,
        None => {
            return CaptureOutcome::Malformed;
        },
    };
    let source = match header.transmitter {
        Some(mac) => mac,
        None => {
            return CaptureOutcome::NoTransmitter;
        },
    };
    if denylist.denies(&source) {
        return CaptureOutcome::Denied;
    }
    match header.class {
        FrameClass::ProbeRequest => {},
        _ => {
            return CaptureOutcome::NotProbeRequest;
        },
    }
    if frame.len() < BODY_OFFSET {
        return CaptureOutcome::TooShort;
    }
    let body = slice_subrange(frame, BODY_OFFSET, frame.len());
    assert(body@ =~= frame@.skip(BODY_OFFSET as int));
    let code = fingerprint_probe(body, bank);
    if store.push(code) {
        CaptureOutcome::Stored(code)
    } else {
        CaptureOutcome::Overflow(code)
    }
}

/// The outcome for a frame, read from its bytes: the filters of the capture
/// path in the order in which they apply.
pub open spec fn frame_outcome(
    frame: Seq<u8>,
    prefixes: Seq<Oui>,
    bank: Seq<ClassifierModel>,
    held: nat,
) -> CaptureOutcome {
    if frame.len() < 10 {
        CaptureOutcome::Malformed
    } else if !(carries_transmitter(frame[0]) && frame.len() >= 16) {
        CaptureOutcome::NoTransmitter
    } else if denied(prefixes, frame.subrange(10, 16)) {
        CaptureOutcome::Denied
    } else if class_of(frame[0]) != FrameClass::ProbeRequest {
        CaptureOutcome::NotProbeRequest
    } else if frame.len() < BODY_OFFSET {
        CaptureOutcome::TooShort
    } else if held < MAX_FINGERPRINTS {
        CaptureOutcome::Stored(fingerprint(frame.skip(BODY_OFFSET as int), bank))
    } else {
        CaptureOutcome::Overflow(fingerprint(frame.skip(BODY_OFFSET as int), bank))
    }
}

/// The capture callback: takes one received frame through the whole path.
///
/// A frame is dropped silently unless the parser accepts it, it names a
/// transmitter that the denylist lets through, it is a probe request and it
/// reaches past the MAC header. The body of such a frame is fingerprinted and
/// the fingerprint pushed into the store; a full store refuses it.
pub fn read_packet(
    frame: &[u8],
    denylist: &Denylist,
    bank: &ClassifierBank,
    store: &mut FingerprintBuffer,
) -> (outcome: CaptureOutcome)
    ensures
        outcome == frame_outcome(frame@, denylist@, bank@, old(store)@.len()),
        final(store)@ == store_after(old(store)@, outcome),
        outcome is Overflow ==> old(store)@.len() == MAX_FINGERPRINTS,
{
    let header = parse_header(frame);
    capture(header, frame, denylist, bank, store)
}

} // verus!
