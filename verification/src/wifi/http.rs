//! The upload: what is sent to the ingestion endpoint, how a send proceeds,
//! and how its end is classified.

use vstd::prelude::*;
use vstd::string::StringSliceAdditionalSpecFns;
use vstd::utf8::encode_utf8;

use crate::packages::package_store::PackageEntity;

verus! {

/// Path of the ingestion endpoint below the base URL.
pub const INGEST_PATH: &'static str = "/ingest";

/// Most bytes the endpoint's URL may take.
pub const MAX_URL_LEN: usize = 128;

/// Times a request is opened before the send is given up.
pub const REQUEST_BUILD_ATTEMPTS: u8 = 3;

/// Pause between two attempts to open a request, in milliseconds.
pub const REQUEST_RETRY_DELAY_MS: u64 = 750;

/// How a send ended.
#[derive(Clone, Copy, Debug, PartialEq, Eq, Structural)]
pub enum SendDataOutcome {
    /// The endpoint answered with a 2xx status.
    Success,
    /// The endpoint's name could not be resolved.
    DnsFailure,
    /// The endpoint answered with another status, or the transport failed.
    Failure,
    /// The send did not end within its time limit.
    Timeout,
}

/// Why a transport operation failed.
#[derive(Clone, Copy, Debug, PartialEq, Eq, Structural)]
pub enum TransportFault {
    /// The chain of causes holds a failed name resolution.
    Dns,
    /// Anything else.
    Other,
}

/// The outcome that a response status stands for: success for 200 to 299,
/// failure for every other status.
pub open spec fn status_outcome(status: u16) -> SendDataOutcome {
    if 200 <= status <= 299 {
        SendDataOutcome::Success
    } else {
        SendDataOutcome::Failure
    }
}

/// The outcome of a send that ended in transport faults, given whether one of
/// them was a failed name resolution.
pub open spec fn fault_outcome(saw_dns: bool) -> SendDataOutcome {
    if saw_dns {
        SendDataOutcome::DnsFailure
    } else {
        SendDataOutcome::Failure
    }
}

/// Classifies a response by its status.
pub fn classify_status(status: u16) -> (outcome: SendDataOutcome)
    ensures
        outcome == status_outcome(status),
{
    if status >= 200 && status <= 299 {
        SendDataOutcome::Success
    } else {
        SendDataOutcome::Failure
    }
}

/// `heapless::String<N>`: a string with inline storage for at most `N` bytes.
#[verifier::external_type_specification]
#[verifier::external_body]
pub struct ExHeaplessString<const N: usize>(heapless::String<N>);

/// `serde_json::Error`: why a value could not be written as JSON.
#[verifier::external_type_specification]
#[verifier::external_body]
pub struct ExJsonError(serde_json::Error);

/// The text a fixed-capacity string holds.
pub uninterp spec fn url_text(url: heapless::String<MAX_URL_LEN>) -> Seq<char>;

/// `heapless::String::new` makes an empty string.
#[verifier::external_body]
fn url_new() -> (url: heapless::String<MAX_URL_LEN>)
    ensures
        url_text(url) == Seq::<char>::empty(),
{
    heapless::String::new()
}

/// `heapless::String::push_str` appends `part` when its UTF-8 bytes fit into
/// what is left of the capacity, [`MAX_URL_LEN`] bytes, and reports success;
/// otherwise the string is left as it is.
#[verifier::external_body]
fn url_push_str(url: &mut heapless::String<MAX_URL_LEN>, part: &str) -> (fits: bool)
    ensures
        fits == (encode_utf8(url_text(*old(url))).len() + part.spec_bytes().len() <= MAX_URL_LEN),
        fits ==> url_text(*final(url)) == url_text(*old(url)) + part@,
        !fits ==> url_text(*final(url)) == url_text(*old(url)),
{
    url.push_str(part).is_ok()
}

/// The JSON text of a string value: the string in double quotes, with the
/// characters escaped that JSON does not take as they are.
pub uninterp spec fn json_string_text(text: Seq<char>) -> Seq<u8>;

/// Whether JSON takes every character of `text` as it is: none is a control
/// character below U+0020, a double quote or a backslash.
pub open spec fn needs_no_escape(text: Seq<char>) -> bool {
    forall|i: int|
        0 <= i < text.len() ==> (#[trigger] text[i]) as u32 >= 0x20 && text[i] != '"' && text[i]
            != '\\'
}

/// `text` in double quotes, in UTF-8.
pub open spec fn quoted(text: Seq<char>) -> Seq<u8> {
    seq![0x22u8] + encode_utf8(text) + seq![0x22u8]
}

/// The decimal digits of a number, without sign or leading zeros.
pub open spec fn decimal(n: nat) -> Seq<u8>
    decreases n,
{
    if n < 10 {
        seq![(48 + n) as u8]
    } else {
        decimal(n / 10).push((48 + n % 10) as u8)
    }
}

/// `serde_json::to_vec` on an unsigned integer writes its decimal digits. It
/// writes into a vector of its own, which takes every write, so it does not
/// fail.
#[verifier::external_body]
fn json_unsigned(value: u64) -> (text: Result<Vec<u8>, serde_json::Error>)
    ensures
        text is Ok,
        text matches Ok(digits) ==> digits@ == decimal(value as nat),
{
    serde_json::to_vec(&value)
}

/// `serde_json::to_vec` on a string writes it as a JSON string: in double
/// quotes, escaping only control characters, the double quote and the
/// backslash. It writes into a vector of its own, which takes every write,
/// so it does not fail.
#[verifier::external_body]
fn json_string(value: &str) -> (text: Result<Vec<u8>, serde_json::Error>)
    ensures
        text is Ok,
        text matches Ok(written) ==> written@ == json_string_text(value@),
        text matches Ok(written) ==> (needs_no_escape(value@) ==> written@ == quoted(value@)),
{
    serde_json::to_vec(value)
}

/// The JSON texts of one aggregate's numbers.
pub struct RecordText {
    /// The age in seconds.
    pub age: Vec<u8>,
    /// The count.
    pub count: Vec<u8>,
}

/// One record of the upload body: the fields in the order `age_in_seconds`,
/// `count`, `node_id`, without white space, given each value's JSON text.
pub open spec fn record_text(age: Seq<u8>, count: Seq<u8>, node: Seq<u8>) -> Seq<u8> {
    "{\"age_in_seconds\":".spec_bytes() + age + ",\"count\":".spec_bytes() + count
        + ",\"node_id\":".spec_bytes() + node + "}".spec_bytes()
}

/// The first `n` records, separated by commas.
pub open spec fn records_text(records: Seq<RecordText>, node: Seq<u8>, n: nat) -> Seq<u8>
    decreases n,
{
    if n == 0 {
        Seq::empty()
    } else {
        let record = record_text(records[n - 1].age@, records[n - 1].count@, node);
        if n == 1 {
            record
        } else {
            records_text(records, node, (n - 1) as nat) + ",".spec_bytes() + record
        }
    }
}

/// A JSON array of the records, in order, without white space or trailing
/// newline.
pub open spec fn array_text(records: Seq<RecordText>, node: Seq<u8>) -> Seq<u8> {
    "[".spec_bytes() + records_text(records, node, records.len()) + "]".spec_bytes()
}

/// Whether `records` hold the decimal digits of the ages and counts of
/// `packages`, one for one.
pub open spec fn records_of(records: Seq<RecordText>, packages: Seq<PackageEntity>) -> bool {
    &&& records.len() == packages.len()
    &&& forall|i: int|
        0 <= i < records.len() ==> {
            &&& (#[trigger] records[i]).age@ == decimal(packages[i].age_in_seconds as nat)
            &&& records[i].count@ == decimal(packages[i].count as nat)
        }
}

/// The first `n` records of the upload body for `packages`, separated by
/// commas: each with the aggregate's age and count in decimal digits.
pub open spec fn entries_text(packages: Seq<PackageEntity>, node: Seq<u8>, n: nat) -> Seq<u8>
    decreases n,
{
    if n == 0 {
        Seq::empty()
    } else {
        let record = record_text(
            decimal(packages[n - 1].age_in_seconds as nat),
            decimal(packages[n - 1].count as nat),
            node,
        );
        if n == 1 {
            record
        } else {
            entries_text(packages, node, (n - 1) as nat) + ",".spec_bytes() + record
        }
    }
}

/// The upload body for `packages`: a JSON array with one record per
/// aggregate, oldest first, given the JSON text of the node identifier.
pub open spec fn payload_text(packages: Seq<PackageEntity>, node: Seq<u8>) -> Seq<u8> {
    "[".spec_bytes() + entries_text(packages, node, packages.len()) + "]".spec_bytes()
}

/// Records that hold the digits of the aggregates frame to the upload body.
pub proof fn lemma_records_frame_payload(
    records: Seq<RecordText>,
    packages: Seq<PackageEntity>,
    node: Seq<u8>,
    n: nat,
)
    requires
        records_of(records, packages),
        n <= records.len(),
    ensures
        records_text(records, node, n) == entries_text(packages, node, n),
        n == records.len() ==> array_text(records, node) == payload_text(packages, node),
    decreases n,
{
    if n > 0 {
        lemma_records_frame_payload(records, packages, node, (n - 1) as nat);
    }
}

/// Appends `bytes` to `out`.
fn append_bytes(out: &mut Vec<u8>, bytes: &[u8])
    ensures
        final(out)@ == old(out)@ + bytes@,
{
    let mut i: usize = 0;
    while i < bytes.len()
        invariant
            i <= bytes.len(),
            out@ == old(out)@ + bytes@.take(i as int),
        decreases bytes.len() - i,
    {
        out.push(bytes[i]);
        assert(bytes@.take(i + 1) =~= bytes@.take(i as int).push(bytes@[i as int]));
        i += 1;
    }
    assert(bytes@.take(i as int) =~= bytes@);
}

/// Appends the UTF-8 bytes of `text` to `out`.
fn append_text(out: &mut Vec<u8>, text: &str)
    ensures
        final(out)@ == old(out)@ + text.spec_bytes(),
{
    append_bytes(out, text.as_bytes());
}

/// Appends one record to `out`, given each value's JSON text.
pub fn write_record(out: &mut Vec<u8>, age: &[u8], count: &[u8], node: &[u8])
    ensures
        final(out)@ == old(out)@ + record_text(age@, count@, node@),
{
    append_text(out, "{\"age_in_seconds\":");
    append_bytes(out, age);
    append_text(out, ",\"count\":");
    append_bytes(out, count);
    append_text(out, ",\"node_id\":");
    append_bytes(out, node);
    append_text(out, "}");
    assert(out@ =~= old(out)@ + record_text(age@, count@, node@));
}

/// Frames the upload body from the JSON texts of its values: one record per
/// entry of `records`, in order, each carrying `node`.
pub fn frame_payload(records: &[RecordText], node: &[u8]) -> (body: Vec<u8>)
    ensures
        body@ == array_text(records@, node@),
{
    let mut out: Vec<u8> = Vec::new();
    append_text(&mut out, "[");
    let mut i: usize = 0;
    while i < records.len()
        invariant
            i <= records.len(),
            out@ == "[".spec_bytes() + records_text(records@, node@, i as nat),
        decreases records.len() - i,
    {
        if i > 0 {
            append_text(&mut out, ",");
        }
        write_record(&mut out, records[i].age.as_slice(), records[i].count.as_slice(), node);
        assert(out@ =~= "[".spec_bytes() + records_text(records@, node@, (i + 1) as nat));
        i += 1;
    }
    append_text(&mut out, "]");
    out
}

/// Why an upload could not be prepared.
#[derive(Clone, Copy, Debug, PartialEq, Eq, Structural)]
pub enum PrepareError {
    /// The endpoint's URL takes more than [`MAX_URL_LEN`] bytes.
    UrlTooLong,
    /// The body could not be written as JSON.
    Payload,
}

/// Writes the upload body for `packages`, oldest first, each record carrying
/// the node identifier. Every queue has a body; where the node identifier
/// needs no escaping it stands in the body as it is, in double quotes.
pub fn encode_payload(packages: &[PackageEntity], node_id: &str) -> (body: Result<
    Vec<u8>,
    PrepareError,
>)
    ensures
        body is Ok,
        body matches Ok(bytes) ==> bytes@ == payload_text(
            packages@,
            json_string_text(node_id@),
        ),
        body matches Ok(bytes) ==> (needs_no_escape(node_id@) ==> bytes@ == payload_text(
            packages@,
            quoted(node_id@),
        )),
{
    let mut records: Vec<RecordText> = Vec::new();
    if packages.len() == 0 {
        let nothing: Vec<u8> = Vec::new();
        let body = frame_payload(records.as_slice(), nothing.as_slice());
        assert(body@ =~= payload_text(packages@, json_string_text(node_id@)));
        assert(body@ =~= payload_text(packages@, quoted(node_id@)));
        return Ok(body);
    }
    let node = match json_string(node_id) {
        Ok(text) => text,
        Err(_) => {
            return Err(PrepareError::Payload);
        },
    };
    let mut i: usize = 0;
    while i < packages.len()
        invariant
            i <= packages.len(),
            records_of(records@, packages@.take(i as int)),
        decreases packages.len() - i,
    {
        let age = match json_unsigned(packages[i].age_in_seconds) {
            Ok(text) => text,
            Err(_) => {
                return Err(PrepareError::Payload);
            },
        };
        let count = match json_unsigned(packages[i].count as u64) {
            Ok(text) => text,
            Err(_) => {
                return Err(PrepareError::Payload);
            },
        };
        records.push(RecordText { age, count });
        i += 1;
    }
    proof {
        assert(packages@.take(i as int) =~= packages@);
        lemma_records_frame_payload(records@, packages@, node@, records@.len());
    }
    Ok(frame_payload(records.as_slice(), node.as_slice()))
}

/// The endpoint's URL: the base URL followed by [`INGEST_PATH`], or nothing
/// where that takes more than [`MAX_URL_LEN`] bytes.
pub fn ingest_url(base_url: &str) -> (url: Option<heapless::String<MAX_URL_LEN>>)
    ensures
        url is Some <==> base_url.spec_bytes().len() + INGEST_PATH.spec_bytes().len()
            <= MAX_URL_LEN,
        url matches Some(u) ==> url_text(u) == base_url@ + INGEST_PATH@,
{
    let mut url = url_new();
    if !url_push_str(&mut url, base_url) {
        return None;
    }
    assert(url_text(url) =~= base_url@);
    if !url_push_str(&mut url, INGEST_PATH) {
        return None;
    }
    Some(url)
}

/// What an upload consists of.
pub struct Upload {
    /// Where the body is posted.
    pub url: heapless::String<MAX_URL_LEN>,
    /// The JSON body.
    pub body: Vec<u8>,
}

/// Prepares an upload: the endpoint's URL first, then the body.
pub fn prepare_upload(base_url: &str, node_id: &str, packages: &[PackageEntity]) -> (upload:
    Result<Upload, PrepareError>)
    ensures
        upload is Ok <==> base_url.spec_bytes().len() + INGEST_PATH.spec_bytes().len()
            <= MAX_URL_LEN,
        upload matches Err(e) ==> e == PrepareError::UrlTooLong,
        upload matches Ok(u) ==> {
            &&& url_text(u.url) == base_url@ + INGEST_PATH@
            &&& u.body@ == payload_text(packages@, json_string_text(node_id@))
            &&& needs_no_escape(node_id@) ==> u.body@ == payload_text(
                packages@,
                quoted(node_id@),
            )
        },
{
    let url = match ingest_url(base_url) {
        Some(url) => url,
        None => {
            return Err(PrepareError::UrlTooLong);
        },
    };
    match encode_payload(packages, node_id) {
        Ok(body) => Ok(Upload { url, body }),
        Err(e) => Err(e),
    }
}

/// What answers an action of a send.
#[derive(Clone, Copy, Debug, PartialEq, Eq, Structural)]
pub enum SendEvent {
    /// The request was opened: name resolved, connection and TLS session up.
    Opened,
    /// The request could not be opened.
    OpenFailed(TransportFault),
    /// The pause before the next attempt ended.
    Waited,
    /// The endpoint answered with this status.
    Responded(u16),
    /// The request could not be sent, or no response came back.
    SendFailed(TransportFault),
}

/// What a send wants done next.
#[derive(Clone, Copy, Debug, PartialEq, Eq, Structural)]
pub enum SendAction {
    /// Open a POST request to the endpoint.
    OpenRequest,
    /// Wait so many milliseconds.
    Wait(u64),
    /// Send the body as `application/json` and wait for the response.
    Send,
    /// The send is over, with this outcome.
    Finish(SendDataOutcome),
}

/// How far a send has come.
#[derive(Clone, Copy, Debug, PartialEq, Eq, Structural)]
pub enum SendData {
    /// Waiting for the request to open; `failures` attempts have failed,
    /// `saw_dns` when one of them failed on name resolution.
    Opening { failures: u8, saw_dns: bool },
    /// Pausing before the next attempt to open the request.
    Pausing { failures: u8, saw_dns: bool },
    /// Waiting for the response.
    Sending,
    /// The send is over.
    Finished(SendDataOutcome),
}

impl SendData {
    /// The action that a state waits on.
    pub open spec fn pending(self) -> SendAction {
        match self {
            SendData::Opening { .. } => SendAction::OpenRequest,
            SendData::Pausing { .. } => SendAction::Wait(REQUEST_RETRY_DELAY_MS),
            SendData::Sending => SendAction::Send,
            SendData::Finished(outcome) => SendAction::Finish(outcome),
        }
    }

    /// The state that follows `event`.
    ///
    /// A request that will not open is tried [`REQUEST_BUILD_ATTEMPTS`] times
    /// with a pause in between, then the send fails: on name resolution if
    /// one of the attempts did, plainly otherwise. Once the request is open
    /// the response's status decides, or the fault that kept it from coming.
    /// An event that does not answer the pending action changes nothing.
    pub open spec fn advance(self, event: SendEvent) -> SendData {
        match (self, event) {
            (SendData::Opening { .. }, SendEvent::Opened) => SendData::Sending,
            (SendData::Opening { failures, saw_dns }, SendEvent::OpenFailed(fault)) => {
                let dns = saw_dns || fault == TransportFault::Dns;
                if failures + 1 < REQUEST_BUILD_ATTEMPTS {
                    SendData::Pausing { failures: (failures + 1) as u8, saw_dns: dns }
                } else {
                    SendData::Finished(fault_outcome(dns))
                }
            },
            (SendData::Pausing { failures, saw_dns }, SendEvent::Waited) => SendData::Opening {
                failures,
                saw_dns,
            },
            (SendData::Sending, SendEvent::Responded(status)) => SendData::Finished(
                status_outcome(status),
            ),
            (SendData::Sending, SendEvent::SendFailed(fault)) => SendData::Finished(
                fault_outcome(fault == TransportFault::Dns),
            ),
            _ => self,
        }
    }

    /// The state after `event`, and what to do next.
    pub open spec fn next(self, event: SendEvent) -> (SendData, SendAction) {
        (self.advance(event), self.advance(event).pending())
    }

    /// Steps that a send still takes at most before it is over.
    pub open spec fn steps_left(self) -> nat {
        match self {
            SendData::Opening { failures, .. } => if failures < REQUEST_BUILD_ATTEMPTS {
                (2 * (REQUEST_BUILD_ATTEMPTS - failures)) as nat
            } else {
                2
            },
            SendData::Pausing { failures, .. } => if failures < REQUEST_BUILD_ATTEMPTS {
                (2 * (REQUEST_BUILD_ATTEMPTS - failures) + 1) as nat
            } else {
                3
            },
            SendData::Sending => 1,
            SendData::Finished(_) => 0,
        }
    }

    /// Begins a send. Returns its state and first action.
    pub fn begin() -> (started: (Self, SendAction))
        ensures
            started.0 == (SendData::Opening { failures: 0, saw_dns: false }),
            started.1 == SendAction::OpenRequest,
    {
        (SendData::Opening { failures: 0, saw_dns: false }, SendAction::OpenRequest)
    }

    /// The action that the current state waits on.
    pub fn pending_action(&self) -> (action: SendAction)
        ensures
            action == self.pending(),
    {
        match self {
            SendData::Opening { .. } => SendAction::OpenRequest,
            SendData::Pausing { .. } => SendAction::Wait(REQUEST_RETRY_DELAY_MS),
            SendData::Sending => SendAction::Send,
            SendData::Finished(outcome) => SendAction::Finish(*outcome),
        }
    }

    /// The outcome, once the send is over.
    pub fn outcome(&self) -> (outcome: Option<SendDataOutcome>)
        ensures
            outcome == (match *self {
                SendData::Finished(o) => Some(o),
                _ => None,
            }),
    {
        match self {
            SendData::Finished(o) => Some(*o),
            _ => None,
        }
    }

    /// Takes the answer to the pending action and says what to do next.
    pub fn step(&mut self, event: SendEvent) -> (action: SendAction)
        ensures
            (*final(self), action) == old(self).next(event),
    {
        let state = *self;
        match state {
            SendData::Opening { failures, saw_dns } => match event {
                SendEvent::Opened => {
                    *self = SendData::Sending;
                },
                SendEvent::OpenFailed(fault) => {
                    let dns = match fault {
                        TransportFault::Dns => true,
                        TransportFault::Other => saw_dns,
                    };
                    if failures < REQUEST_BUILD_ATTEMPTS - 1 {
                        *self = SendData::Pausing { failures: failures + 1, saw_dns: dns };
                    } else if dns {
                        *self = SendData::Finished(SendDataOutcome::DnsFailure);
                    } else {
                        *self = SendData::Finished(SendDataOutcome::Failure);
                    }
                },
                _ => {},
            },
            SendData::Pausing { failures, saw_dns } => match event {
                SendEvent::Waited => {
                    *self = SendData::Opening { failures, saw_dns };
                },
                _ => {},
            },
            SendData::Sending => match event {
                SendEvent::Responded(status) => {
                    *self = SendData::Finished(classify_status(status));
                },
                SendEvent::SendFailed(TransportFault::Dns) => {
                    *self = SendData::Finished(SendDataOutcome::DnsFailure);
                },
                SendEvent::SendFailed(TransportFault::Other) => {
                    *self = SendData::Finished(SendDataOutcome::Failure);
                },
                _ => {},
            },
            SendData::Finished(_) => {},
        }
        self.pending_action()
    }
}

/// Whether `event` is the answer that a state waits for.
pub open spec fn send_answered_by(state: SendData, event: SendEvent) -> bool {
    match state {
        SendData::Opening { .. } => event is Opened || event is OpenFailed,
        SendData::Pausing { .. } => event is Waited,
        SendData::Sending => event is Responded || event is SendFailed,
        SendData::Finished(_) => false,
    }
}

/// Every answered action brings a send closer to its end, so a send is over
/// after at most six answers, and it never ends in a timeout of its own.
pub proof fn lemma_send_ends(state: SendData, event: SendEvent)
    requires
        send_answered_by(state, event),
    ensures
        state.advance(event).steps_left() < state.steps_left(),
        (SendData::Opening { failures: 0, saw_dns: false }).steps_left() == 6,
        state.advance(event) matches SendData::Finished(o) ==> o != SendDataOutcome::Timeout,
{
}

/// An event that does not answer the pending action is ignored.
pub proof fn lemma_send_ignores(state: SendData, event: SendEvent)
    requires
        !send_answered_by(state, event),
    ensures
        state.next(event) == (state, state.pending()),
{
}

/// A send succeeds exactly when the request opened and the endpoint answered
/// with a status from 200 to 299.
pub proof fn lemma_success_needs_2xx(state: SendData, event: SendEvent)
    requires
        !(state matches SendData::Finished(_)),
    ensures
        state.advance(event) == SendData::Finished(SendDataOutcome::Success) <==> state
            == SendData::Sending && (event matches SendEvent::Responded(s) && 200 <= s <= 299),
{
}

} // verus!
