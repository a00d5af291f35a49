use trailsense_edge::clock::{Timestamp, TICKS_PER_SECOND};
use trailsense_edge::packages::package_store::PackageBuffer;
use trailsense_edge::probes::fingerprint_store::FingerprintBuffer;
use trailsense_edge::wifi::http::SendDataOutcome;
use trailsense_edge::wifi::manager::WifiCmd;
use trailsense_edge::wifi::tasks::WifiControlCmd;
use trailsense_edge::wifi::uploader::{
    aggregate, aggregate_at, UploadAction, UploadEvent, UploadPhase, Uploader,
    CONNECT_TIMEOUT_MS, DNS_RECONNECT_THRESHOLD, PERIOD_MS, RADIO_SETTLE_DELAY_MS, RETRY_DELAY_MS,
    SEND_ATTEMPTS, SEND_TIMEOUT_MS,
};

/// Runs one cycle from the end of the period's sleep, answering every upload
/// attempt from `outcomes`, and returns the actions up to the next sleep
/// through the period.
fn run_cycle(uploader: &mut Uploader, outcomes: &[SendDataOutcome]) -> Vec<UploadAction> {
    let mut trace = Vec::new();
    let mut outcomes = outcomes.iter();
    assert_eq!(uploader.pending_action(), UploadAction::Sleep(PERIOD_MS));
    let mut action = uploader.step(UploadEvent::Done);
    loop {
        trace.push(action);
        let event = match action {
            UploadAction::Sleep(ms) if ms == PERIOD_MS => return trace,
            UploadAction::AwaitConnection(_) => UploadEvent::Connection(true),
            UploadAction::Post(_) => UploadEvent::Posted(*outcomes.next().unwrap()),
            _ => UploadEvent::Done,
        };
        action = uploader.step(event);
    }
}

fn started() -> Uploader {
    let (mut uploader, first) = Uploader::begin();
    assert_eq!(first, UploadAction::Radio(WifiCmd::StartSniffing));
    assert_eq!(uploader.step(UploadEvent::Done), UploadAction::Sleep(PERIOD_MS));
    uploader
}

#[test]
fn uploader_constants() {
    assert_eq!(PERIOD_MS, 20_000);
    assert_eq!(CONNECT_TIMEOUT_MS, 15_000);
    assert_eq!(SEND_TIMEOUT_MS, 30_000);
    assert_eq!(RETRY_DELAY_MS, 500);
    assert_eq!(RADIO_SETTLE_DELAY_MS, 5_000);
    assert_eq!(SEND_ATTEMPTS, 2);
    assert_eq!(DNS_RECONNECT_THRESHOLD, 2);
}

#[test]
fn successful_cycle() {
    let mut uploader = started();
    let trace = run_cycle(&mut uploader, &[SendDataOutcome::Success]);
    assert_eq!(
        trace,
        vec![
            UploadAction::AwaitConnection(15_000),
            UploadAction::Aggregate,
            UploadAction::Radio(WifiCmd::StopSniffing),
            UploadAction::Sleep(5_000),
            UploadAction::Post(30_000),
            UploadAction::DrainPackages,
            UploadAction::Radio(WifiCmd::StartSniffing),
            UploadAction::Sleep(20_000),
        ]
    );
    assert_eq!(uploader.consecutive_dns_failures, 0);
}

#[test]
fn failed_cycle_retries_once_and_keeps_the_queue() {
    let mut uploader = started();
    let trace = run_cycle(&mut uploader, &[SendDataOutcome::Failure, SendDataOutcome::Timeout]);
    assert_eq!(
        trace,
        vec![
            UploadAction::AwaitConnection(15_000),
            UploadAction::Aggregate,
            UploadAction::Radio(WifiCmd::StopSniffing),
            UploadAction::Sleep(5_000),
            UploadAction::Post(30_000),
            UploadAction::Sleep(500),
            UploadAction::Post(30_000),
            UploadAction::Radio(WifiCmd::StartSniffing),
            UploadAction::Sleep(20_000),
        ]
    );
    assert!(!trace.contains(&UploadAction::DrainPackages));
    assert_eq!(uploader.consecutive_dns_failures, 0);
}

#[test]
fn second_attempt_can_deliver() {
    let mut uploader = started();
    let trace = run_cycle(&mut uploader, &[SendDataOutcome::Failure, SendDataOutcome::Success]);
    assert_eq!(
        trace[4..],
        [
            UploadAction::Post(30_000),
            UploadAction::Sleep(500),
            UploadAction::Post(30_000),
            UploadAction::DrainPackages,
            UploadAction::Radio(WifiCmd::StartSniffing),
            UploadAction::Sleep(20_000),
        ]
    );
}

#[test]
fn connection_timeout_skips_the_cycle() {
    let mut uploader = started();
    assert_eq!(uploader.step(UploadEvent::Done), UploadAction::AwaitConnection(15_000));
    assert_eq!(uploader.step(UploadEvent::Connection(false)), UploadAction::Sleep(20_000));
    assert_eq!(uploader.phase, UploadPhase::Waiting);
}

#[test]
fn dns_escalation() {
    let mut uploader = started();
    let dns = [SendDataOutcome::DnsFailure, SendDataOutcome::DnsFailure];
    let first = run_cycle(&mut uploader, &dns);
    assert!(!first.contains(&UploadAction::Control(WifiControlCmd::Reconnect)));
    assert_eq!(uploader.consecutive_dns_failures, 1);
    let second = run_cycle(&mut uploader, &dns);
    let reconnects =
        second.iter().filter(|a| **a == UploadAction::Control(WifiControlCmd::Reconnect)).count();
    assert_eq!(reconnects, 1);
    assert_eq!(uploader.consecutive_dns_failures, 0);
    assert_eq!(
        second[4..],
        [
            UploadAction::Post(30_000),
            UploadAction::Sleep(500),
            UploadAction::Post(30_000),
            UploadAction::Control(WifiControlCmd::Reconnect),
            UploadAction::Radio(WifiCmd::StartSniffing),
            UploadAction::Sleep(20_000),
        ]
    );
    let third = run_cycle(&mut uploader, &dns);
    assert!(!third.contains(&UploadAction::Control(WifiControlCmd::Reconnect)));
    assert_eq!(uploader.consecutive_dns_failures, 1);
}

#[test]
fn dns_count_starts_anew_on_success() {
    let mut uploader = started();
    run_cycle(&mut uploader, &[SendDataOutcome::DnsFailure, SendDataOutcome::Failure]);
    assert_eq!(uploader.consecutive_dns_failures, 1);
    run_cycle(&mut uploader, &[SendDataOutcome::Success]);
    assert_eq!(uploader.consecutive_dns_failures, 0);
}

#[test]
fn dns_count_is_kept_by_a_plain_failure() {
    let mut uploader = started();
    run_cycle(&mut uploader, &[SendDataOutcome::DnsFailure, SendDataOutcome::DnsFailure]);
    run_cycle(&mut uploader, &[SendDataOutcome::Failure, SendDataOutcome::Timeout]);
    assert_eq!(uploader.consecutive_dns_failures, 1);
    let trace = run_cycle(&mut uploader, &[SendDataOutcome::Timeout, SendDataOutcome::DnsFailure]);
    assert!(trace.contains(&UploadAction::Control(WifiControlCmd::Reconnect)));
    assert_eq!(uploader.consecutive_dns_failures, 0);
}

#[test]
fn dns_failure_counts_even_when_the_retry_delivers() {
    let mut uploader = started();
    let trace = run_cycle(&mut uploader, &[SendDataOutcome::DnsFailure, SendDataOutcome::Success]);
    assert!(trace.contains(&UploadAction::DrainPackages));
    assert_eq!(uploader.consecutive_dns_failures, 1);
}

#[test]
fn radio_exclusion() {
    let outcomes = [
        SendDataOutcome::Success,
        SendDataOutcome::Failure,
        SendDataOutcome::DnsFailure,
        SendDataOutcome::Timeout,
    ];
    for first in outcomes {
        for second in outcomes {
            let mut uploader = started();
            let trace = run_cycle(&mut uploader, &[first, second]);
            let commands: Vec<WifiCmd> = trace
                .iter()
                .filter_map(|a| match a {
                    UploadAction::Radio(cmd) => Some(*cmd),
                    _ => None,
                })
                .collect();
            assert_eq!(commands, vec![WifiCmd::StopSniffing, WifiCmd::StartSniffing]);
            let stop = trace
                .iter()
                .position(|a| *a == UploadAction::Radio(WifiCmd::StopSniffing))
                .unwrap();
            let start = trace
                .iter()
                .position(|a| *a == UploadAction::Radio(WifiCmd::StartSniffing))
                .unwrap();
            for (i, action) in trace.iter().enumerate() {
                if let UploadAction::Post(_) = action {
                    assert!(stop < i && i < start);
                }
            }
            assert!(trace.iter().any(|a| matches!(a, UploadAction::Post(_))));
        }
    }
}

#[test]
fn uploader_ignores_what_it_does_not_wait_for() {
    let mut uploader = started();
    assert_eq!(
        uploader.step(UploadEvent::Posted(SendDataOutcome::Success)),
        UploadAction::Sleep(PERIOD_MS)
    );
    assert_eq!(uploader.step(UploadEvent::Connection(true)), UploadAction::Sleep(PERIOD_MS));
    assert_eq!(uploader.phase, UploadPhase::Waiting);
    uploader.step(UploadEvent::Done);
    assert_eq!(uploader.step(UploadEvent::Done), UploadAction::AwaitConnection(15_000));
    assert_eq!(uploader.phase, UploadPhase::Linking);
}

#[test]
fn aggregate_counts_queues_and_empties() {
    let mut fingerprints = FingerprintBuffer::new();
    for code in [0b0000_0000u16, 0b0000_0011, 0b0000_0111] {
        fingerprints.push(code);
    }
    let mut packages = PackageBuffer::new();
    let now = Timestamp::from_ticks(40 * TICKS_PER_SECOND);
    assert_eq!(aggregate_at(&mut fingerprints, &mut packages, now), 2);
    assert_eq!(fingerprints.len(), 0);
    let snap = packages.snapshot_with_age_at(Timestamp::from_ticks(41 * TICKS_PER_SECOND));
    assert_eq!(snap.len(), 1);
    assert_eq!(snap[0].count, 2);
    assert_eq!(snap[0].age_in_seconds, 1);
}

#[test]
fn aggregate_of_a_quiet_period_queues_zero() {
    let mut fingerprints = FingerprintBuffer::new();
    let mut packages = PackageBuffer::new();
    assert_eq!(aggregate(&mut fingerprints, &mut packages), 0);
    fingerprints.push(1);
    assert_eq!(aggregate(&mut fingerprints, &mut packages), 1);
    let counts: Vec<u32> = packages.snapshot_with_age().iter().map(|p| p.count).collect();
    assert_eq!(counts, vec![0, 1]);
    assert_eq!(fingerprints.len(), 0);
}
