use trailsense_edge::wifi::{
    compose_seed, derive_seeds, LinkAction, LinkEvent, LinkWait, StackSeeds,
    LINK_POLL_INTERVAL_MS, STACK_SOCKETS,
};

#[test]
fn seed_is_composed_from_two_reads() {
    assert_eq!(compose_seed(0, 0), 0);
    assert_eq!(compose_seed(1, 0), 1);
    assert_eq!(compose_seed(0, 1), 0x1_0000_0000);
    assert_eq!(compose_seed(0xDEAD_BEEF, 0x0123_4567), 0x0123_4567_DEAD_BEEF);
    assert_eq!(compose_seed(u32::MAX, u32::MAX), u64::MAX);
}

#[test]
fn seeds_use_separate_reads() {
    assert_eq!(
        derive_seeds([1, 2, 3, 4]),
        StackSeeds { net_seed: 0x0000_0002_0000_0001, tls_seed: 0x0000_0004_0000_0003 }
    );
}

#[test]
fn stack_has_room_for_three_sockets() {
    assert_eq!(STACK_SOCKETS, 3);
}

#[test]
fn wait_polls_link_then_address() {
    assert_eq!(LINK_POLL_INTERVAL_MS, 500);
    let (mut wait, first) = LinkWait::begin();
    assert_eq!(first, LinkAction::CheckLink);
    assert_eq!(wait.step(LinkEvent::Link(false)), LinkAction::Sleep(500));
    assert_eq!(wait.step(LinkEvent::Slept), LinkAction::CheckLink);
    assert_eq!(wait.step(LinkEvent::Link(true)), LinkAction::CheckAddress);
    assert_eq!(wait.step(LinkEvent::Address(false)), LinkAction::Sleep(500));
    assert_eq!(wait.step(LinkEvent::Slept), LinkAction::CheckAddress);
    assert_eq!(wait.step(LinkEvent::Address(false)), LinkAction::Sleep(500));
    assert_eq!(wait.step(LinkEvent::Slept), LinkAction::CheckAddress);
    assert_eq!(wait.step(LinkEvent::Address(true)), LinkAction::Ready);
    assert_eq!(wait, LinkWait::Ready);
    assert_eq!(wait.step(LinkEvent::Link(false)), LinkAction::Ready);
}

#[test]
fn wait_ignores_what_it_does_not_wait_for() {
    let (mut wait, _) = LinkWait::begin();
    assert_eq!(wait.step(LinkEvent::Address(true)), LinkAction::CheckLink);
    assert_eq!(wait.step(LinkEvent::Slept), LinkAction::CheckLink);
    assert_eq!(wait, LinkWait::CheckingLink);
    assert_eq!(wait.pending_action(), LinkAction::CheckLink);
}
