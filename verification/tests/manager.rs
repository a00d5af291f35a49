use trailsense_edge::wifi::manager::{RadioAction, RadioEvent, RadioManager, WifiCmd, WifiEvt};

#[test]
fn manager_starts_without_sniffing() {
    let manager = RadioManager::new();
    assert_eq!(manager.mode(), WifiEvt::Online);
    assert_eq!(manager.pending, None);
}

#[test]
fn start_enables_promiscuous_mode_and_installs_the_callback() {
    let mut manager = RadioManager::new();
    assert_eq!(
        manager.step(RadioEvent::Command(WifiCmd::StartSniffing)),
        RadioAction::SetPromiscuous(true)
    );
    assert_eq!(manager.mode(), WifiEvt::Online);
    assert_eq!(manager.step(RadioEvent::Switched(true)), RadioAction::InstallCallback);
    assert_eq!(manager.mode(), WifiEvt::Sniffing);
    assert_eq!(manager.pending, None);
}

#[test]
fn stop_disables_promiscuous_mode() {
    let mut manager = RadioManager { sniffing: true, pending: None };
    assert_eq!(
        manager.step(RadioEvent::Command(WifiCmd::StopSniffing)),
        RadioAction::SetPromiscuous(false)
    );
    assert_eq!(manager.step(RadioEvent::Switched(true)), RadioAction::AwaitCommand);
    assert_eq!(manager.mode(), WifiEvt::Online);
}

#[test]
fn driver_errors_are_reported_and_change_nothing() {
    let mut manager = RadioManager { sniffing: true, pending: None };
    manager.step(RadioEvent::Command(WifiCmd::StopSniffing));
    assert_eq!(
        manager.step(RadioEvent::Switched(false)),
        RadioAction::ReportFailure(WifiCmd::StopSniffing)
    );
    assert_eq!(manager.mode(), WifiEvt::Sniffing);
    manager.step(RadioEvent::Command(WifiCmd::StartSniffing));
    assert_eq!(
        manager.step(RadioEvent::Switched(false)),
        RadioAction::ReportFailure(WifiCmd::StartSniffing)
    );
    assert_eq!(manager.mode(), WifiEvt::Sniffing);
    assert_eq!(
        manager.step(RadioEvent::Command(WifiCmd::StopSniffing)),
        RadioAction::SetPromiscuous(false)
    );
}

#[test]
fn answer_without_command_is_ignored() {
    let mut manager = RadioManager::new();
    assert_eq!(manager.step(RadioEvent::Switched(true)), RadioAction::AwaitCommand);
    assert_eq!(manager, RadioManager::new());
}
