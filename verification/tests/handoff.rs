use async_foundations::handoff::{
    listener_action, received_message, stop_message, update_message, ListenerAction, Updater,
    UpdaterAction, SCHEDULE_LEN,
};

#[test]
fn updater_publishes_schedule_then_stops() {
    let mut updater = Updater::new();
    assert_eq!(updater.sent(), 0);
    let mut actions = Vec::new();
    for _ in 0..6 {
        actions.push(updater.step());
    }
    assert_eq!(
        actions,
        vec![
            UpdaterAction::Publish(false),
            UpdaterAction::Publish(true),
            UpdaterAction::Publish(false),
            UpdaterAction::Publish(true),
            UpdaterAction::Stop,
            UpdaterAction::Stop,
        ]
    );
    assert_eq!(updater.sent(), SCHEDULE_LEN);
}

#[test]
fn updater_counts_published_values() {
    let mut updater = Updater::new();
    updater.step();
    updater.step();
    assert_eq!(updater.sent(), 2);
}

#[test]
fn stop_is_final() {
    let mut updater = Updater::new();
    while updater.step() != UpdaterAction::Stop {}
    let before = updater.sent();
    assert_eq!(updater.step(), UpdaterAction::Stop);
    assert_eq!(updater.sent(), before);
}

#[test]
fn listener_waits_until_stop() {
    assert_eq!(listener_action(false), ListenerAction::Wait);
    assert_eq!(listener_action(true), ListenerAction::Exit);
}

#[test]
fn messages_match_program_output() {
    assert_eq!(update_message(false), "Updatging value to false...");
    assert_eq!(update_message(true), "Updatging value to true...");
    assert_eq!(received_message(true), "Received value: true");
    assert_eq!(received_message(false), "Received value: false");
    assert_eq!(stop_message(), "STOP has been updated");
}

#[test]
fn pause_between_publications() {
    assert_eq!(async_foundations::handoff::PAUSE_SECS, 4);
}
