use veloren_relay::connection::{
    is_trusted_auth_server, ConnAction, ConnEvent, ConnState, ConnectionManager, RetryPolicy,
    CONNECT_BASE_DELAY_MILLIS, RECONNECT_BASE_DELAY_MILLIS, TICK_INTERVAL_MILLIS,
};
use veloren_relay::event::{VelorenEvent, VelorenEventKind};
use veloren_relay::kind::MessageType;
use veloren_relay::normalize::{ChatScope, RawEvent};
use veloren_relay::roster::{Roster, RosterEntry};
use veloren_relay::time::Timestamp;

fn roster_of(names: &[(u64, u128, &str)]) -> Roster {
    Roster {
        entries: names
            .iter()
            .map(|(uid, uuid, alias)| RosterEntry { uid: *uid, uuid: *uuid, alias: alias.to_string() })
            .collect(),
    }
}

fn activity(alias: &str, uuid: u128, millis: i64, online: bool) -> VelorenEvent {
    VelorenEvent {
        player_alias: alias.to_string(),
        player_uuid: uuid,
        time: Timestamp { millis },
        kind: VelorenEventKind::Activity { online },
    }
}

fn tick(roster: Roster, events: Vec<RawEvent>, millis: i64) -> ConnEvent {
    ConnEvent::TickSucceeded { roster, events, now: Timestamp { millis } }
}

fn connected() -> ConnectionManager {
    let mut manager = ConnectionManager::new();
    assert_eq!(manager.step(ConnEvent::Start), ConnAction::Connect);
    assert_eq!(manager.step(ConnEvent::ConnectSucceeded), ConnAction::Tick);
    manager
}

#[test]
fn constants_are_as_configured() {
    assert_eq!(CONNECT_BASE_DELAY_MILLIS, 500);
    assert_eq!(RECONNECT_BASE_DELAY_MILLIS, 10_000);
    assert_eq!(TICK_INTERVAL_MILLIS, 100);
}

#[test]
fn new_manager_is_disconnected() {
    let manager = ConnectionManager::new();
    assert_eq!(
        manager,
        ConnectionManager {
            policy: RetryPolicy {
                connect_base_millis: 500,
                reconnect_base_millis: 10_000,
                max_delay_millis: None,
            },
            state: ConnState::Disconnected,
            waiting: false,
            connect_retries: 0,
            tick_retries: 0,
            seeded: false,
            terminated: false,
        }
    );
    assert_eq!(manager, ConnectionManager::with_policy(RetryPolicy::standard()));
}

#[test]
fn configured_delays_are_used_and_capped() {
    let policy = RetryPolicy {
        connect_base_millis: 200,
        reconnect_base_millis: 3_000,
        max_delay_millis: Some(5_000),
    };
    let mut manager = ConnectionManager::with_policy(policy);
    assert_eq!(manager.policy, policy);
    manager.step(ConnEvent::Start);
    assert_eq!(manager.step(ConnEvent::ConnectFailed), ConnAction::Wait { millis: 200 });
    manager.step(ConnEvent::DelayElapsed);
    assert_eq!(manager.step(ConnEvent::ConnectFailed), ConnAction::Wait { millis: 400 });
    manager.step(ConnEvent::DelayElapsed);
    manager.step(ConnEvent::ConnectSucceeded);
    assert_eq!(manager.step(ConnEvent::TickFailed), ConnAction::Wait { millis: 3_000 });
    manager.step(ConnEvent::DelayElapsed);
    manager.step(ConnEvent::ConnectSucceeded);
    assert_eq!(manager.step(ConnEvent::TickFailed), ConnAction::Wait { millis: 5_000 });
    manager.step(ConnEvent::DelayElapsed);
    manager.step(ConnEvent::ConnectSucceeded);
    assert_eq!(manager.step(ConnEvent::TickFailed), ConnAction::Wait { millis: 5_000 });
    assert_eq!(manager.tick_retries, 3);
}

#[test]
fn delay_that_does_not_fit_is_the_longest_there_is() {
    let policy = RetryPolicy {
        connect_base_millis: u64::MAX / 2 + 1,
        reconnect_base_millis: u64::MAX,
        max_delay_millis: None,
    };
    let mut manager = ConnectionManager::with_policy(policy);
    manager.step(ConnEvent::Start);
    assert_eq!(
        manager.step(ConnEvent::ConnectFailed),
        ConnAction::Wait { millis: u64::MAX / 2 + 1 }
    );
    manager.step(ConnEvent::DelayElapsed);
    assert_eq!(manager.step(ConnEvent::ConnectFailed), ConnAction::Wait { millis: u64::MAX });
    manager.step(ConnEvent::DelayElapsed);
    manager.step(ConnEvent::ConnectSucceeded);
    assert_eq!(manager.step(ConnEvent::TickFailed), ConnAction::Wait { millis: u64::MAX });
}

#[test]
fn only_the_configured_auth_server_is_trusted() {
    assert!(is_trusted_auth_server("https://auth.veloren.net", "https://auth.veloren.net"));
    assert!(!is_trusted_auth_server("https://auth.veloren.net/", "https://auth.veloren.net"));
    assert!(!is_trusted_auth_server("https://auth.veloren.ne", "https://auth.veloren.net"));
    assert!(!is_trusted_auth_server("https://AUTH.veloren.net", "https://auth.veloren.net"));
    assert!(!is_trusted_auth_server("", "https://auth.veloren.net"));
    assert!(is_trusted_auth_server("", ""));
}

#[test]
fn start_asks_for_a_connection() {
    let mut manager = ConnectionManager::new();
    assert_eq!(manager.step(ConnEvent::Start), ConnAction::Connect);
    assert_eq!(manager.state, ConnState::Connecting);
    assert_eq!(manager.step(ConnEvent::Start), ConnAction::Idle);
    assert_eq!(manager.state, ConnState::Connecting);
}

#[test]
fn failed_connects_wait_longer_each_time() {
    let mut manager = ConnectionManager::new();
    manager.step(ConnEvent::Start);
    assert_eq!(manager.step(ConnEvent::ConnectFailed), ConnAction::Wait { millis: 500 });
    assert_eq!(manager.connect_retries, 1);
    assert!(manager.waiting);
    assert_eq!(manager.step(ConnEvent::DelayElapsed), ConnAction::Connect);
    assert_eq!(manager.step(ConnEvent::ConnectFailed), ConnAction::Wait { millis: 1_000 });
    assert_eq!(manager.step(ConnEvent::DelayElapsed), ConnAction::Connect);
    assert_eq!(manager.step(ConnEvent::ConnectFailed), ConnAction::Wait { millis: 1_500 });
    assert_eq!(manager.connect_retries, 3);
    assert_eq!(manager.state, ConnState::Connecting);
    assert_eq!(manager.step(ConnEvent::DelayElapsed), ConnAction::Connect);
    assert_eq!(manager.step(ConnEvent::ConnectSucceeded), ConnAction::Tick);
    assert_eq!(manager.state, ConnState::Connected);
    assert_eq!(manager.connect_retries, 0);
}

#[test]
fn no_connect_before_the_delay_is_over() {
    let mut manager = ConnectionManager::new();
    manager.step(ConnEvent::Start);
    manager.step(ConnEvent::ConnectFailed);
    let waiting = manager;
    assert_eq!(manager.step(ConnEvent::ConnectFailed), ConnAction::Idle);
    assert_eq!(manager.step(ConnEvent::ConnectSucceeded), ConnAction::Idle);
    assert_eq!(manager.step(ConnEvent::Start), ConnAction::Idle);
    assert_eq!(manager.step(ConnEvent::TickFailed), ConnAction::Idle);
    assert_eq!(manager.step(tick(Roster::new(), Vec::new(), 1)), ConnAction::Idle);
    assert_eq!(manager, waiting);
    assert_eq!(manager.step(ConnEvent::DelayElapsed), ConnAction::Connect);
}

#[test]
fn tick_failure_reconnects_after_the_delay() {
    let mut manager = connected();
    assert_eq!(manager.step(ConnEvent::TickFailed), ConnAction::Wait { millis: 10_000 });
    assert_eq!(manager.state, ConnState::Reconnecting);
    assert_eq!(manager.tick_retries, 1);
    let reconnecting = manager;
    assert_eq!(manager.step(ConnEvent::ConnectSucceeded), ConnAction::Idle);
    assert_eq!(manager.step(ConnEvent::ConnectFailed), ConnAction::Idle);
    assert_eq!(manager.step(ConnEvent::TickFailed), ConnAction::Idle);
    assert_eq!(manager.step(ConnEvent::Start), ConnAction::Idle);
    assert_eq!(manager, reconnecting);
    assert_eq!(manager.step(ConnEvent::DelayElapsed), ConnAction::Connect);
    assert_eq!(manager.state, ConnState::Connecting);
    assert_eq!(manager.step(ConnEvent::ConnectSucceeded), ConnAction::Tick);
    assert_eq!(manager.state, ConnState::Connected);
}

#[test]
fn retry_counter_grows_across_failures_and_resets_on_success() {
    let mut manager = connected();
    assert_eq!(manager.step(ConnEvent::TickFailed), ConnAction::Wait { millis: 10_000 });
    manager.step(ConnEvent::DelayElapsed);
    manager.step(ConnEvent::ConnectSucceeded);
    assert_eq!(manager.tick_retries, 1);
    assert_eq!(manager.step(ConnEvent::TickFailed), ConnAction::Wait { millis: 20_000 });
    manager.step(ConnEvent::DelayElapsed);
    manager.step(ConnEvent::ConnectFailed);
    manager.step(ConnEvent::DelayElapsed);
    manager.step(ConnEvent::ConnectSucceeded);
    assert_eq!(manager.tick_retries, 2);
    assert_eq!(manager.step(ConnEvent::TickFailed), ConnAction::Wait { millis: 30_000 });
    assert_eq!(manager.tick_retries, 3);
    manager.step(ConnEvent::DelayElapsed);
    manager.step(ConnEvent::ConnectSucceeded);
    assert_eq!(
        manager.step(tick(Roster::new(), Vec::new(), 1)),
        ConnAction::Forward { events: Vec::new() }
    );
    assert_eq!(manager.tick_retries, 0);
    assert_eq!(manager.step(ConnEvent::TickFailed), ConnAction::Wait { millis: 10_000 });
}

#[test]
fn retry_counter_stops_at_its_ceiling() {
    let mut manager = connected();
    manager.tick_retries = u32::MAX - 1;
    assert_eq!(
        manager.step(ConnEvent::TickFailed),
        ConnAction::Wait { millis: 10_000 * (u32::MAX as u64) }
    );
    assert_eq!(manager.tick_retries, u32::MAX);
    manager.step(ConnEvent::DelayElapsed);
    manager.step(ConnEvent::ConnectSucceeded);
    assert_eq!(
        manager.step(ConnEvent::TickFailed),
        ConnAction::Wait { millis: 42_949_672_950_000 }
    );
    assert_eq!(manager.tick_retries, u32::MAX);
}

#[test]
fn first_tick_with_players_sends_the_snapshot_once() {
    let mut manager = connected();
    let roster = roster_of(&[(1, 0xa, "alice"), (2, 0xb, "bob")]);
    assert_eq!(
        manager.step(tick(Roster::new(), Vec::new(), 50)),
        ConnAction::Forward { events: Vec::new() }
    );
    assert!(!manager.seeded);
    let raws = vec![RawEvent::Chat { scope: ChatScope::World(2), text: "bob: hey".to_string() }];
    assert_eq!(
        manager.step(tick(roster.clone(), raws.clone(), 100)),
        ConnAction::Forward {
            events: vec![
                activity("alice", 0xa, 100, true),
                activity("bob", 0xb, 100, true),
                VelorenEvent {
                    player_alias: "bob".to_string(),
                    player_uuid: 0xb,
                    time: Timestamp { millis: 100 },
                    kind: VelorenEventKind::Message {
                        message: "hey".to_string(),
                        ty: MessageType::World,
                    },
                },
            ],
        }
    );
    assert!(manager.seeded);
    assert_eq!(
        manager.step(tick(roster.clone(), Vec::new(), 200)),
        ConnAction::Forward { events: Vec::new() }
    );
    manager.step(ConnEvent::TickFailed);
    manager.step(ConnEvent::DelayElapsed);
    manager.step(ConnEvent::ConnectSucceeded);
    assert!(manager.seeded);
    assert_eq!(
        manager.step(tick(roster, Vec::new(), 300)),
        ConnAction::Forward { events: Vec::new() }
    );
}

#[test]
fn shutdown_drains_the_roster_and_is_final() {
    let mut manager = connected();
    let roster = roster_of(&[(1, 0xa, "alice"), (2, 0xb, "bob")]);
    manager.step(tick(roster.clone(), Vec::new(), 100));
    assert_eq!(
        manager.step(ConnEvent::Shutdown { roster: roster.clone(), now: Timestamp { millis: 900 } }),
        ConnAction::Stop {
            events: vec![activity("alice", 0xa, 900, false), activity("bob", 0xb, 900, false)],
        }
    );
    assert_eq!(manager.state, ConnState::Disconnected);
    assert!(manager.terminated);
    let stopped = manager;
    assert_eq!(manager.step(ConnEvent::Start), ConnAction::Idle);
    assert_eq!(manager.step(ConnEvent::DelayElapsed), ConnAction::Idle);
    assert_eq!(manager.step(ConnEvent::ConnectSucceeded), ConnAction::Idle);
    assert_eq!(manager.step(ConnEvent::TickFailed), ConnAction::Idle);
    assert_eq!(manager.step(tick(roster.clone(), Vec::new(), 1_000)), ConnAction::Idle);
    assert_eq!(
        manager.step(ConnEvent::Shutdown { roster, now: Timestamp { millis: 1_100 } }),
        ConnAction::Idle
    );
    assert_eq!(manager, stopped);
}

#[test]
fn shutdown_while_reconnecting_stops_the_retries() {
    let mut manager = connected();
    manager.step(ConnEvent::TickFailed);
    assert_eq!(
        manager.step(ConnEvent::Shutdown { roster: Roster::new(), now: Timestamp { millis: 5 } }),
        ConnAction::Stop { events: Vec::new() }
    );
    assert_eq!(manager.step(ConnEvent::DelayElapsed), ConnAction::Idle);
    assert_eq!(manager.state, ConnState::Disconnected);
}

#[test]
fn events_out_of_place_change_nothing() {
    let mut manager = ConnectionManager::new();
    let fresh = manager;
    assert_eq!(manager.step(ConnEvent::ConnectSucceeded), ConnAction::Idle);
    assert_eq!(manager.step(ConnEvent::ConnectFailed), ConnAction::Idle);
    assert_eq!(manager.step(ConnEvent::DelayElapsed), ConnAction::Idle);
    assert_eq!(manager.step(ConnEvent::TickFailed), ConnAction::Idle);
    assert_eq!(manager.step(tick(Roster::new(), Vec::new(), 1)), ConnAction::Idle);
    assert_eq!(manager, fresh);
    let mut manager = connected();
    let before = manager;
    assert_eq!(manager.step(ConnEvent::Start), ConnAction::Idle);
    assert_eq!(manager.step(ConnEvent::ConnectSucceeded), ConnAction::Idle);
    assert_eq!(manager.step(ConnEvent::ConnectFailed), ConnAction::Idle);
    assert_eq!(manager.step(ConnEvent::DelayElapsed), ConnAction::Idle);
    assert_eq!(manager, before);
}
