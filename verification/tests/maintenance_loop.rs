use bdk_floresta::builder::FlorestaClientBuilder;
use bdk_floresta::chain::ChainStore;
use bdk_floresta::chain::StoreContent;
use bdk_floresta::config::Network;
use bdk_floresta::maintenance::run_maintenance;
use bdk_floresta::maintenance::MaintAction;
use bdk_floresta::maintenance::MaintEvent;
use bdk_floresta::maintenance::MaintenanceState;
use bdk_floresta::FlorestaClient;

fn built_client() -> FlorestaClient {
    FlorestaClientBuilder::new()
        .network(Network::Regtest)
        .build(ChainStore { content: StoreContent::Uninitialized })
        .expect("fresh store must build")
}

/// The log a synchronizing client produces for ticks `1..=n`.
fn expected_ibd_log(n: u64) -> Vec<MaintAction> {
    let mut log = Vec::new();
    for t in 1..=n {
        log.push(MaintAction::StatusLog);
        if t % 10 == 0 {
            log.push(MaintAction::Flush);
        }
        if t % 20 == 0 {
            log.push(MaintAction::PeerDump);
        }
    }
    log
}

#[test]
fn cadence_over_25_simulated_ticks() {
    let mut client = built_client();
    let events = vec![MaintEvent::TimerTick; 25];
    let log = run_maintenance(&mut client, &events);
    assert_eq!(log, expected_ibd_log(25));

    let flushes = log.iter().filter(|a| **a == MaintAction::Flush).count();
    let dumps = log.iter().filter(|a| **a == MaintAction::PeerDump).count();
    assert_eq!(flushes, 2); // ticks 10 and 20
    assert_eq!(dumps, 1); // tick 20
}

#[test]
fn step_counter_fires_on_every_tenth_and_twentieth_tick() {
    let mut m = MaintenanceState::new();
    for t in 1..=40u64 {
        let a = m.on_tick(true);
        assert_eq!(a.flush, t % 10 == 0, "flush at tick {t}");
        assert_eq!(a.peer_dump, t % 20 == 0, "peer dump at tick {t}");
        assert!(a.log_status);
        assert!(!a.completion_log);
    }
    assert_eq!(m.ticks, 40);
}

#[test]
fn shutdown_mid_loop_flushes_once_and_returns() {
    let mut client = built_client();
    let _ = client.chain.accept_block(9);
    let mut events = vec![MaintEvent::TimerTick; 3];
    events.push(MaintEvent::ShutdownObserved);
    events.extend(vec![MaintEvent::TimerTick; 5]);

    let log = run_maintenance(&mut client, &events);
    let mut expected = expected_ibd_log(3);
    expected.push(MaintAction::FinalFlush);
    assert_eq!(log, expected);
    assert_eq!(client.store.content, StoreContent::Saved(client.chain.data));
}

#[test]
fn completed_sync_stops_the_counter() {
    let mut client = built_client();
    client.chain.data.ibd = false;
    let store_before = client.store;
    let events = vec![MaintEvent::TimerTick; 25];
    let log = run_maintenance(&mut client, &events);
    assert_eq!(log, vec![MaintAction::CompletionLog; 25]);
    assert_eq!(client.store, store_before); // no tick counted, no flush fired
}

#[test]
fn failed_connect_does_not_stop_maintenance() {
    let mut client = built_client();
    assert!(!client.connect(Some(false)));
    assert!(!client.connect(None));
    assert!(client.connect(Some(true)));

    let height_before = client.get_height();
    let events = vec![MaintEvent::TimerTick; 4];
    let log = run_maintenance(&mut client, &events);
    assert_eq!(log, expected_ibd_log(4));
    assert_eq!(client.get_height(), height_before);
    assert!(!client.kill_signal.is_set());
}

#[test]
fn empty_event_script_does_nothing() {
    let mut client = built_client();
    let store_before = client.store;
    let log = run_maintenance(&mut client, &Vec::new());
    assert!(log.is_empty());
    assert_eq!(client.store, store_before);
    assert!(!client.kill_signal.is_set());
}
