use external_monitor_brightness::coordinator::{
    Action, Activity, Coordinator, Phase, INITIAL_BACKOFF_MS, MAX_FAILED_ATTEMPTS, SETTLE_DELAY_MS,
};
use external_monitor_brightness::enumeration::Probe;
use external_monitor_brightness::devices::Protocol;
use external_monitor_brightness::monitor::{BrightnessUpdated, DisplayBackend, EventToSub, MonitorInfo};
use external_monitor_brightness::protocols::apple_hid::{
    decode_brightness_report, encode_brightness_report, AppleHidDisplay,
};
use external_monitor_brightness::protocols::ddc_ci::DdcCiDisplay;
use external_monitor_brightness::protocols::{ReadReply, ReadRequest, WriteRequest};

/// A display that lives in memory.
struct Sim {
    backend: DisplayBackend,
    level: u16,
    fails_read: bool,
    writes: Vec<(u64, u16)>,
}

/// The displays, a clock that only sleeping moves, and what was published.
struct Bench {
    sims: Vec<Sim>,
    clock: u64,
    sleeps: Vec<u64>,
    passes: u32,
    ready: Vec<Vec<(String, MonitorInfo)>>,
    updates: Vec<(String, u16)>,
}

fn ddc(id: &str, name: &str, level: u16) -> Sim {
    Sim {
        backend: DisplayBackend::DdcCi(DdcCiDisplay::new(String::from(id), Some(String::from(name)))),
        level,
        fails_read: false,
        writes: Vec::new(),
    }
}

fn hid(serial: &str, level: u16) -> Sim {
    Sim {
        backend: DisplayBackend::AppleHid(AppleHidDisplay::new(
            String::from(serial),
            String::from("Apple"),
            String::from("Studio Display"),
        )),
        level,
        fails_read: false,
        writes: Vec::new(),
    }
}

fn bench(sims: Vec<Sim>) -> Bench {
    Bench { sims, clock: 0, sleeps: Vec::new(), passes: 0, ready: Vec::new(), updates: Vec::new() }
}

fn answer(sim: &Sim, request: &ReadRequest) -> Option<ReadReply> {
    if sim.fails_read {
        return None;
    }
    match (request, &sim.backend) {
        (ReadRequest::VcpFeature(code), DisplayBackend::DdcCi(_)) => {
            assert_eq!(*code, 0x10);
            Some(ReadReply::VcpValue(sim.level))
        }
        (ReadRequest::HidFeatureReport(buffer), DisplayBackend::AppleHid(_)) => {
            assert_eq!(*buffer, [1, 0, 0, 0, 0, 0, 0]);
            Some(ReadReply::HidFeatureReport(encode_brightness_report(sim.level)))
        }
        _ => panic!("request of the wrong protocol"),
    }
}

fn apply(sim: &mut Sim, request: &WriteRequest, now: u64) {
    match (request, &sim.backend) {
        (WriteRequest::VcpFeature(code, value), DisplayBackend::DdcCi(_)) => {
            assert_eq!(*code, 0x10);
            sim.level = *value;
        }
        (WriteRequest::HidFeatureReport(report), DisplayBackend::AppleHid(_)) => {
            assert_eq!(report[0], 1);
            assert_eq!(report[5], 0);
            assert_eq!(report[6], 0);
            sim.level = decode_brightness_report(report);
        }
        _ => panic!("request of the wrong protocol"),
    }
    sim.writes.push((now, sim.level));
}

fn probes(bench: &Bench) -> Vec<Probe> {
    let mut out = Vec::new();
    for sim in &bench.sims {
        let reply = answer(sim, &sim.backend.read_request());
        out.push(Probe { backend: sim.backend.clone(), reply });
    }
    out
}

/// Does what the coordinator asks for until it waits for a command and none
/// is left. Gives up after `limit` steps.
fn drive(coordinator: &mut Coordinator, bench: &mut Bench, commands: Vec<EventToSub>, limit: usize) {
    let mut commands = commands.into_iter();
    for _ in 0..limit {
        match coordinator.next_action() {
            Action::Sleep(ms) => {
                bench.clock += ms;
                bench.sleeps.push(ms);
                coordinator.sleep_elapsed();
            }
            Action::Enumerate => {
                bench.passes += 1;
                let seen = probes(bench);
                if let Some(snapshot) = coordinator.enumerated(&seen) {
                    bench.ready.push(snapshot);
                }
            }
            Action::AwaitCommand => match commands.next() {
                Some(command) => {
                    coordinator.command(&command);
                }
                None => return,
            },
            Action::ReadAll(orders) => {
                let mut replies = Vec::new();
                for order in &orders {
                    let sim = bench.sims.iter().find(|s| s.backend.id() == order.id).unwrap();
                    replies.push(answer(sim, &order.request));
                }
                for update in coordinator.readings(&replies) {
                    bench.updates.push((update.id, update.brightness));
                }
            }
            Action::Write(order) => {
                let now = bench.clock;
                let sim = bench.sims.iter_mut().find(|s| s.backend.id() == order.id).unwrap();
                apply(sim, &order.request, now);
                if let Some(update) = coordinator.write_finished(true) {
                    bench.updates.push((update.id, update.brightness));
                }
            }
        }
    }
    panic!("the coordinator did not come to rest");
}

fn level_of(bench: &Bench, id: &str) -> u16 {
    bench.sims.iter().find(|s| s.backend.id() == id).unwrap().level
}

fn set(id: &str, value: u16) -> EventToSub {
    EventToSub::SetBrightness(String::from(id), value)
}

#[test]
fn starts_waiting_with_the_initial_backoff() {
    let coordinator = Coordinator::new();
    assert_eq!(coordinator.phase(), Phase::Waiting);
    assert_eq!(coordinator.backoff_ms(), 50);
    assert_eq!(coordinator.failed_attempts(), 0);
    assert_eq!(coordinator.display_count(), 0);
    assert!(matches!(coordinator.next_action(), Action::Sleep(50)));
    assert_eq!(INITIAL_BACKOFF_MS, 50);
    assert_eq!(SETTLE_DELAY_MS, 50);
    assert_eq!(MAX_FAILED_ATTEMPTS, 5);
}

#[test]
fn sleep_leads_to_fetch_and_doubles_the_backoff() {
    let mut coordinator = Coordinator::new();
    coordinator.sleep_elapsed();
    assert_eq!(coordinator.phase(), Phase::Fetch);
    assert_eq!(coordinator.backoff_ms(), 100);
    assert!(matches!(coordinator.next_action(), Action::Enumerate));
    // a sleep that nobody asked for changes nothing
    coordinator.sleep_elapsed();
    assert_eq!(coordinator.phase(), Phase::Fetch);
    assert_eq!(coordinator.backoff_ms(), 100);
}

#[test]
fn clean_pass_publishes_every_display_once() {
    let mut bench = bench(vec![ddc("mon-1", "Dell U2720Q", 40), hid("C02", 75)]);
    let mut coordinator = Coordinator::new();
    drive(&mut coordinator, &mut bench, Vec::new(), 100);
    assert_eq!(bench.passes, 1);
    assert_eq!(bench.sleeps, vec![50]);
    assert_eq!(bench.ready.len(), 1);
    let snapshot = &bench.ready[0];
    assert_eq!(snapshot.len(), 2);
    assert_eq!(snapshot[0].0, "mon-1");
    assert_eq!(snapshot[0].1.name, "Dell U2720Q");
    assert_eq!(snapshot[0].1.brightness, 40);
    assert_eq!(snapshot[1].0, "apple-hid-C02");
    assert_eq!(snapshot[1].1.name, "Apple Studio Display");
    assert_eq!(snapshot[1].1.brightness, 75);
    assert_eq!(coordinator.phase(), Phase::Ready(Activity::Idle));
    assert_eq!(coordinator.backoff_ms(), 50);
    assert_eq!(coordinator.failed_attempts(), 0);
    assert_eq!(coordinator.display_count(), 2);
    assert!(bench.updates.is_empty());
}

#[test]
fn no_display_at_all_is_ready_at_once() {
    let mut bench = bench(Vec::new());
    let mut coordinator = Coordinator::new();
    drive(&mut coordinator, &mut bench, vec![EventToSub::Refresh, set("ghost", 5)], 100);
    assert_eq!(bench.passes, 1);
    assert_eq!(bench.ready.len(), 1);
    assert!(bench.ready[0].is_empty());
    assert!(bench.updates.is_empty());
    assert_eq!(coordinator.phase(), Phase::Ready(Activity::Idle));
}

#[test]
fn one_failing_display_of_three_is_left_out_after_five_passes() {
    let mut sims = vec![ddc("a", "A", 10), ddc("b", "B", 20), hid("c", 30)];
    sims[1].fails_read = true;
    let mut bench = bench(sims);
    let mut coordinator = Coordinator::new();
    drive(&mut coordinator, &mut bench, Vec::new(), 100);
    assert_eq!(bench.passes, 5);
    assert_eq!(bench.sleeps, vec![50, 100, 200, 400, 800]);
    assert_eq!(bench.clock, 1550);
    assert_eq!(bench.ready.len(), 1);
    let ids: Vec<&str> = bench.ready[0].iter().map(|entry| entry.0.as_str()).collect();
    assert_eq!(ids, vec!["a", "apple-hid-c"]);
    assert_eq!(bench.ready[0][0].1.brightness, 10);
    assert_eq!(bench.ready[0][1].1.brightness, 30);
    assert_eq!(coordinator.phase(), Phase::Ready(Activity::Idle));
    assert_eq!(coordinator.failed_attempts(), 5);
    assert_eq!(coordinator.backoff_ms(), 50);
    assert_eq!(coordinator.display_count(), 2);
}

#[test]
fn a_display_that_recovers_is_published_with_the_rest() {
    let mut sims = vec![ddc("a", "A", 10), ddc("b", "B", 20)];
    sims[1].fails_read = true;
    let mut bench = bench(sims);
    let mut coordinator = Coordinator::new();
    // two failing passes by hand
    for expected in [1u32, 2] {
        coordinator.sleep_elapsed();
        let seen = probes(&bench);
        assert!(coordinator.enumerated(&seen).is_none());
        assert_eq!(coordinator.phase(), Phase::Waiting);
        assert_eq!(coordinator.failed_attempts(), expected);
    }
    assert_eq!(coordinator.backoff_ms(), 200);
    bench.sims[1].fails_read = false;
    drive(&mut coordinator, &mut bench, Vec::new(), 100);
    assert_eq!(bench.ready.len(), 1);
    assert_eq!(bench.ready[0].len(), 2);
    assert_eq!(bench.ready[0][1].0, "b");
    assert_eq!(coordinator.failed_attempts(), 2);
    assert_eq!(coordinator.backoff_ms(), 50);
}

#[test]
fn a_later_probe_replaces_an_earlier_one_with_the_same_id() {
    let mut coordinator = Coordinator::new();
    coordinator.sleep_elapsed();
    let seen = vec![
        Probe {
            backend: DisplayBackend::DdcCi(DdcCiDisplay::new(String::from("x"), Some(String::from("old")))),
            reply: Some(ReadReply::VcpValue(11)),
        },
        Probe {
            backend: DisplayBackend::DdcCi(DdcCiDisplay::new(String::from("y"), None)),
            reply: Some(ReadReply::VcpValue(22)),
        },
        Probe {
            backend: DisplayBackend::DdcCi(DdcCiDisplay::new(String::from("x"), Some(String::from("new")))),
            reply: Some(ReadReply::VcpValue(33)),
        },
    ];
    let snapshot = coordinator.enumerated(&seen).unwrap();
    assert_eq!(snapshot.len(), 2);
    assert_eq!(snapshot[0].0, "x");
    assert_eq!(snapshot[0].1.name, "new");
    assert_eq!(snapshot[0].1.brightness, 33);
    assert_eq!(snapshot[1].0, "y");
    assert_eq!(snapshot[1].1.name, "");
    assert_eq!(snapshot[1].1.brightness, 22);
    assert_eq!(coordinator.display_count(), 2);
}

#[test]
fn a_reply_of_the_wrong_protocol_counts_as_a_failed_read() {
    let mut coordinator = Coordinator::new();
    coordinator.sleep_elapsed();
    let seen = vec![Probe {
        backend: DisplayBackend::DdcCi(DdcCiDisplay::new(String::from("x"), None)),
        reply: Some(ReadReply::HidFeatureReport([1, 0, 0, 0, 0, 0, 0])),
    }];
    assert!(coordinator.enumerated(&seen).is_none());
    assert_eq!(coordinator.phase(), Phase::Waiting);
    assert_eq!(coordinator.failed_attempts(), 1);
}

#[test]
fn readings_over_one_hundred_are_capped() {
    let mut bench = bench(vec![ddc("a", "A", 255)]);
    let mut coordinator = Coordinator::new();
    drive(&mut coordinator, &mut bench, vec![EventToSub::Refresh], 100);
    assert_eq!(bench.ready[0][0].1.brightness, 100);
    assert_eq!(bench.updates, vec![(String::from("a"), 100)]);
}

#[test]
fn two_refreshes_give_the_same_updates() {
    let mut bench = bench(vec![ddc("a", "A", 10), hid("b", 55), ddc("c", "C", 90)]);
    let mut coordinator = Coordinator::new();
    drive(&mut coordinator, &mut bench, vec![EventToSub::Refresh], 100);
    let first = bench.updates.clone();
    bench.updates.clear();
    drive(&mut coordinator, &mut bench, vec![EventToSub::Refresh], 100);
    let second = bench.updates.clone();
    assert_eq!(
        first,
        vec![(String::from("a"), 10), (String::from("apple-hid-b"), 55), (String::from("c"), 90)]
    );
    assert_eq!(first, second);
    assert_eq!(coordinator.phase(), Phase::Ready(Activity::Idle));
}

#[test]
fn refresh_passes_over_a_display_that_fails() {
    let mut bench = bench(vec![ddc("a", "A", 10), ddc("b", "B", 20), ddc("c", "C", 30)]);
    let mut coordinator = Coordinator::new();
    drive(&mut coordinator, &mut bench, Vec::new(), 100);
    bench.sims[1].fails_read = true;
    drive(&mut coordinator, &mut bench, vec![EventToSub::Refresh], 100);
    assert_eq!(bench.updates, vec![(String::from("a"), 10), (String::from("c"), 30)]);
}

#[test]
fn refresh_with_too_few_replies_reports_what_it_got() {
    let mut bench = bench(vec![ddc("a", "A", 10), ddc("b", "B", 20)]);
    let mut coordinator = Coordinator::new();
    drive(&mut coordinator, &mut bench, Vec::new(), 100);
    assert!(coordinator.command(&EventToSub::Refresh));
    assert_eq!(coordinator.phase(), Phase::Ready(Activity::Refreshing));
    let updates: Vec<BrightnessUpdated> = coordinator.readings(&vec![Some(ReadReply::VcpValue(64))]);
    assert_eq!(updates.len(), 1);
    assert_eq!(updates[0].id, "a");
    assert_eq!(updates[0].brightness, 64);
    assert_eq!(coordinator.phase(), Phase::Ready(Activity::Idle));
}

#[test]
fn refresh_asks_every_display_in_its_own_protocol() {
    let mut bench = bench(vec![ddc("a", "A", 10), hid("b", 55)]);
    let mut coordinator = Coordinator::new();
    drive(&mut coordinator, &mut bench, Vec::new(), 100);
    coordinator.command(&EventToSub::Refresh);
    match coordinator.next_action() {
        Action::ReadAll(orders) => {
            assert_eq!(orders.len(), 2);
            assert_eq!(orders[0].id, "a");
            assert!(matches!(orders[0].request, ReadRequest::VcpFeature(0x10)));
            assert_eq!(orders[1].id, "apple-hid-b");
            assert!(matches!(orders[1].request, ReadRequest::HidFeatureReport([1, 0, 0, 0, 0, 0, 0])));
        }
        _ => panic!("a refresh reads every display"),
    }
}

#[test]
fn two_sets_reach_their_own_displays() {
    let mut bench = bench(vec![ddc("A", "left", 50), hid("B", 50), ddc("C", "right", 50)]);
    let mut coordinator = Coordinator::new();
    drive(&mut coordinator, &mut bench, vec![set("A", 10), set("apple-hid-B", 20)], 100);
    assert_eq!(level_of(&bench, "A"), 10);
    assert_eq!(level_of(&bench, "apple-hid-B"), 20);
    assert_eq!(level_of(&bench, "C"), 50);
    assert_eq!(bench.sims[0].writes.len(), 1);
    assert_eq!(bench.sims[1].writes.len(), 1);
    assert!(bench.sims[2].writes.is_empty());
    assert_eq!(bench.updates, vec![(String::from("A"), 10), (String::from("apple-hid-B"), 20)]);
}

#[test]
fn set_sends_the_value_in_the_display_s_protocol() {
    let mut bench = bench(vec![ddc("a", "A", 10), hid("b", 55)]);
    let mut coordinator = Coordinator::new();
    drive(&mut coordinator, &mut bench, Vec::new(), 100);
    assert!(coordinator.command(&set("a", 42)));
    assert_eq!(coordinator.phase(), Phase::Ready(Activity::Writing(0, 42)));
    match coordinator.next_action() {
        Action::Write(order) => {
            assert_eq!(order.id, "a");
            assert!(matches!(order.request, WriteRequest::VcpFeature(0x10, 42)));
        }
        _ => panic!("a set writes"),
    }
    assert!(coordinator.write_finished(false).is_none());
    assert_eq!(coordinator.phase(), Phase::Ready(Activity::Settling));
    coordinator.sleep_elapsed();
    assert!(coordinator.command(&set("apple-hid-b", 100)));
    assert_eq!(coordinator.phase(), Phase::Ready(Activity::Writing(1, 100)));
    match coordinator.next_action() {
        Action::Write(order) => {
            assert_eq!(order.id, "apple-hid-b");
            assert!(matches!(
                order.request,
                WriteRequest::HidFeatureReport([1, 0x60, 0xea, 0, 0, 0, 0])
            ));
        }
        _ => panic!("a set writes"),
    }
    let update = coordinator.write_finished(true).unwrap();
    assert_eq!(update.id, "apple-hid-b");
    assert_eq!(update.brightness, 100);
}

#[test]
fn set_over_one_hundred_is_capped() {
    let mut bench = bench(vec![ddc("a", "A", 10)]);
    let mut coordinator = Coordinator::new();
    drive(&mut coordinator, &mut bench, vec![set("a", 300)], 100);
    assert_eq!(level_of(&bench, "a"), 100);
    assert_eq!(bench.updates, vec![(String::from("a"), 100)]);
}

#[test]
fn set_for_an_unknown_display_does_nothing() {
    let mut bench = bench(vec![ddc("a", "A", 10)]);
    let mut coordinator = Coordinator::new();
    drive(&mut coordinator, &mut bench, Vec::new(), 100);
    assert!(!coordinator.command(&set("gone", 70)));
    assert_eq!(coordinator.phase(), Phase::Ready(Activity::Idle));
    assert!(matches!(coordinator.next_action(), Action::AwaitCommand));
    assert_eq!(level_of(&bench, "a"), 10);
}

#[test]
fn writes_to_one_display_are_fifty_milliseconds_apart() {
    let mut bench = bench(vec![ddc("a", "A", 10)]);
    let mut coordinator = Coordinator::new();
    drive(&mut coordinator, &mut bench, vec![set("a", 30), set("a", 60), set("a", 90)], 100);
    let writes = &bench.sims[0].writes;
    assert_eq!(writes.len(), 3);
    assert_eq!(writes[0].1, 30);
    assert_eq!(writes[1].1, 60);
    assert_eq!(writes[2].1, 90);
    assert!(writes[1].0 - writes[0].0 >= 50);
    assert!(writes[2].0 - writes[1].0 >= 50);
    assert_eq!(writes[1].0 - writes[0].0, 50);
    assert_eq!(bench.sleeps, vec![50, 50, 50, 50]);
}

#[test]
fn no_command_is_taken_while_writing_or_settling() {
    let mut bench = bench(vec![ddc("a", "A", 10), ddc("b", "B", 20)]);
    let mut coordinator = Coordinator::new();
    drive(&mut coordinator, &mut bench, Vec::new(), 100);
    assert!(coordinator.command(&set("a", 30)));
    assert!(!coordinator.command(&set("b", 40)));
    assert!(!coordinator.command(&EventToSub::Refresh));
    assert_eq!(coordinator.phase(), Phase::Ready(Activity::Writing(0, 30)));
    coordinator.write_finished(true);
    assert!(!coordinator.command(&set("b", 40)));
    assert_eq!(coordinator.phase(), Phase::Ready(Activity::Settling));
    assert!(matches!(coordinator.next_action(), Action::Sleep(50)));
    coordinator.sleep_elapsed();
    assert!(coordinator.command(&set("b", 40)));
    assert_eq!(coordinator.phase(), Phase::Ready(Activity::Writing(1, 40)));
}

#[test]
fn reports_out_of_turn_change_nothing() {
    let mut coordinator = Coordinator::new();
    assert!(!coordinator.command(&EventToSub::Refresh));
    assert!(coordinator.enumerated(&Vec::new()).is_none());
    assert!(coordinator.readings(&Vec::new()).is_empty());
    assert!(coordinator.write_finished(true).is_none());
    assert_eq!(coordinator.phase(), Phase::Waiting);
    assert_eq!(coordinator.backoff_ms(), 50);
    assert_eq!(coordinator.failed_attempts(), 0);
}

#[test]
fn backends_tell_id_name_and_protocol() {
    let left = DisplayBackend::DdcCi(DdcCiDisplay::new(String::from("i2c-4"), Some(String::from("U2720Q"))));
    assert_eq!(left.id(), "i2c-4");
    assert_eq!(left.name(), "U2720Q");
    assert_eq!(left.protocol(), Protocol::DdcCi);
    assert!(left.has_id(&String::from("i2c-4")));
    assert!(!left.has_id(&String::from("i2c-5")));
    assert!(matches!(left.read_request(), ReadRequest::VcpFeature(0x10)));
    assert!(matches!(left.write_request(101), WriteRequest::VcpFeature(0x10, 100)));
    assert_eq!(left.decode_reading(&ReadReply::VcpValue(7)), Some(7));
    assert_eq!(left.decode_reading(&ReadReply::VcpValue(700)), Some(100));
    assert_eq!(left.decode_reading(&ReadReply::HidFeatureReport([1, 0, 0, 0, 0, 0, 0])), None);

    let nameless = DisplayBackend::DdcCi(DdcCiDisplay::new(String::from("i2c-9"), None));
    assert_eq!(nameless.name(), "");

    let right = DisplayBackend::AppleHid(AppleHidDisplay::new(
        String::from("S"),
        String::from("Apple"),
        String::from("Studio Display"),
    ));
    assert_eq!(right.id(), "apple-hid-S");
    assert_eq!(right.name(), "Apple Studio Display");
    assert_eq!(right.protocol(), Protocol::AppleHid);
    assert_eq!(right.decode_reading(&ReadReply::HidFeatureReport([1, 0xf8, 0x75, 0, 0, 0, 0])), Some(50));
    assert_eq!(right.decode_reading(&ReadReply::VcpValue(7)), None);
    let twin = right.duplicate();
    assert_eq!(twin.id(), right.id());
    assert_eq!(twin.name(), right.name());
}
