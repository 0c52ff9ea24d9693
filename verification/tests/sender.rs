use prometheus::Registry;
use uppies::channel::Polled;
use uppies::collector::{counted, Family, Tick};
use uppies::address::Address;
use uppies::dispatcher::Endpoint;
use uppies::error::{ChannelError, SetupError};
use uppies::metrics::{latency_buckets_ms, setup_error, Instruments, MetricFault};
use uppies::outcome::{FailureCause, Latency, ProbeOutcome};
use uppies::{ping_targets, PingSender};

const LOCALHOST: &str = "127.0.0.1";

fn endpoint(target: &str) -> Endpoint<()> {
    Endpoint { target: target.to_string(), transport: Ok(()) }
}

fn localhost() -> Endpoint<()> {
    endpoint(LOCALHOST)
}

/// The value of the counter `name` for `target`, if the registry shows one.
fn counter(registry: &Registry, name: &str, target: &str) -> Option<u64> {
    for family in registry.gather() {
        if family.name() != name {
            continue;
        }
        for metric in family.get_metric() {
            let labelled = metric
                .get_label()
                .iter()
                .any(|pair| pair.name() == "target" && pair.value() == target);
            if labelled {
                return Some(metric.get_counter().get_value() as u64);
            }
        }
    }
    None
}

fn success(millis: u32) -> ProbeOutcome {
    ProbeOutcome::Success { latency: Latency::from_parts(0, millis * 1_000_000).unwrap() }
}

fn timeout() -> ProbeOutcome {
    ProbeOutcome::Failure { cause: FailureCause::Timeout }
}

#[test]
fn sender_without_targets_starts_nothing() {
    let registry = Registry::new();
    let sender: PingSender<()> = PingSender::new(Vec::new(), 200, &registry).unwrap();
    assert_eq!(sender.len(), 0);
    let tasks = ping_targets(sender);
    assert!(tasks.is_empty());
}

#[test]
fn sender_has_one_pair_per_target_in_order() {
    let registry = Registry::new();
    let targets = vec![localhost(), endpoint("10.0.0.1"), endpoint("10.0.0.2")];
    let sender = PingSender::new(targets, 201, &registry).unwrap();
    assert_eq!(sender.len(), 3);
    let tasks = ping_targets(sender);
    assert_eq!(tasks.len(), 3);
    assert_eq!(tasks[0].dispatcher.target(), LOCALHOST);
    assert_eq!(tasks[1].dispatcher.target(), "10.0.0.1");
    assert_eq!(tasks[2].dispatcher.target(), "10.0.0.2");
    assert_eq!(tasks[1].dispatcher.address(), Address::V4(0x0a00_0001));
    for task in tasks.iter() {
        assert_eq!(task.collector.target(), task.dispatcher.target());
        assert_eq!(task.dispatcher.ping_interval_ms(), 201);
        assert_eq!(task.collector.period_us(), 100_500);
        assert!(2 * task.collector.period_us() <= 1_000 * task.dispatcher.ping_interval_ms() as u128);
    }
}

#[test]
fn second_sender_on_one_registry_is_a_duplicate() {
    let registry = Registry::new();
    let first = PingSender::new(vec![localhost()], 200, &registry);
    assert!(first.is_ok());
    match PingSender::new(vec![localhost()], 200, &registry) {
        Err(e) => assert_eq!(e, SetupError::DuplicateMetric),
        Ok(_) => panic!("the same instruments were registered twice"),
    }
}

#[test]
fn duplicate_registration_comes_before_a_bad_target() {
    let registry = Registry::new();
    assert!(Instruments::register(&registry).is_ok());
    let bad: Endpoint<()> = Endpoint { target: "nowhere".to_string(), transport: Ok(()) };
    match PingSender::new(vec![bad], 200, &registry) {
        Err(e) => assert_eq!(e, SetupError::DuplicateMetric),
        Ok(_) => panic!("the same instruments were registered twice"),
    }
}

#[test]
fn first_bad_target_fails_the_sender() {
    let registry = Registry::new();
    let targets = vec![
        localhost(),
        Endpoint { target: "10.0.0.9".to_string(), transport: Err("no socket".to_string()) },
        Endpoint { target: "nowhere".to_string(), transport: Ok(()) },
    ];
    match PingSender::new(targets, 200, &registry) {
        Err(e) => assert_eq!(
            e,
            SetupError::SocketInit { target: "10.0.0.9".to_string(), reason: "no socket".to_string() }
        ),
        Ok(_) => panic!("a target without transport was accepted"),
    }
}

#[test]
fn assemble_fails_on_a_target_that_is_no_address() {
    let registry = Registry::new();
    let instruments = Instruments::register(&registry).unwrap();
    let targets: Vec<Endpoint<()>> = vec![
        Endpoint { target: "nowhere".to_string(), transport: Ok(()) },
        localhost(),
    ];
    match PingSender::assemble(instruments, targets, 200) {
        Err(e) => assert_eq!(e, SetupError::AddressParse { target: "nowhere".to_string() }),
        Ok(_) => panic!("a target that is no address was accepted"),
    }
}

#[test]
fn setup_error_for_each_fault() {
    assert_eq!(setup_error(MetricFault::Duplicate), SetupError::DuplicateMetric);
    assert_eq!(
        setup_error(MetricFault::Other("bad name".to_string())),
        SetupError::MetricRejected { reason: "bad name".to_string() }
    );
}

#[test]
fn same_target_twice_shares_its_counters() {
    let registry = Registry::new();
    let sender = PingSender::new(vec![localhost(), localhost()], 200, &registry).unwrap();
    let mut tasks = ping_targets(sender);
    assert_eq!(tasks.len(), 2);
    assert_eq!(tasks[0].dispatcher.report(success(3)), Ok(()));
    assert_eq!(tasks[1].dispatcher.report(success(4)), Ok(()));
    assert_eq!(tasks[0].collector.tick(), Tick::Success { latency_ms: 3 });
    assert_eq!(tasks[1].collector.tick(), Tick::Success { latency_ms: 4 });
    assert_eq!(counter(&registry, "ping_success_count", LOCALHOST), Some(2));
    assert_eq!(counter(&registry, "ping_failure_count", LOCALHOST), Some(0));
}

#[test]
fn failure_counter_is_there_from_the_start() {
    let registry = Registry::new();
    let sender = PingSender::new(vec![localhost(), endpoint("10.0.0.200")], 200, &registry).unwrap();
    assert_eq!(counter(&registry, "ping_failure_count", LOCALHOST), None);
    let _tasks = ping_targets(sender);
    assert_eq!(counter(&registry, "ping_failure_count", LOCALHOST), Some(0));
    assert_eq!(counter(&registry, "ping_failure_count", "10.0.0.200"), Some(0));
    assert_eq!(counter(&registry, "ping_failure_count", "192.0.2.1"), None);
    assert_eq!(counter(&registry, "ping_success_count", LOCALHOST), None);
}

#[test]
fn success_is_counted_for_its_target() {
    let registry = Registry::new();
    let sender = PingSender::new(vec![localhost(), endpoint("10.0.0.200")], 200, &registry).unwrap();
    let mut tasks = ping_targets(sender);
    let latency = Latency::from_parts(1, 234_567_890).unwrap();
    assert_eq!(tasks[0].dispatcher.report(ProbeOutcome::Success { latency }), Ok(()));
    assert_eq!(tasks[0].collector.tick(), Tick::Success { latency_ms: 1234 });
    assert_eq!(counter(&registry, "ping_success_count", LOCALHOST), Some(1));
    assert_eq!(counter(&registry, "ping_failure_count", LOCALHOST), Some(0));
    assert_eq!(counter(&registry, "ping_success_count", "10.0.0.200"), None);
}

#[test]
fn failure_is_counted_for_its_target() {
    let registry = Registry::new();
    let sender = PingSender::new(vec![endpoint("10.0.0.200")], 200, &registry).unwrap();
    let mut tasks = ping_targets(sender);
    assert_eq!(tasks[0].dispatcher.report(timeout()), Ok(()));
    assert_eq!(tasks[0].collector.tick(), Tick::Failure { cause: FailureCause::Timeout });
    assert_eq!(counter(&registry, "ping_failure_count", "10.0.0.200"), Some(1));
    assert_eq!(counter(&registry, "ping_success_count", "10.0.0.200"), None);
}

#[test]
fn empty_channel_counts_nothing() {
    let registry = Registry::new();
    let sender = PingSender::new(vec![localhost()], 200, &registry).unwrap();
    let mut tasks = ping_targets(sender);
    assert_eq!(tasks[0].collector.tick(), Tick::Idle);
    assert!(!Tick::Idle.ends_collector());
    assert_eq!(counter(&registry, "ping_failure_count", LOCALHOST), Some(0));
    assert_eq!(counter(&registry, "ping_success_count", LOCALHOST), None);
}

#[test]
fn collector_stops_once_the_prober_is_gone() {
    let registry = Registry::new();
    let sender = PingSender::new(vec![localhost()], 200, &registry).unwrap();
    let mut tasks = ping_targets(sender);
    let task = tasks.pop().unwrap();
    let mut collector = task.collector;
    assert_eq!(task.dispatcher.report(timeout()), Ok(()));
    drop(task.dispatcher);
    assert_eq!(collector.tick(), Tick::Failure { cause: FailureCause::Timeout });
    let last = collector.tick();
    assert_eq!(last, Tick::Disconnected);
    assert!(last.ends_collector());
    assert_eq!(counter(&registry, "ping_failure_count", LOCALHOST), Some(1));
}

#[test]
fn outcomes_come_out_in_the_order_they_went_in() {
    let registry = Registry::new();
    let sender = PingSender::new(vec![localhost()], 200, &registry).unwrap();
    let mut tasks = ping_targets(sender);
    assert_eq!(tasks[0].dispatcher.report(success(1)), Ok(()));
    assert_eq!(tasks[0].dispatcher.report(timeout()), Ok(()));
    assert_eq!(tasks[0].dispatcher.report(success(7)), Ok(()));
    assert_eq!(tasks[0].collector.tick(), Tick::Success { latency_ms: 1 });
    assert_eq!(tasks[0].collector.tick(), Tick::Failure { cause: FailureCause::Timeout });
    assert_eq!(tasks[0].collector.tick(), Tick::Success { latency_ms: 7 });
    assert_eq!(tasks[0].collector.tick(), Tick::Idle);
}

#[test]
fn record_for_each_finding() {
    let registry = Registry::new();
    let sender = PingSender::new(vec![localhost()], 200, &registry).unwrap();
    let tasks = ping_targets(sender);
    let collector = &tasks[0].collector;
    assert_eq!(collector.record(Polled::Empty), Tick::Idle);
    assert_eq!(collector.record(Polled::Disconnected), Tick::Disconnected);
    assert_eq!(collector.record(Polled::Outcome(success(12))), Tick::Success { latency_ms: 12 });
    assert_eq!(
        collector.record(Polled::Outcome(ProbeOutcome::Failure { cause: FailureCause::Unreachable })),
        Tick::Failure { cause: FailureCause::Unreachable }
    );
    assert_eq!(counter(&registry, "ping_success_count", LOCALHOST), Some(1));
    assert_eq!(counter(&registry, "ping_failure_count", LOCALHOST), Some(1));
}

#[test]
fn polling_twice_per_probe_never_fills_the_channel() {
    let registry = Registry::new();
    let sender = PingSender::new(vec![localhost()], 200, &registry).unwrap();
    let mut tasks = ping_targets(sender);
    let mut seen: u64 = 0;
    let mut round: u32 = 0;
    while round < 50 {
        assert_eq!(tasks[0].dispatcher.report(success(round)), Ok(()));
        assert_eq!(tasks[0].collector.tick(), Tick::Success { latency_ms: round as u128 });
        assert_eq!(tasks[0].collector.tick(), Tick::Idle);
        seen += 1;
        round += 1;
    }
    assert_eq!(counter(&registry, "ping_success_count", LOCALHOST), Some(seen));
}

#[test]
fn polling_once_per_probe_needs_two_slots_at_most() {
    let registry = Registry::new();
    let sender = PingSender::new(vec![localhost()], 1, &registry).unwrap();
    let mut tasks = ping_targets(sender);
    assert_eq!(tasks[0].collector.period_us(), 500);
    assert_eq!(tasks[0].dispatcher.report(success(0)), Ok(()));
    let mut round: u32 = 1;
    while round < 50 {
        assert_eq!(tasks[0].dispatcher.report(success(round)), Ok(()));
        assert_eq!(tasks[0].collector.tick(), Tick::Success { latency_ms: (round - 1) as u128 });
        round += 1;
    }
}

#[test]
fn a_stalled_collector_stops_the_prober() {
    let registry = Registry::new();
    let sender = PingSender::new(vec![localhost()], 200, &registry).unwrap();
    let tasks = ping_targets(sender);
    let mut sent: u32 = 0;
    while sent < 5 {
        assert_eq!(tasks[0].dispatcher.report(timeout()), Ok(()));
        sent += 1;
    }
    assert_eq!(tasks[0].dispatcher.report(timeout()), Err(ChannelError::Full));
}

#[test]
fn latency_buckets_rise_from_one_millisecond() {
    let bounds = latency_buckets_ms();
    assert_eq!(bounds, vec![1, 5, 10, 25, 50, 100, 250, 500, 1000, 2500]);
    let mut i: usize = 1;
    while i < bounds.len() {
        assert!(bounds[i - 1] < bounds[i]);
        i += 1;
    }
}

#[test]
fn collector_drains_the_channel_of_its_own_prober() {
    let registry = Registry::new();
    let sender = PingSender::new(vec![localhost(), endpoint("10.0.0.1")], 200, &registry).unwrap();
    let mut tasks = ping_targets(sender);
    assert_eq!(tasks[1].dispatcher.report(success(9)), Ok(()));
    assert_eq!(tasks[0].collector.tick(), Tick::Idle);
    assert_eq!(tasks[1].collector.tick(), Tick::Success { latency_ms: 9 });
    assert_eq!(tasks[0].dispatcher.report(timeout()), Ok(()));
    assert_eq!(tasks[1].collector.tick(), Tick::Idle);
    assert_eq!(tasks[0].collector.tick(), Tick::Failure { cause: FailureCause::Timeout });
}

#[test]
fn counted_for_each_finding() {
    assert_eq!(counted(Polled::Outcome(success(3))), Some(Family::Success));
    assert_eq!(counted(Polled::Outcome(timeout())), Some(Family::Failure));
    assert_eq!(counted(Polled::Empty), None);
    assert_eq!(counted(Polled::Disconnected), None);
}

#[test]
fn counters_are_registered_under_their_names() {
    let registry = Registry::new();
    let sender = PingSender::new(vec![localhost()], 200, &registry).unwrap();
    let mut tasks = ping_targets(sender);
    assert_eq!(tasks[0].dispatcher.report(success(2)), Ok(()));
    assert_eq!(tasks[0].collector.tick(), Tick::Success { latency_ms: 2 });
    let families = registry.gather();
    let mut names: Vec<String> = families.iter().map(|f| f.name().to_string()).collect();
    names.sort();
    assert_eq!(names, vec!["ping_failure_count".to_string(), "ping_success_count".to_string()]);
    for family in families.iter() {
        for metric in family.get_metric() {
            let labels: Vec<String> =
                metric.get_label().iter().map(|pair| pair.name().to_string()).collect();
            assert_eq!(labels, vec!["target".to_string()]);
        }
    }
}
