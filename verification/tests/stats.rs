use dnsping::stats::{LatencySummary, Report, Statistics};

#[test]
fn new_account_is_empty() {
    let stats = Statistics::new();
    assert_eq!(
        stats,
        Statistics {
            sent: 0,
            received: 0,
            latency_min: u64::MAX,
            latency_max: 0,
            latency_total: 0
        }
    );
    assert_eq!(
        stats.report(),
        Report { transmitted: 0, received: 0, lost: 0, loss_hundredths: 0, latency: None }
    );
}

#[test]
fn replies_fold_into_least_greatest_and_sum() {
    let mut stats = Statistics::new();
    for _ in 0..4 {
        stats.record_sent();
    }
    stats.record_reply(300);
    stats.record_reply(100);
    stats.record_reply(250);
    assert_eq!(
        stats,
        Statistics {
            sent: 4,
            received: 3,
            latency_min: 100,
            latency_max: 300,
            latency_total: 650
        }
    );
    assert_eq!(stats.lost(), 1);
    assert_eq!(stats.in_flight(), Some(1));
    assert_eq!(stats.latency(), Some(LatencySummary { min: 100, avg: 216, max: 300 }));
    assert_eq!(
        stats.report(),
        Report {
            transmitted: 4,
            received: 3,
            lost: 1,
            loss_hundredths: 2500,
            latency: Some(LatencySummary { min: 100, avg: 216, max: 300 }),
        }
    );
}

#[test]
fn loss_is_nothing_when_nothing_was_sent() {
    let stats = Statistics::new();
    assert_eq!(stats.loss_hundredths(), 0);
    let odd = Statistics { received: 3, ..Statistics::new() };
    assert_eq!(odd.loss_hundredths(), 0);
}

#[test]
fn loss_is_rounded_to_the_nearest_hundredth() {
    let of = |sent: u64, received: u64| {
        Statistics { sent, received, ..Statistics::new() }.loss_hundredths()
    };
    assert_eq!(of(3, 3), 0);
    assert_eq!(of(3, 2), 3333);
    assert_eq!(of(3, 1), 6667);
    assert_eq!(of(3, 0), 10000);
    assert_eq!(of(8, 7), 1250);
    assert_eq!(of(1_000_000, 1), 10000);
    assert_eq!(of(1_000_000, 999_999), 0);
    assert_eq!(of(20_000, 19_999), 1);
    assert_eq!(of(u64::MAX, 0), 10000);
    assert_eq!(of(u64::MAX, u64::MAX), 0);
}

#[test]
fn loss_stays_within_bounds_while_no_more_is_received_than_sent() {
    for sent in 0..60u64 {
        for received in 0..=sent {
            let stats = Statistics { sent, received, ..Statistics::new() };
            let loss = stats.loss_hundredths();
            assert!(loss <= 10000);
            if sent == 0 {
                assert_eq!(loss, 0);
            }
            assert_eq!(stats.lost(), sent - received);
        }
    }
}

#[test]
fn counters_wrap_and_the_difference_wraps_with_them() {
    let mut stats = Statistics { sent: u64::MAX, received: u64::MAX - 2, ..Statistics::new() };
    assert_eq!(stats.lost(), 2);
    stats.record_sent();
    assert_eq!(stats.sent, 0);
    assert_eq!(stats.lost(), 3);
    assert_eq!(stats.in_flight(), Some(3));
    stats.record_reply(10);
    stats.record_reply(10);
    assert_eq!(stats.received, u64::MAX);
    assert_eq!(stats.lost(), 1);
    stats.record_reply(10);
    assert_eq!(stats.received, 0);
    assert_eq!(stats.lost(), 0);
    assert_eq!(stats.in_flight(), None);

    let ahead = Statistics { sent: 1, received: 2, ..Statistics::new() };
    assert_eq!(ahead.lost(), u64::MAX);
    assert_eq!(ahead.loss_hundredths(), u64::MAX as u128 * 10000);
}

#[test]
fn running_total_wraps() {
    let mut stats = Statistics::new();
    stats.record_reply(u64::MAX);
    stats.record_reply(3);
    assert_eq!(stats.latency_total, 2);
    assert_eq!(stats.latency_min, 3);
    assert_eq!(stats.latency_max, u64::MAX);
    assert_eq!(stats.received, 2);
}

#[test]
fn no_figures_without_a_reply() {
    let mut stats = Statistics::new();
    assert_eq!(stats.latency(), None);
    stats.record_sent();
    stats.record_sent();
    assert_eq!(stats.latency(), None);
    assert_eq!(stats.report().latency, None);
    stats.record_reply(0);
    assert_eq!(stats.latency(), Some(LatencySummary { min: 0, avg: 0, max: 0 }));
}

#[test]
fn average_lies_between_least_and_greatest() {
    let runs: [&[u64]; 5] = [
        &[5],
        &[1, 2, 3, 4],
        &[1000, 1, 1, 1],
        &[7, 7, 7],
        &[0, u64::MAX / 4, u64::MAX / 2],
    ];
    for run in runs {
        let mut stats = Statistics::new();
        let mut sum: u128 = 0;
        for latency in run {
            stats.record_reply(*latency);
            sum += *latency as u128;
        }
        let figures = stats.latency().unwrap();
        assert!(figures.min <= figures.avg && figures.avg <= figures.max);
        assert_eq!(figures.min, *run.iter().min().unwrap());
        assert_eq!(figures.max, *run.iter().max().unwrap());
        assert_eq!(figures.avg as u128, sum / run.len() as u128);
    }
}

#[test]
fn in_flight_is_absent_when_all_are_answered() {
    let mut stats = Statistics::new();
    assert_eq!(stats.in_flight(), None);
    stats.record_sent();
    assert_eq!(stats.in_flight(), Some(1));
    stats.record_reply(1);
    assert_eq!(stats.in_flight(), None);
}
