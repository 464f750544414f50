use database_metrics::harness::{Backend, InsertPass, Step};
use database_metrics::metrics::{split_duration, Elapsed};

/// Runs a pass, failing the inserts that `fails` picks, and returns the steps.
fn trace(batch_len: usize, fails: impl Fn(Backend, usize) -> bool) -> (Vec<Step>, InsertPass) {
    let mut pass = InsertPass::new(batch_len);
    let mut steps = Vec::new();
    loop {
        let step = pass.next_step();
        steps.push(step);
        match step {
            Step::Done => break,
            Step::Insert(b, i) => pass.advance(!fails(b, i)),
            _ => pass.advance(true),
        }
    }
    (steps, pass)
}

#[test]
fn every_engine_takes_the_batch_in_order() {
    let (steps, pass) = trace(2, |_, _| false);
    let order = [
        Backend::MongoDB,
        Backend::PostgreSQL,
        Backend::SurrealDB,
        Backend::LevelDB,
        Backend::RocksDB,
    ];
    let mut expected = Vec::new();
    for b in order.iter() {
        expected.push(Step::Begin(*b));
        expected.push(Step::Insert(*b, 0));
        expected.push(Step::Insert(*b, 1));
        expected.push(Step::End(*b, true));
    }
    expected.push(Step::Done);
    assert_eq!(steps, expected);
    assert_eq!(pass.engine_outcomes(), vec![true; 5]);
    assert!(pass.succeeded());
}

#[test]
fn a_failed_insert_ends_only_that_engine() {
    let (steps, pass) = trace(3, |b, i| b == Backend::PostgreSQL && i == 1);
    let postgres: Vec<Step> = steps
        .iter()
        .copied()
        .filter(|s| match s {
            Step::Begin(b) | Step::Insert(b, _) | Step::End(b, _) => *b == Backend::PostgreSQL,
            Step::Done => false,
        })
        .collect();
    assert_eq!(
        postgres,
        vec![
            Step::Begin(Backend::PostgreSQL),
            Step::Insert(Backend::PostgreSQL, 0),
            Step::Insert(Backend::PostgreSQL, 1),
            Step::End(Backend::PostgreSQL, false),
        ]
    );
    assert!(steps.contains(&Step::Insert(Backend::RocksDB, 2)));
    assert_eq!(pass.engine_outcomes(), vec![true, false, true, true, true]);
    assert!(!pass.succeeded());
}

#[test]
fn an_empty_batch_still_visits_every_engine() {
    let (steps, pass) = trace(0, |_, _| true);
    assert_eq!(steps.len(), 5 * 2 + 1);
    assert_eq!(steps[0], Step::Begin(Backend::MongoDB));
    assert_eq!(steps[1], Step::End(Backend::MongoDB, true));
    assert!(pass.succeeded());
}

#[test]
fn engines_are_numbered_in_visiting_order() {
    assert_eq!(Backend::at(0), Backend::MongoDB);
    assert_eq!(Backend::at(3), Backend::LevelDB);
    assert_eq!(Backend::at(4), Backend::RocksDB);
}

#[test]
fn durations_split_into_minutes_seconds_and_millis() {
    assert_eq!(split_duration(0, 0), Elapsed { minutes: 0, seconds: 0, millis: 0 });
    assert_eq!(split_duration(59, 999), Elapsed { minutes: 0, seconds: 59, millis: 999 });
    assert_eq!(split_duration(60, 5), Elapsed { minutes: 1, seconds: 0, millis: 5 });
    assert_eq!(split_duration(3725, 250), Elapsed { minutes: 62, seconds: 5, millis: 250 });
}
