use hydrapool::broadcast::{address_job, broadcast, Delivery};
use hydrapool::tracker::JobTracker;

#[test]
fn job_is_addressed_to_every_connection() {
    let connections = vec![4, 9, 2];
    assert_eq!(
        address_job(7, &connections),
        vec![
            Delivery { connection: 4, version: 7 },
            Delivery { connection: 9, version: 7 },
            Delivery { connection: 2, version: 7 },
        ]
    );
    assert_eq!(address_job(7, &Vec::new()), Vec::<Delivery>::new());
}

#[test]
fn each_notification_gets_a_fresh_version() {
    let mut tracker: JobTracker<&str> = JobTracker::new();
    let connections = vec![1, 2];
    assert_eq!(
        broadcast(&mut tracker, "first", &connections),
        Some(vec![
            Delivery { connection: 1, version: 1 },
            Delivery { connection: 2, version: 1 },
        ])
    );
    // a connection that registers later gets the later jobs only
    let connections = vec![1, 2, 3];
    assert_eq!(
        broadcast(&mut tracker, "second", &connections),
        Some(vec![
            Delivery { connection: 1, version: 2 },
            Delivery { connection: 2, version: 2 },
            Delivery { connection: 3, version: 2 },
        ])
    );
    assert_eq!(tracker.current(), 2);
    assert_eq!(tracker.current_template(), Some(&"second"));
}

#[test]
fn broadcast_without_connections_still_takes_a_version() {
    let mut tracker: JobTracker<u8> = JobTracker::new();
    assert_eq!(broadcast(&mut tracker, 5, &Vec::new()), Some(Vec::new()));
    assert_eq!(tracker.current(), 1);
}
