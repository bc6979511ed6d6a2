use mikaboshi::bus::{Bus, RecvOutcome};
use mikaboshi::record::{HostAddr, Proto, RawRecord};

fn rec(n: i32) -> RawRecord {
    RawRecord {
        src_ip: HostAddr::V4(0x0a00_0001),
        dst_ip: HostAddr::V4(0x7f00_0001),
        src_is_agent: false,
        dst_is_agent: true,
        size: n,
        proto: Proto::Udp,
        src_port: 53,
        dst_port: 53,
    }
}

#[test]
fn fast_subscriber_sees_everything_in_order() {
    let mut bus = Bus::new(100);
    let mut sub = bus.subscribe();
    for n in 0..10 {
        bus.publish(rec(n));
    }
    let got = bus.drain(&mut sub);
    assert_eq!(got.len(), 10);
    for n in 0..10 {
        assert_eq!(got[n].size, n as i32);
    }
    assert_eq!(bus.recv(&mut sub), RecvOutcome::Empty);
}

#[test]
fn subscriber_joins_after_history() {
    let mut bus = Bus::new(100);
    bus.publish(rec(1));
    bus.publish(rec(2));
    let mut sub = bus.subscribe();
    assert_eq!(bus.recv(&mut sub), RecvOutcome::Empty);
    bus.publish(rec(3));
    assert_eq!(bus.recv(&mut sub), RecvOutcome::Record(rec(3)));
}

#[test]
fn slow_subscriber_loses_oldest_and_recovers() {
    let mut bus = Bus::new(2);
    let mut sub = bus.subscribe();
    for n in 1..=5 {
        bus.publish(rec(n));
    }
    assert_eq!(bus.recv(&mut sub), RecvOutcome::Lagged(3));
    assert_eq!(bus.recv(&mut sub), RecvOutcome::Record(rec(4)));
    assert_eq!(bus.recv(&mut sub), RecvOutcome::Record(rec(5)));
    assert_eq!(bus.recv(&mut sub), RecvOutcome::Empty);
}

#[test]
fn idle_subscriber_does_not_disturb_a_reading_one() {
    let mut bus = Bus::new(3);
    let mut reader = bus.subscribe();
    let idle = bus.subscribe();
    for n in 0..100 {
        bus.publish(rec(n));
        match bus.recv(&mut reader) {
            RecvOutcome::Record(r) => assert_eq!(r.size, n as i32),
            other => panic!("expected a record, got {:?}", other),
        }
    }
    let mut idle = idle;
    match bus.recv(&mut idle) {
        RecvOutcome::Lagged(lost) => assert_eq!(lost, 97),
        other => panic!("expected lag, got {:?}", other),
    }
    let caught_up = bus.drain(&mut idle);
    assert_eq!(caught_up.len(), 3);
    assert_eq!(caught_up[0].size, 97);
    assert_eq!(caught_up[2].size, 99);
}

#[test]
fn ingested_batch_is_published_record_by_record() {
    let mut bus = Bus::new(100);
    let mut sub = bus.subscribe();
    let batch = vec![rec(1), rec(2), rec(3)];
    bus.publish_batch(&batch);
    let got = bus.drain(&mut sub);
    assert_eq!(got, batch);
}

#[test]
fn drain_on_a_quiet_bus_is_empty() {
    let bus = Bus::new(4);
    let mut sub = bus.subscribe();
    let got = bus.drain(&mut sub);
    assert!(got.is_empty());
}
