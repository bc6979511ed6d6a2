use mikaboshi::batch::Batcher;
use mikaboshi::mock::MockSource;
use mikaboshi::record::{HostAddr, Proto, RawRecord};

fn rec(size: i32) -> RawRecord {
    RawRecord {
        src_ip: HostAddr::V4(0x7f00_0001),
        dst_ip: HostAddr::V4(0x0a00_0001),
        src_is_agent: true,
        dst_is_agent: false,
        size,
        proto: Proto::Tcp,
        src_port: 0,
        dst_port: 0,
    }
}

#[test]
fn size_trigger_flushes_exactly_at_threshold() {
    let mut b = Batcher::new(3, 100, 0);
    assert!(b.push(rec(1), 1).is_none());
    assert!(b.push(rec(2), 2).is_none());
    let batch = b.push(rec(3), 3).unwrap();
    assert_eq!(batch.len(), 3);
    assert_eq!(batch[0].size, 1);
    assert_eq!(batch[1].size, 2);
    assert_eq!(batch[2].size, 3);
    assert!(b.push(rec(4), 4).is_none());
}

#[test]
fn empty_window_never_flushes() {
    let mut b = Batcher::new(10, 100, 0);
    assert!(b.tick(50).is_none());
    assert!(b.tick(100).is_none());
    assert!(b.tick(10_000).is_none());
}

#[test]
fn time_trigger_flushes_one_buffered_record() {
    let mut b = Batcher::new(10_000, 100, 0);
    assert!(b.push(rec(7), 5).is_none());
    assert!(b.tick(99).is_none());
    let batch = b.tick(100).unwrap();
    assert_eq!(batch.len(), 1);
    assert_eq!(batch[0].size, 7);
    assert!(b.tick(250).is_none());
}

#[test]
fn timer_restarts_after_a_flush() {
    let mut b = Batcher::new(10, 100, 0);
    assert!(b.push(rec(1), 10).is_none());
    assert!(b.tick(120).is_some());
    assert!(b.push(rec(2), 130).is_none());
    assert!(b.tick(219).is_none());
    let batch = b.tick(220).unwrap();
    assert_eq!(batch.len(), 1);
    assert_eq!(batch[0].size, 2);
}

#[test]
fn mock_records_always_pass_the_locality_filter() {
    let src = MockSource::new();
    for _ in 0..200 {
        let r = src.next();
        assert!(r.src_is_agent || r.dst_is_agent);
        assert!(r.src_is_agent != r.dst_is_agent);
        assert!(r.size >= 64 && r.size < 1000);
        assert_eq!(r.proto, Proto::Tcp);
        assert_eq!(r.src_port, 0);
        assert_eq!(r.dst_port, 0);
        let localhost = HostAddr::V4(0x7f00_0001);
        if r.src_is_agent {
            assert_eq!(r.src_ip, localhost);
            assert_ne!(r.dst_ip, localhost);
        } else {
            assert_eq!(r.dst_ip, localhost);
            assert_ne!(r.src_ip, localhost);
        }
    }
}

#[test]
fn mock_delays_stay_under_five_ms() {
    for _ in 0..100 {
        assert!(mikaboshi::mock::mock_delay_ms() < 5);
    }
}
