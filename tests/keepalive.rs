use fancy_mumble::codec::{decode, Message};
use fancy_mumble::keepalive::{
    keepalive_step, liveness_frame, run_keepalive, KeepaliveAction, Tick, Timer, PING_INTERVAL_SECS,
};

#[test]
fn liveness_frame_carries_the_time() {
    let f = liveness_frame(1234);
    assert_eq!(
        decode(&f),
        Ok(Message::Ping {
            timestamp: 1234,
            good: 0,
            late: 0,
            lost: 999,
            resync: 0,
            tcp_packets: 1,
            udp_packets: 1,
        })
    );
}

#[test]
fn step_decisions() {
    let up = Tick { running: true, fired: Timer::Interval, now: 10 };
    assert_eq!(keepalive_step(up), KeepaliveAction::Send(liveness_frame(10)));
    assert_eq!(keepalive_step(Tick { fired: Timer::Deadman, ..up }), KeepaliveAction::Skip);
    assert_eq!(keepalive_step(Tick { running: false, ..up }), KeepaliveAction::Stop);
    assert_eq!(
        keepalive_step(Tick { running: false, fired: Timer::Deadman, now: 10 }),
        KeepaliveAction::Stop
    );
}

#[test]
fn one_frame_per_period_on_a_fake_clock() {
    let n: u64 = 6;
    let mut ticks = Vec::new();
    for p in 1..=n {
        ticks.push(Tick { running: true, fired: Timer::Interval, now: p * PING_INTERVAL_SECS });
    }
    let sent = run_keepalive(&ticks);
    assert_eq!(sent.len(), n as usize);
    for (i, f) in sent.iter().enumerate() {
        assert_eq!(*f, liveness_frame((i as u64 + 1) * PING_INTERVAL_SECS));
    }
}

#[test]
fn deadman_turns_send_nothing() {
    let ticks = vec![
        Tick { running: true, fired: Timer::Deadman, now: 1 },
        Tick { running: true, fired: Timer::Interval, now: 5 },
        Tick { running: true, fired: Timer::Deadman, now: 7 },
        Tick { running: true, fired: Timer::Interval, now: 10 },
    ];
    assert_eq!(run_keepalive(&ticks), vec![liveness_frame(5), liveness_frame(10)]);
}

#[test]
fn loop_ends_when_flag_drops() {
    let ticks = vec![
        Tick { running: true, fired: Timer::Interval, now: 5 },
        Tick { running: false, fired: Timer::Interval, now: 10 },
        Tick { running: true, fired: Timer::Interval, now: 15 },
    ];
    assert_eq!(run_keepalive(&ticks), vec![liveness_frame(5)]);
    assert!(run_keepalive(&Vec::new()).is_empty());
}
