use crate::codec::{encode, frame_of, Message, MessageModel};
use vstd::prelude::*;

verus! {

/// Seconds between liveness frames.
pub const PING_INTERVAL_SECS: u64 = 5;

/// Which of the two timers fired first in one turn of the keepalive loop.
#[derive(Debug, Clone, Copy, PartialEq, Eq, Structural)]
pub enum Timer {
    /// The send period elapsed.
    Interval,
    /// The longer deadman period elapsed first; the turn only re-checks the running flag.
    Deadman,
}

/// One turn of the keepalive loop, as the loop sees it.
#[derive(Debug, Clone, Copy, PartialEq, Eq, Structural)]
pub struct Tick {
    /// The connection's running flag, read at the top of the turn.
    pub running: bool,
    pub fired: Timer,
    /// Seconds since the Unix epoch.
    pub now: u64,
}

/// What the loop does in one turn.
#[derive(Debug, Clone, PartialEq, Eq)]
pub enum KeepaliveAction {
    /// Enqueue this liveness frame on the outbound channel.
    Send(Vec<u8>),
    /// Send nothing this turn and go round again.
    Skip,
    /// The running flag is down: leave the loop.
    Stop,
}

/// The liveness message: the time, and placeholder statistics.
pub open spec fn ping_at(now: u64) -> MessageModel {
    MessageModel::Ping {
        timestamp: now,
        good: 0,
        late: 0,
        lost: 999,
        resync: 0,
        tcp_packets: 1,
        udp_packets: 1,
    }
}

/// The frame of the liveness message for a time.
pub fn liveness_frame(now: u64) -> (r: Vec<u8>)
    ensures
        r@ == frame_of(ping_at(now)),
{
    let m = Message::Ping {
        timestamp: now,
        good: 0,
        late: 0,
        lost: 999,
        resync: 0,
        tcp_packets: 1,
        udp_packets: 1,
    };
    proof {
        vstd::bytes::lemma_auto_spec_u32_to_from_le_bytes();
        vstd::bytes::lemma_auto_spec_u64_to_from_le_bytes();
    }
    encode(&m)
}

/// Decides one turn: stop once the flag is down, send when the interval fired, else skip.
pub fn keepalive_step(tick: Tick) -> (r: KeepaliveAction)
    ensures
        !tick.running ==> r == KeepaliveAction::Stop,
        tick.running && tick.fired == Timer::Deadman ==> r == KeepaliveAction::Skip,
        tick.running && tick.fired == Timer::Interval ==> (r matches KeepaliveAction::Send(f)
            && f@ == frame_of(ping_at(tick.now))),
{
    if !tick.running {
        KeepaliveAction::Stop
    } else {
        match tick.fired {
            Timer::Deadman => KeepaliveAction::Skip,
            Timer::Interval => KeepaliveAction::Send(liveness_frame(tick.now)),
        }
    }
}

/// The frames that a run of turns enqueues: one per interval turn, until the first turn
/// that finds the flag down.
pub open spec fn frames_sent(ticks: Seq<Tick>) -> Seq<Seq<u8>>
    decreases ticks.len(),
{
    if ticks.len() == 0 || !ticks[0].running {
        Seq::empty()
    } else if ticks[0].fired == Timer::Interval {
        seq![frame_of(ping_at(ticks[0].now))] + frames_sent(ticks.skip(1))
    } else {
        frames_sent(ticks.skip(1))
    }
}

pub open spec fn interval_count(ticks: Seq<Tick>) -> nat
    decreases ticks.len(),
{
    if ticks.len() == 0 {
        0
    } else {
        (if ticks[0].fired == Timer::Interval {
            1nat
        } else {
            0nat
        }) + interval_count(ticks.skip(1))
    }
}

/// Runs the loop over a scripted sequence of turns, as a fake clock would drive it, and
/// returns the frames enqueued, in order.
pub fn run_keepalive(ticks: &Vec<Tick>) -> (sent: Vec<Vec<u8>>)
    ensures
        sent@.map_values(|f: Vec<u8>| f@) == frames_sent(ticks@),
{
    let mut sent: Vec<Vec<u8>> = Vec::new();
    let mut i: usize = 0;
    assert(ticks@.skip(0) =~= ticks@);
    assert(sent@.map_values(|f: Vec<u8>| f@) + frames_sent(ticks@) =~= frames_sent(ticks@));
    while i < ticks.len()
        invariant
            i <= ticks@.len(),
            sent@.map_values(|f: Vec<u8>| f@) + frames_sent(ticks@.skip(i as int))
                == frames_sent(ticks@),
        decreases ticks@.len() - i,
    {
        let t = ticks[i];
        let ghost rest = ticks@.skip(i as int);
        assert(rest.skip(1) =~= ticks@.skip(i + 1));
        match keepalive_step(t) {
            KeepaliveAction::Stop => {
                assert(sent@.map_values(|f: Vec<u8>| f@) + Seq::empty() =~= sent@.map_values(
                    |f: Vec<u8>| f@,
                ));
                return sent;
            },
            KeepaliveAction::Skip => {},
            KeepaliveAction::Send(f) => {
                let ghost before = sent@.map_values(|f: Vec<u8>| f@);
                sent.push(f);
                assert(sent@.map_values(|f: Vec<u8>| f@) =~= before.push(
                    frame_of(ping_at(t.now)),
                ));
                assert(before + frames_sent(rest) =~= sent@.map_values(|f: Vec<u8>| f@)
                    + frames_sent(ticks@.skip(i + 1)));
            },
        }
        i = i + 1;
    }
    assert(ticks@.skip(i as int).len() == 0);
    assert(sent@.map_values(|f: Vec<u8>| f@) + Seq::empty() =~= sent@.map_values(
        |f: Vec<u8>| f@,
    ));
    sent
}

/// While the flag stays up, exactly one frame goes out per interval turn: deadman turns
/// send nothing, and nothing else sends.
pub proof fn lemma_one_frame_per_interval(ticks: Seq<Tick>)
    requires
        forall|i: int| 0 <= i < ticks.len() ==> #[trigger] ticks[i].running,
    ensures
        frames_sent(ticks).len() == interval_count(ticks),
    decreases ticks.len(),
{
    if ticks.len() > 0 {
        assert(ticks[0].running);
        let rest = ticks.skip(1);
        assert forall|i: int| 0 <= i < rest.len() implies #[trigger] rest[i].running by {
            assert(ticks[i + 1].running);
        }
        lemma_one_frame_per_interval(rest);
    }
}

} // verus!
