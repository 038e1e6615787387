//! The keep-alive schedule of a session: every ten seconds a burst of three
//! ping attempts, paced one second apart, for the life of the session.

use vstd::prelude::*;

verus! {

/// Milliseconds between the starts of two ping bursts.
pub const PERIOD_MS: u64 = 10_000;

/// Ping attempts per burst.
pub const ATTEMPTS_PER_BURST: u64 = 3;

/// Milliseconds between two attempts of the same burst.
pub const PACING_MS: u64 = 1_000;

/// The instant, in milliseconds from session start, of ping attempt `k`:
/// attempt `k` is attempt `k % 3` of burst `k / 3`.
pub open spec fn ping_time(k: int) -> int {
    (k / 3) * 10_000 + (k % 3) * 1_000
}

/// The wait, in milliseconds, between ping attempt `k` and attempt `k + 1`:
/// one second inside a burst, the rest of the period after a burst.
pub fn ping_delay_after(k: u64) -> (r: u64)
    requires
        k < 0xffff_ffff,
    ensures
        r == ping_time(k as int + 1) - ping_time(k as int),
{
    if k % 3 == 2 {
        8_000
    } else {
        1_000
    }
}

/// The instants of every ping attempt of the first `bursts` bursts, in
/// order: three attempts per burst, one second apart, bursts starting ten
/// seconds apart.
pub fn heartbeat_plan(bursts: u32) -> (r: Vec<u64>)
    ensures
        r@.len() == 3 * bursts,
        forall|k: int| 0 <= k < 3 * bursts ==> r@[k] == ping_time(k),
{
    let mut v: Vec<u64> = Vec::new();
    let mut i: u32 = 0;
    while i < bursts
        invariant
            i <= bursts,
            v@.len() == 3 * i,
            forall|k: int| 0 <= k < 3 * i ==> v@[k] == ping_time(k),
        decreases bursts - i,
    {
        let base: u64 = (i as u64) * 10_000;
        let mut j: u32 = 0;
        while j < 3
            invariant
                i < bursts,
                j <= 3,
                base == (i as u64) * 10_000,
                v@.len() == 3 * i + j,
                forall|k: int| 0 <= k < 3 * i + j ==> v@[k] == ping_time(k),
            decreases 3 - j,
        {
            let t: u64 = base + (j as u64) * 1_000;
            proof {
                let k = 3 * (i as int) + (j as int);
                assert(k / 3 == i as int && k % 3 == j as int) by (nonlinear_arith)
                    requires
                        0 <= i as int,
                        0 <= (j as int) < 3,
                        k == 3 * (i as int) + (j as int),
                ;
                assert(t == ping_time(k));
            }
            v.push(t);
            j = j + 1;
        }
        i = i + 1;
    }
    v
}

/// The keep-alive law: ping attempts never stop and keep their spacing.
/// Attempt instants are strictly increasing; inside a burst consecutive
/// attempts are exactly one second apart; burst `b` starts exactly
/// `10 b` seconds in; and any session open at least 30 seconds has seen at
/// least the nine attempts of the first three bursts, all before the
/// 30-second mark.
pub proof fn lemma_heartbeat_keepalive()
    ensures
        forall|k: int| 0 <= k ==> #[trigger] ping_time(k) < ping_time(k + 1),
        forall|k: int| 0 <= k && k % 3 != 2 ==> #[trigger] ping_time(k + 1) == ping_time(k)
            + 1_000,
        forall|b: int| 0 <= b ==> #[trigger] ping_time(3 * b) == 10_000 * b,
        forall|k: int| 0 <= k < 9 ==> #[trigger] ping_time(k) < 30_000,
{
    assert forall|k: int| 0 <= k implies #[trigger] ping_time(k) < ping_time(k + 1) by {
        lemma_ping_time_step(k);
    }
    assert forall|k: int| 0 <= k && k % 3 != 2 implies #[trigger] ping_time(k + 1) == ping_time(
        k,
    ) + 1_000 by {
        lemma_ping_time_step(k);
    }
    assert forall|b: int| 0 <= b implies #[trigger] ping_time(3 * b) == 10_000 * b by {
        assert((3 * b) / 3 == b && (3 * b) % 3 == 0) by (nonlinear_arith)
            requires
                0 <= b,
        ;
    }
    assert forall|k: int| 0 <= k < 9 implies #[trigger] ping_time(k) < 30_000 by {
        assert(k / 3 <= 2 && k % 3 <= 2) by (nonlinear_arith)
            requires
                0 <= k < 9,
        ;
        assert(ping_time(k) <= 2 * 10_000 + 2 * 1_000);
    }
}

/// How the schedule advances from attempt `k` to attempt `k + 1`.
proof fn lemma_ping_time_step(k: int)
    requires
        0 <= k,
    ensures
        k % 3 != 2 ==> ping_time(k + 1) == ping_time(k) + 1_000,
        k % 3 == 2 ==> ping_time(k + 1) == ping_time(k) + 8_000,
        ping_time(k) < ping_time(k + 1),
{
    assert((k + 1) / 3 == (if k % 3 == 2 {
        k / 3 + 1
    } else {
        k / 3
    }) && (k + 1) % 3 == (if k % 3 == 2 {
        0int
    } else {
        k % 3 + 1
    })) by (nonlinear_arith)
        requires
            0 <= k,
    ;
}

} // verus!
