//! The latching circuit breaker that halts trading.
use vstd::prelude::*;
use crate::text::{decimal_text, digit_char, push_decimal, push_digit, push_two_digits};

verus! {

/// Why trading was halted. `DailyLoss` is in micro-dollars, `Drawdown` and
/// `FillRate` in parts per million, `Latency` in milliseconds.
#[derive(Debug, Clone, Copy, PartialEq, Eq, Structural)]
pub enum CircuitBreakerReason {
    DailyLoss(i64),
    Drawdown(u64),
    FillRate(u64),
    Latency(u64),
    ApiErrors(usize),
    LeggedPositionStuck,
    RpcFailure,
}

/// Latch state: armed, or tripped for a reason at an instant (milliseconds
/// since the epoch).
#[derive(Debug, Clone, Copy, PartialEq, Eq, Structural)]
pub enum BreakerState {
    Armed,
    Tripped { reason: CircuitBreakerReason, since: i64 },
}

/// Text of an amount of micro-dollars in dollars with two decimals (cents
/// truncated), with a leading minus sign when negative.
pub open spec fn money_text(micros: int) -> Seq<char> {
    let a = if micros < 0 { -micros } else { micros };
    let sign = if micros < 0 { seq!['-'] } else { Seq::empty() };
    let cents = (a % 1_000_000) / 10_000;
    sign + decimal_text((a / 1_000_000) as nat) + seq!['.', digit_char(cents / 10), digit_char(cents % 10)]
}

/// Text of a parts-per-million fraction as a percentage with one decimal
/// (truncated).
pub open spec fn percent_text(ppm: nat) -> Seq<char> {
    decimal_text(ppm / 10_000) + seq!['.', digit_char(((ppm / 1_000) % 10) as int)]
}

/// The label that the ledger records for a reason.
pub open spec fn reason_text(reason: CircuitBreakerReason) -> Seq<char> {
    match reason {
        CircuitBreakerReason::DailyLoss(l) => "DailyLoss($"@ + money_text(l as int) + ")"@,
        CircuitBreakerReason::Drawdown(d) => "Drawdown("@ + percent_text(d as nat) + "%)"@,
        CircuitBreakerReason::FillRate(f) => "FillRate("@ + percent_text(f as nat) + "%)"@,
        CircuitBreakerReason::Latency(ms) => "Latency("@ + decimal_text(ms as nat) + "ms)"@,
        CircuitBreakerReason::ApiErrors(n) => "ApiErrors("@ + decimal_text(n as nat) + ")"@,
        CircuitBreakerReason::LeggedPositionStuck => "LeggedPositionStuck"@,
        CircuitBreakerReason::RpcFailure => "RpcFailure"@,
    }
}

fn push_money(s: &mut String, micros: i64)
    ensures
        final(s)@ == old(s)@ + money_text(micros as int),
{
    let a: u64 = if micros < 0 { (-(micros as i128)) as u64 } else { micros as u64 };
    if micros < 0 {
        proof { reveal_strlit("-"); }
        s.append("-");
    }
    let ghost mid = s@;
    push_decimal(s, a / 1_000_000);
    proof { reveal_strlit("."); }
    s.append(".");
    push_two_digits(s, (a % 1_000_000) / 10_000);
    assert(final(s)@ =~= old(s)@ + money_text(micros as int));
}

fn push_percent(s: &mut String, ppm: u64)
    ensures
        final(s)@ == old(s)@ + percent_text(ppm as nat),
{
    push_decimal(s, ppm / 10_000);
    proof { reveal_strlit("."); }
    s.append(".");
    push_digit(s, (ppm / 1_000) % 10);
    assert(final(s)@ =~= old(s)@ + percent_text(ppm as nat));
}

impl CircuitBreakerReason {
    /// Human-readable label, as recorded in the ledger.
    pub fn to_text(&self) -> (r: String)
        ensures
            r@ == reason_text(*self),
    {
        match *self {
            CircuitBreakerReason::DailyLoss(l) => {
                let mut s = String::from_str("DailyLoss($");
                push_money(&mut s, l);
                s.append(")");
                s
            },
            CircuitBreakerReason::Drawdown(d) => {
                let mut s = String::from_str("Drawdown(");
                push_percent(&mut s, d);
                s.append("%)");
                s
            },
            CircuitBreakerReason::FillRate(f) => {
                let mut s = String::from_str("FillRate(");
                push_percent(&mut s, f);
                s.append("%)");
                s
            },
            CircuitBreakerReason::Latency(ms) => {
                let mut s = String::from_str("Latency(");
                push_decimal(&mut s, ms);
                s.append("ms)");
                s
            },
            CircuitBreakerReason::ApiErrors(n) => {
                let mut s = String::from_str("ApiErrors(");
                push_decimal(&mut s, n as u64);
                s.append(")");
                s
            },
            CircuitBreakerReason::LeggedPositionStuck => String::from_str("LeggedPositionStuck"),
            CircuitBreakerReason::RpcFailure => String::from_str("RpcFailure"),
        }
    }
}

/// Milliseconds in 24 hours: the wait after a daily-loss trip.
pub const DAILY_LOSS_WAIT_MS: i64 = 86_400_000;
/// Milliseconds in one hour: the cooldown after any other automatic trip.
pub const COOLDOWN_MS: i64 = 3_600_000;

/// Arming a tripped breaker again is a no-op; an armed one trips.
pub open spec fn trigger_spec(s: BreakerState, reason: CircuitBreakerReason, now: i64) -> BreakerState {
    match s {
        BreakerState::Armed => BreakerState::Tripped { reason, since: now },
        BreakerState::Tripped { .. } => s,
    }
}

/// Time since the trip, taken as zero when the clock reads earlier.
pub open spec fn elapsed_ms(since: int, now: int) -> int {
    if now > since { now - since } else { 0 }
}

/// Whole minutes of cooldown left, counted from whole elapsed seconds.
pub open spec fn cooldown_minutes(elapsed: int) -> int {
    (3600 - elapsed / 1000) / 60
}

/// Whether a reset is allowed: `Ok` with a message when it is, `Err` with
/// what still stands in the way otherwise.
pub open spec fn reset_verdict(s: BreakerState, now: i64, primary_healthy: bool, secondary_healthy: bool) -> Result<Seq<char>, Seq<char>> {
    match s {
        BreakerState::Armed => Ok("Circuit breaker not triggered"@),
        BreakerState::Tripped { reason, since } => {
            let e = elapsed_ms(since as int, now as int);
            match reason {
                CircuitBreakerReason::DailyLoss(_) => if e < DAILY_LOSS_WAIT_MS {
                    Err("Must wait 24h before reset"@)
                } else {
                    Ok("Manual review required"@)
                },
                CircuitBreakerReason::LeggedPositionStuck => Err("Manual confirmation required: Position closed via UI?"@),
                CircuitBreakerReason::RpcFailure => if primary_healthy && secondary_healthy {
                    Ok("Both RPC endpoints healthy"@)
                } else {
                    Err("Test both RPCs, require both healthy"@)
                },
                _ => if e < COOLDOWN_MS {
                    Err("Cooldown: "@ + decimal_text(cooldown_minutes(e) as nat) + " minutes remaining"@)
                } else {
                    Ok("Can reset"@)
                },
            }
        },
    }
}

/// Halts all new trades once tripped, until explicitly reset.
#[derive(Debug)]
pub struct CircuitBreaker {
    state: BreakerState,
}

impl View for CircuitBreaker {
    type V = BreakerState;

    closed spec fn view(&self) -> BreakerState {
        self.state
    }
}

impl CircuitBreaker {
    pub fn new() -> (r: Self)
        ensures
            r@ == BreakerState::Armed,
    {
        CircuitBreaker { state: BreakerState::Armed }
    }

    pub fn is_triggered(&self) -> (r: bool)
        ensures
            r == (self@ is Tripped),
    {
        match self.state {
            BreakerState::Armed => false,
            BreakerState::Tripped { .. } => true,
        }
    }

    /// The reason of the current trip, if tripped.
    pub fn reason(&self) -> (r: Option<CircuitBreakerReason>)
        ensures
            r == (match self@ {
                BreakerState::Armed => None,
                BreakerState::Tripped { reason, .. } => Some(reason),
            }),
    {
        match self.state {
            BreakerState::Armed => None,
            BreakerState::Tripped { reason, .. } => Some(reason),
        }
    }

    /// Trip the breaker at instant `now`. Returns the label to append to the
    /// ledger's event log when this call tripped it, and `None` when it was
    /// already tripped (the earlier reason and instant stay).
    pub fn trigger(&mut self, reason: CircuitBreakerReason, now: i64) -> (r: Option<String>)
        ensures
            final(self)@ == trigger_spec(old(self)@, reason, now),
            r is Some <==> old(self)@ is Armed,
            r is Some ==> r->0@ == reason_text(reason),
    {
        match self.state {
            BreakerState::Tripped { .. } => None,
            BreakerState::Armed => {
                self.state = BreakerState::Tripped { reason, since: now };
                Some(reason.to_text())
            },
        }
    }

    /// Whether the breaker may be reset at instant `now`. A daily-loss trip
    /// waits 24 hours and then asks for review; a stuck legged position always
    /// needs manual confirmation; an RPC failure is cleared once both
    /// endpoints report healthy; any other reason cools down for an hour.
    pub fn can_reset(&self, now: i64, primary_healthy: bool, secondary_healthy: bool) -> (r: Result<String, String>)
        ensures
            r is Ok <==> reset_verdict(self@, now, primary_healthy, secondary_healthy) is Ok,
            r is Ok ==> r->Ok_0@ == reset_verdict(self@, now, primary_healthy, secondary_healthy)->Ok_0,
            r is Err ==> r->Err_0@ == reset_verdict(self@, now, primary_healthy, secondary_healthy)->Err_0,
    {
        match self.state {
            BreakerState::Armed => Ok(String::from_str("Circuit breaker not triggered")),
            BreakerState::Tripped { reason, since } => {
                let elapsed: i64 = if now > since {
                    proof {
                        assert(now as int - since as int <= i64::MAX as int - i64::MIN as int);
                    }
                    if (now as i128) - (since as i128) > (i64::MAX as i128) {
                        i64::MAX
                    } else {
                        now - since
                    }
                } else {
                    0
                };
                match reason {
                    CircuitBreakerReason::DailyLoss(_) => {
                        if (now as i128) - (since as i128) < (DAILY_LOSS_WAIT_MS as i128) || now <= since {
                            Err(String::from_str("Must wait 24h before reset"))
                        } else {
                            Ok(String::from_str("Manual review required"))
                        }
                    },
                    CircuitBreakerReason::LeggedPositionStuck => {
                        Err(String::from_str("Manual confirmation required: Position closed via UI?"))
                    },
                    CircuitBreakerReason::RpcFailure => {
                        if primary_healthy && secondary_healthy {
                            Ok(String::from_str("Both RPC endpoints healthy"))
                        } else {
                            Err(String::from_str("Test both RPCs, require both healthy"))
                        }
                    },
                    _ => {
                        if elapsed < COOLDOWN_MS {
                            let mut s = String::from_str("Cooldown: ");
                            push_decimal(&mut s, ((3600 - elapsed / 1000) / 60) as u64);
                            s.append(" minutes remaining");
                            Err(s)
                        } else {
                            Ok(String::from_str("Can reset"))
                        }
                    },
                }
            },
        }
    }

    /// Re-arm the breaker, clearing reason and trip instant.
    pub fn reset(&mut self)
        ensures
            final(self)@ == BreakerState::Armed,
    {
        self.state = BreakerState::Armed;
    }
}

impl Default for CircuitBreaker {
    fn default() -> (r: Self)
        ensures
            r@ == BreakerState::Armed,
    {
        Self::new()
    }
}

/// An operation on the breaker's latch.
pub enum BreakerOp {
    Trigger(CircuitBreakerReason, i64),
    Reset,
}

/// The latch state after a sequence of operations, applied in order.
pub open spec fn apply_ops(s: BreakerState, ops: Seq<BreakerOp>) -> BreakerState
    decreases ops.len(),
{
    if ops.len() == 0 {
        s
    } else {
        let next = match ops[0] {
            BreakerOp::Trigger(reason, now) => trigger_spec(s, reason, now),
            BreakerOp::Reset => BreakerState::Armed,
        };
        apply_ops(next, ops.drop_first())
    }
}

/// Triggering is idempotent: a second trigger, for whatever reason and at
/// whatever instant, leaves the state of the first.
pub proof fn lemma_trigger_idempotent(
    s: BreakerState,
    r1: CircuitBreakerReason,
    t1: i64,
    r2: CircuitBreakerReason,
    t2: i64,
)
    ensures
        trigger_spec(trigger_spec(s, r1, t1), r2, t2) == trigger_spec(s, r1, t1),
{
}

/// Once triggered, the breaker stays tripped, with the same reason and
/// instant, through any operations that do not include a reset.
pub proof fn lemma_tripped_until_reset(
    s: BreakerState,
    reason: CircuitBreakerReason,
    now: i64,
    ops: Seq<BreakerOp>,
)
    requires
        forall|i: int| 0 <= i < ops.len() ==> !(ops[i] is Reset),
    ensures
        trigger_spec(s, reason, now) is Tripped,
        apply_ops(trigger_spec(s, reason, now), ops) == trigger_spec(s, reason, now),
    decreases ops.len(),
{
    if ops.len() > 0 {
        let t = trigger_spec(s, reason, now);
        assert(!(ops[0] is Reset));
        assert forall|i: int| 0 <= i < ops.drop_first().len() implies !(ops.drop_first()[i] is Reset) by {
            assert(ops.drop_first()[i] == ops[i + 1]);
        }
        match s {
            BreakerState::Armed => lemma_tripped_until_reset(t, reason, now, ops.drop_first()),
            BreakerState::Tripped { .. } => lemma_tripped_until_reset(s, reason, now, ops.drop_first()),
        }
    }
}

} // verus!
