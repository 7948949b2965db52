//! Whole checks: what the machine of a check does from its start to its end
//! when it is driven as it asks to be, against a network whose answers are
//! known beforehand.

use crate::checker::{
    detect_model, login_model, CheckOutcomeView, CheckStatusView, CheckerView, LoginStatus, Reply,
};
use crate::cycle::{step_model, ActionView, Cycle, Event, Phase};
use crate::response::Response;
use vstd::prelude::*;

verus! {

/// What the network has in store for one attempt: what comes of the probe,
/// and what comes of the login if the attempt gets that far.
pub struct Exchange {
    pub probe: Result<Response, String>,
    pub login: Result<u16, String>,
}

/// How an attempt ends against the given answers.
pub open spec fn attempt_outcome(exchange: Exchange) -> CheckOutcomeView {
    match detect_model(exchange.probe) {
        Ok(CheckStatusView::Success) => CheckOutcomeView::NoAuthRequired,
        Ok(CheckStatusView::RedirectError) => CheckOutcomeView::RedirectedWithoutLocation,
        Ok(CheckStatusView::Redirect(_)) => match login_model(exchange.login) {
            Ok(LoginStatus::Success) => CheckOutcomeView::RedirectedAndLoggedIn,
            Ok(LoginStatus::Failed) => CheckOutcomeView::RedirectedButLoginFailed,
            Err(failure) => CheckOutcomeView::TransportError(failure),
        },
        Err(failure) => CheckOutcomeView::TransportError(failure),
    }
}

/// Whether an attempt fails against the given answers.
pub open spec fn fails(exchange: Exchange) -> bool {
    attempt_outcome(exchange) is TransportError
}

/// What the driver tells the machine once it has done what was asked for.
pub open spec fn answer(action: ActionView, exchange: Exchange) -> Event {
    match action {
        ActionView::Post { .. } => Event::Reply(Reply::Login(exchange.login)),
        ActionView::Sleep { .. } => Event::Woke,
        _ => Event::Reply(Reply::Detect(exchange.probe)),
    }
}

/// What a check did, seen from outside.
pub struct Tally {
    /// How many probes went out, which is the number of attempts.
    pub attempts: nat,
    /// The waits between attempts, each with its seconds, in their order.
    pub sleeps: Seq<u64>,
    /// Whether the check ended with an answer.
    pub success: bool,
}

/// A bound on the steps that a check can still take.
pub open spec fn remaining(cfg: CheckerView, cycle: Cycle) -> nat {
    let left: int = if cycle.attempts < cfg.error_retry {
        cfg.error_retry - cycle.attempts
    } else {
        0
    };
    match cycle.phase {
        Phase::Idle => (3 * cfg.error_retry + 3) as nat,
        Phase::Detecting => (3 * left + 2) as nat,
        Phase::LoggingIn => (3 * left + 1) as nat,
        Phase::Waiting => (3 * left) as nat,
        _ => 0,
    }
}

/// What a check does from state `cycle` and `event` on, when each action is
/// carried out and answered from `net`, whose entry at position `i` holds
/// what the network answers during attempt `i + 1`.
pub open spec fn drive(cfg: CheckerView, cycle: Cycle, event: Event, net: Seq<Exchange>) -> Tally
    decreases remaining(cfg, cycle),
{
    let step = step_model(cfg, cycle, event);
    match step.action {
        ActionView::Finish { success } => Tally { attempts: 0, sleeps: seq![], success },
        ActionView::Pending => Tally { attempts: 0, sleeps: seq![], success: false },
        action => {
            let rest = drive(
                cfg,
                step.cycle,
                answer(action, net[step.cycle.attempts - 1]),
                net,
            );
            match action {
                ActionView::Get { .. } => Tally { attempts: rest.attempts + 1, ..rest },
                ActionView::Sleep { secs } => Tally { sleeps: seq![secs] + rest.sleeps, ..rest },
                _ => rest,
            }
        },
    }
}

/// A whole check, from its start.
pub open spec fn check_model(cfg: CheckerView, net: Seq<Exchange>) -> Tally {
    drive(cfg, Cycle { phase: Phase::Idle, attempts: 0 }, Event::Start, net)
}

/// `count` waits of `secs` seconds each.
pub open spec fn waits(count: nat, secs: u64) -> Seq<u64> {
    Seq::new(count, |i: int| secs)
}

/// The tally of a check that ends on the spot.
pub open spec fn ended(success: bool) -> Tally {
    Tally { attempts: 0, sleeps: seq![], success }
}

/// What follows once the probe of attempt `made` is answered: an attempt
/// that gets an answer ends the check, and one that fails is followed by a
/// wait if another attempt is allowed.
proof fn lemma_attempt(cfg: CheckerView, made: usize, net: Seq<Exchange>)
    requires
        1 <= made,
    ensures
        drive(
            cfg,
            Cycle { phase: Phase::Detecting, attempts: made },
            Event::Reply(Reply::Detect(net[made - 1].probe)),
            net,
        ) == if !fails(net[made - 1]) {
            ended(true)
        } else if made < cfg.error_retry {
            let rest = drive(cfg, Cycle { phase: Phase::Waiting, attempts: made }, Event::Woke, net);
            Tally { sleeps: seq![cfg.error_interval] + rest.sleeps, ..rest }
        } else {
            ended(false)
        },
{
    reveal_with_fuel(drive, 3);
}

/// What follows once the wait after attempt `made` is over: the next
/// attempt is made, and then either the check ends or the wait after that
/// attempt begins.
proof fn lemma_next_attempt(cfg: CheckerView, made: usize, net: Seq<Exchange>)
    requires
        made < cfg.error_retry,
    ensures
        drive(cfg, Cycle { phase: Phase::Waiting, attempts: made }, Event::Woke, net) == if !fails(
            net[made as int],
        ) {
            Tally { attempts: 1, sleeps: seq![], success: true }
        } else if made + 1 < cfg.error_retry {
            let after = drive(
                cfg,
                Cycle { phase: Phase::Waiting, attempts: (made + 1) as usize },
                Event::Woke,
                net,
            );
            Tally {
                attempts: after.attempts + 1,
                sleeps: seq![cfg.error_interval] + after.sleeps,
                success: after.success,
            }
        } else {
            Tally { attempts: 1, sleeps: seq![], success: false }
        },
{
    let next = (made + 1) as usize;
    let rest = drive(
        cfg,
        Cycle { phase: Phase::Detecting, attempts: next },
        Event::Reply(Reply::Detect(net[made as int].probe)),
        net,
    );
    assert(drive(cfg, Cycle { phase: Phase::Waiting, attempts: made }, Event::Woke, net) == Tally {
        attempts: rest.attempts + 1,
        ..rest
    }) by {
        reveal_with_fuel(drive, 2);
    }
    lemma_attempt(cfg, next, net);
}

/// What follows once the wait after attempt `made` is over, as far as the
/// network's answers are known to fail.
proof fn lemma_retries(cfg: CheckerView, made: usize, upto: usize, net: Seq<Exchange>)
    requires
        made <= upto <= cfg.error_retry,
        made < cfg.error_retry,
        forall|i: int| made <= i < upto ==> fails(#[trigger] net[i]),
        upto < cfg.error_retry ==> !fails(net[upto as int]),
    ensures
        drive(cfg, Cycle { phase: Phase::Waiting, attempts: made }, Event::Woke, net) == if upto
            < cfg.error_retry {
            Tally {
                attempts: (upto + 1 - made) as nat,
                sleeps: waits((upto - made) as nat, cfg.error_interval),
                success: true,
            }
        } else {
            Tally {
                attempts: (upto - made) as nat,
                sleeps: waits((upto - made - 1) as nat, cfg.error_interval),
                success: false,
            }
        },
    decreases cfg.error_retry - made,
{
    let whole = drive(cfg, Cycle { phase: Phase::Waiting, attempts: made }, Event::Woke, net);
    lemma_next_attempt(cfg, made, net);
    if made < upto && made + 1 < cfg.error_retry {
        lemma_retries(cfg, (made + 1) as usize, upto, net);
        if upto < cfg.error_retry {
            assert(whole.sleeps =~= waits((upto - made) as nat, cfg.error_interval));
        } else {
            assert(whole.sleeps =~= waits((upto - made - 1) as nat, cfg.error_interval));
        }
    } else {
        assert(whole.sleeps =~= waits(0, cfg.error_interval));
    }
}

/// A check begins as the wait before a first attempt ends.
proof fn lemma_start(cfg: CheckerView, net: Seq<Exchange>)
    ensures
        check_model(cfg, net) == drive(
            cfg,
            Cycle { phase: Phase::Waiting, attempts: 0 },
            Event::Woke,
            net,
        ),
{
    reveal_with_fuel(drive, 2);
}

/// A check whose every attempt fails makes exactly as many attempts as the
/// checker allows, waits the checker's interval between each two of them,
/// which is one wait less than there are attempts, and ends without an
/// answer.
pub proof fn lemma_every_attempt_fails(cfg: CheckerView, net: Seq<Exchange>)
    requires
        1 <= cfg.error_retry <= net.len(),
        forall|i: int| 0 <= i < cfg.error_retry ==> fails(#[trigger] net[i]),
    ensures
        check_model(cfg, net) == (Tally {
            attempts: cfg.error_retry as nat,
            sleeps: waits((cfg.error_retry - 1) as nat, cfg.error_interval),
            success: false,
        }),
{
    lemma_start(cfg, net);
    lemma_retries(cfg, 0, cfg.error_retry, net);
}

/// A check ends with the first attempt that gets an answer: if the attempts
/// before attempt `failed + 1` fail and that one does not, the check makes
/// `failed + 1` attempts, waits the checker's interval after each of the
/// failed ones, and ends with an answer.
pub proof fn lemma_first_answer_ends_check(cfg: CheckerView, failed: usize, net: Seq<Exchange>)
    requires
        failed < cfg.error_retry,
        failed < net.len(),
        forall|i: int| 0 <= i < failed ==> fails(#[trigger] net[i]),
        !fails(net[failed as int]),
    ensures
        check_model(cfg, net) == (Tally {
            attempts: (failed + 1) as nat,
            sleeps: waits(failed as nat, cfg.error_interval),
            success: true,
        }),
{
    lemma_start(cfg, net);
    lemma_retries(cfg, 0, failed, net);
}

/// What follows once the wait after attempt `made` is over, whatever the
/// network answers.
proof fn lemma_retries_bounded(cfg: CheckerView, made: usize, net: Seq<Exchange>)
    requires
        made < cfg.error_retry,
    ensures
        ({
            let tally = drive(
                cfg,
                Cycle { phase: Phase::Waiting, attempts: made },
                Event::Woke,
                net,
            );
            &&& 1 <= tally.attempts <= cfg.error_retry - made
            &&& tally.sleeps == waits((tally.attempts - 1) as nat, cfg.error_interval)
            &&& !tally.success ==> tally.attempts == cfg.error_retry - made
        }),
    decreases cfg.error_retry - made,
{
    let whole = drive(cfg, Cycle { phase: Phase::Waiting, attempts: made }, Event::Woke, net);
    lemma_next_attempt(cfg, made, net);
    if fails(net[made as int]) && made + 1 < cfg.error_retry {
        lemma_retries_bounded(cfg, (made + 1) as usize, net);
    }
    assert(whole.sleeps =~= waits((whole.attempts - 1) as nat, cfg.error_interval));
}

/// Whatever the network answers, a check makes at least one attempt and no
/// more than the checker allows, waits the checker's interval between each
/// two of them and at no other time, and ends without an answer only after
/// the last attempt that the checker allows.
pub proof fn lemma_attempts_are_bounded(cfg: CheckerView, net: Seq<Exchange>)
    requires
        1 <= cfg.error_retry,
    ensures
        1 <= check_model(cfg, net).attempts <= cfg.error_retry,
        check_model(cfg, net).sleeps == waits(
            (check_model(cfg, net).attempts - 1) as nat,
            cfg.error_interval,
        ),
        !check_model(cfg, net).success ==> check_model(cfg, net).attempts == cfg.error_retry,
{
    lemma_start(cfg, net);
    lemma_retries_bounded(cfg, 0, net);
}

/// A checker that allows no attempt ends every check at once, without an
/// answer and without a probe.
pub proof fn lemma_no_attempt_allowed(cfg: CheckerView, net: Seq<Exchange>)
    requires
        cfg.error_retry == 0,
    ensures
        check_model(cfg, net) == ended(false),
{
    reveal_with_fuel(drive, 2);
}

} // verus!
