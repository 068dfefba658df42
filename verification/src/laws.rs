//! What holds of the protocol, whatever the requests and whatever tokens
//! chance hands out. Each law is stated over `step` and `is_step`, the terms
//! in which the server's functions state what they do.

use crate::registry::{
    any_match, first_match, is_first_match, lemma_first_match_ensures, lemma_first_match_is,
    lemma_first_match_none,
};
use crate::reply::{
    kill_count, rejected_reply, restore_count, triggered_reply, ActionView, Verdict,
};
use crate::response::{not_found_body, started_body, wire_of, Status};
use crate::server::{is_step, Rules, Step};
use crate::text::occurs_in;
use crate::token::{is_letter, is_token};
use vstd::prelude::*;

verus! {

/// `at` is the only position of `pending` whose token occurs in `text`.
pub open spec fn is_only_match(pending: Seq<Seq<char>>, text: Seq<char>, at: int) -> bool {
    &&& 0 <= at < pending.len()
    &&& occurs_in(pending[at], text)
    &&& forall|j: int| 0 <= j < pending.len() && j != at ==> !occurs_in(#[trigger] pending[j], text)
}

/// A request that holds the first secret is answered with success; the body
/// is a token of twelve letters; that token is pending afterwards, behind
/// the tokens that were pending before, which all stay; no hook is fired.
/// This holds whether or not the request also holds a pending token.
pub proof fn law_first_secret_issues_token(
    rules: Rules,
    pending: Seq<Seq<char>>,
    request: Seq<char>,
    next: Step,
)
    requires
        is_step(rules, pending, request, next),
        occurs_in(rules.first_secret, request),
    ensures
        next.reply.verdict == Verdict::FirstSecret,
        next.reply.response.status == Status::Success,
        is_token(next.reply.response.body),
        next.reply.response.body.len() == 12,
        forall|i: int| 0 <= i < 12 ==> is_letter(#[trigger] next.reply.response.body[i]),
        next.pending == pending.push(next.reply.response.body),
        next.pending.contains(next.reply.response.body),
        next.reply.actions.len() == 0,
{
    let body = next.reply.response.body;
    assert(next.pending.last() == body);
}

/// A request that holds a pending token, and not the first secret, is
/// answered with success and the fixed confirmation. The first pending token
/// that occurs in the request, in registry order, leaves the registry, and
/// only that one: every other pending token stays, in order. The kill hook is
/// fired exactly once, then the restore hook is scheduled exactly once, with
/// the configured delay.
pub proof fn law_second_secret_triggers(
    rules: Rules,
    pending: Seq<Seq<char>>,
    request: Seq<char>,
    next: Step,
)
    requires
        is_step(rules, pending, request, next),
        !occurs_in(rules.first_secret, request),
        any_match(pending, request),
    ensures
        next.reply.verdict == Verdict::SecondSecret,
        next.reply.response.status == Status::Success,
        next.reply.response.body == started_body(),
        first_match(pending, request) matches Some(at) && is_first_match(pending, request, at)
            && next.pending == pending.remove(at),
        next.pending.len() == pending.len() - 1,
        next.reply.actions == seq![
            ActionView::Kill { command: rules.kill_hook },
            ActionView::RestoreAfter {
                command: rules.restore_hook,
                delay_secs: rules.restore_delay,
            },
        ],
        kill_count(next.reply.actions) == 1,
        restore_count(next.reply.actions) == 1,
{
    lemma_first_match_ensures(pending, request);
    lemma_hooks_once_triggered(rules.kill_hook, rules.restore_hook, rules.restore_delay);
}

/// A consumed token that was pending once is pending no more.
pub proof fn law_consumed_token_is_gone(
    rules: Rules,
    pending: Seq<Seq<char>>,
    request: Seq<char>,
    next: Step,
    at: int,
)
    requires
        is_step(rules, pending, request, next),
        !occurs_in(rules.first_secret, request),
        first_match(pending, request) == Some(at),
        forall|j: int| 0 <= j < pending.len() && j != at ==> #[trigger] pending[j] != pending[at],
    ensures
        !next.pending.contains(pending[at]),
{
    lemma_first_match_ensures(pending, request);
    let after = pending.remove(at);
    assert forall|k: int| 0 <= k < after.len() implies after[k] != pending[at] by {
        if k < at {
            assert(after[k] == pending[k]);
        } else {
            assert(after[k] == pending[k + 1]);
        }
    }
}

/// A request that holds neither the first secret nor any pending token is
/// answered with not found and the fixed diagnostic; the registry is left
/// as it was and no hook is fired.
pub proof fn law_invalid_request_changes_nothing(
    rules: Rules,
    pending: Seq<Seq<char>>,
    request: Seq<char>,
    next: Step,
)
    requires
        is_step(rules, pending, request, next),
        !occurs_in(rules.first_secret, request),
        !any_match(pending, request),
    ensures
        next.reply.verdict == Verdict::Invalid,
        next.reply.response.status == Status::NotFound,
        next.reply.response.body == not_found_body(),
        next.pending == pending,
        next.reply.actions.len() == 0,
        kill_count(next.reply.actions) == 0,
        restore_count(next.reply.actions) == 0,
{
    lemma_no_hooks_rejected();
}

/// Every reply is a success or a not found, and a hook is fired only by a
/// second-secret reply.
pub proof fn law_two_status_classes(
    rules: Rules,
    pending: Seq<Seq<char>>,
    request: Seq<char>,
    next: Step,
)
    requires
        is_step(rules, pending, request, next),
    ensures
        next.reply.response.status == Status::Success || next.reply.response.status
            == Status::NotFound,
        next.reply.verdict != Verdict::SecondSecret ==> next.reply.actions.len() == 0,
        next.reply.verdict == Verdict::Invalid <==> next.reply.response.status
            == Status::NotFound,
{
}

/// A token is spent by its use: when a request holds exactly one pending
/// token and not the first secret, sending it twice in a row gives success
/// the first time and not found the second.
pub proof fn law_token_is_single_use(
    rules: Rules,
    pending: Seq<Seq<char>>,
    request: Seq<char>,
    at: int,
    first: Step,
    second: Step,
)
    requires
        !occurs_in(rules.first_secret, request),
        is_only_match(pending, request, at),
        is_step(rules, pending, request, first),
        is_step(rules, first.pending, request, second),
    ensures
        first.reply == triggered_reply(rules.kill_hook, rules.restore_hook, rules.restore_delay),
        first.reply.response.status == Status::Success,
        first.pending == pending.remove(at),
        second.reply == rejected_reply(),
        second.reply.response.status == Status::NotFound,
        second.pending == first.pending,
{
    lemma_first_match_is(pending, request, at);
    lemma_only_match_removed(pending, request, at);
    lemma_first_match_none(pending.remove(at), request);
}

/// The pending tokens that the `k`-th request of a run meets: those at the
/// start for the first request, those the request before left for the others.
pub open spec fn pending_before(pending: Seq<Seq<char>>, trace: Seq<Step>, k: int) -> Seq<
    Seq<char>,
> {
    if k <= 0 {
        pending
    } else {
        trace[k - 1].pending
    }
}

/// `trace` is a run of the server on `requests`, one step per request, each
/// from the state that the step before it left. Requests that arrive
/// together are served one at a time, so every way they can be served is
/// such a run on some order of them.
pub open spec fn is_run(
    rules: Rules,
    pending: Seq<Seq<char>>,
    requests: Seq<Seq<char>>,
    trace: Seq<Step>,
) -> bool {
    &&& trace.len() == requests.len()
    &&& forall|k: int|
        0 <= k < requests.len() ==> is_step(
            rules,
            pending_before(pending, trace, k),
            requests[k],
            #[trigger] trace[k],
        )
}

/// How many times the replies of a run fire the kill hook, all told.
pub open spec fn kills_fired(trace: Seq<Step>) -> nat
    decreases trace.len(),
{
    if trace.len() == 0 {
        0
    } else {
        kills_fired(trace.drop_last()) + kill_count(trace.last().reply.actions)
    }
}

/// How many times the replies of a run schedule the restore hook, all told.
pub open spec fn restores_scheduled(trace: Seq<Step>) -> nat
    decreases trace.len(),
{
    if trace.len() == 0 {
        0
    } else {
        restores_scheduled(trace.drop_last()) + restore_count(trace.last().reply.actions)
    }
}

/// The replies of a run that signal success.
pub open spec fn successes(trace: Seq<Step>) -> Seq<Step> {
    trace.filter(|s: Step| s.reply.response.status == Status::Success)
}

/// The replies of a run that signal not found.
pub open spec fn failures(trace: Seq<Step>) -> Seq<Step> {
    trace.filter(|s: Step| s.reply.response.status == Status::NotFound)
}

/// One token, one winner: when every request of a run holds the same single
/// pending token, and none holds the first secret, then in whatever order
/// they are served the first one served is answered with success and
/// consumes the token, and every other one is answered with not found. So
/// of `n` requests one succeeds and `n - 1` fail; the kill hook is fired
/// exactly once and the restore hook scheduled exactly once; and afterwards
/// the token is pending no more and the registry is shorter by one.
pub proof fn law_one_token_one_winner(
    rules: Rules,
    pending: Seq<Seq<char>>,
    requests: Seq<Seq<char>>,
    at: int,
    trace: Seq<Step>,
)
    requires
        requests.len() >= 1,
        forall|k: int|
            0 <= k < requests.len() ==> !occurs_in(rules.first_secret, #[trigger] requests[k]),
        forall|k: int|
            0 <= k < requests.len() ==> is_only_match(pending, #[trigger] requests[k], at),
        is_run(rules, pending, requests, trace),
    ensures
        trace[0].reply == triggered_reply(rules.kill_hook, rules.restore_hook, rules.restore_delay),
        forall|k: int| 1 <= k < trace.len() ==> (#[trigger] trace[k]).reply == rejected_reply(),
        forall|k: int| 0 <= k < trace.len() ==> (#[trigger] trace[k]).pending == pending.remove(at),
        wire_of(trace[0].reply.response) == "HTTP/1.1 200 OK\r\n\r\n"@
            + "Killswitch is started\n"@,
        forall|k: int|
            1 <= k < trace.len() ==> wire_of((#[trigger] trace[k]).reply.response)
                == "HTTP/1.1 404 Not Found\r\n\r\n"@
                + "404 - Url path not found or secret is not valid\n"@,
        successes(trace).len() == 1,
        failures(trace).len() == requests.len() - 1,
        kills_fired(trace) == 1,
        restores_scheduled(trace) == 1,
        !trace.last().pending.contains(pending[at]),
        trace.last().pending.len() == pending.len() - 1,
{
    lemma_winner_then_losers(rules, pending, requests, at, trace, requests.len() as int);
    assert(is_only_match(pending, requests[0], at));
    lemma_only_match_removed(pending, requests[0], at);
    assert(!pending.remove(at).contains(pending[at])) by {
        if pending.remove(at).contains(pending[at]) {
            let j = choose|j: int|
                0 <= j < pending.remove(at).len() && pending.remove(at)[j] == pending[at];
            assert(!occurs_in(pending.remove(at)[j], requests[0]));
        }
    }
    let won = |s: Step| s.reply.response.status == Status::Success;
    let lost = |s: Step| s.reply.response.status == Status::NotFound;
    lemma_filter_first_only(trace, won, lost, trace.len() as int);
    assert(trace.subrange(0, trace.len() as int) =~= trace);
    lemma_hooks_of_run(rules, trace, trace.len() as int);
}

/// Up to the `n`-th request of such a run: the first wins, the others lose,
/// and the token is gone from the first step on.
proof fn lemma_winner_then_losers(
    rules: Rules,
    pending: Seq<Seq<char>>,
    requests: Seq<Seq<char>>,
    at: int,
    trace: Seq<Step>,
    n: int,
)
    requires
        1 <= n <= requests.len(),
        forall|k: int|
            0 <= k < requests.len() ==> !occurs_in(rules.first_secret, #[trigger] requests[k]),
        forall|k: int|
            0 <= k < requests.len() ==> is_only_match(pending, #[trigger] requests[k], at),
        is_run(rules, pending, requests, trace),
    ensures
        trace[0].reply == triggered_reply(rules.kill_hook, rules.restore_hook, rules.restore_delay),
        forall|k: int| 1 <= k < n ==> (#[trigger] trace[k]).reply == rejected_reply(),
        forall|k: int| 0 <= k < n ==> (#[trigger] trace[k]).pending == pending.remove(at),
    decreases n,
{
    if n == 1 {
        assert(is_only_match(pending, requests[0], at));
        assert(is_step(rules, pending_before(pending, trace, 0), requests[0], trace[0]));
        lemma_first_match_is(pending, requests[0], at);
    } else {
        lemma_winner_then_losers(rules, pending, requests, at, trace, n - 1);
        let k = n - 1;
        assert(is_only_match(pending, requests[k], at));
        assert(is_step(rules, pending_before(pending, trace, k), requests[k], trace[k]));
        assert(trace[k - 1].pending == pending.remove(at));
        lemma_only_match_removed(pending, requests[k], at);
        lemma_first_match_none(pending.remove(at), requests[k]);
    }
}

/// Of a run whose first step won and whose other steps lost, the first `n`
/// steps hold one success and `n - 1` failures.
proof fn lemma_filter_first_only(
    trace: Seq<Step>,
    won: spec_fn(Step) -> bool,
    lost: spec_fn(Step) -> bool,
    n: int,
)
    requires
        1 <= n <= trace.len(),
        won(trace[0]) && !lost(trace[0]),
        forall|k: int| 1 <= k < trace.len() ==> !won(#[trigger] trace[k]) && lost(trace[k]),
    ensures
        trace.subrange(0, n).filter(won).len() == 1,
        trace.subrange(0, n).filter(lost).len() == n - 1,
    decreases n,
{
    reveal(Seq::filter);
    let prefix = trace.subrange(0, n);
    assert(prefix.drop_last() =~= trace.subrange(0, n - 1));
    assert(prefix.last() == trace[n - 1]);
    if n == 1 {
        assert(trace.subrange(0, 0).filter(won) =~= Seq::<Step>::empty());
        assert(trace.subrange(0, 0).filter(lost) =~= Seq::<Step>::empty());
    } else {
        lemma_filter_first_only(trace, won, lost, n - 1);
    }
}

/// The first `n` steps of a run whose first step is a second-secret reply
/// and whose other steps are rejections fire the kill hook once and schedule
/// the restore hook once.
proof fn lemma_hooks_of_run(rules: Rules, trace: Seq<Step>, n: int)
    requires
        1 <= n <= trace.len(),
        trace[0].reply == triggered_reply(rules.kill_hook, rules.restore_hook, rules.restore_delay),
        forall|k: int| 1 <= k < trace.len() ==> (#[trigger] trace[k]).reply == rejected_reply(),
    ensures
        kills_fired(trace.subrange(0, n)) == 1,
        restores_scheduled(trace.subrange(0, n)) == 1,
    decreases n,
{
    let prefix = trace.subrange(0, n);
    assert(prefix.drop_last() =~= trace.subrange(0, n - 1));
    assert(prefix.last() == trace[n - 1]);
    if n == 1 {
        assert(kills_fired(trace.subrange(0, 0)) == 0);
        assert(restores_scheduled(trace.subrange(0, 0)) == 0);
        lemma_hooks_once_triggered(rules.kill_hook, rules.restore_hook, rules.restore_delay);
    } else {
        lemma_hooks_of_run(rules, trace, n - 1);
        assert(trace[n - 1].reply == rejected_reply());
        lemma_no_hooks_rejected();
    }
}

/// With the only matching token removed, no pending token occurs in the
/// request.
pub proof fn lemma_only_match_removed(pending: Seq<Seq<char>>, request: Seq<char>, at: int)
    requires
        is_only_match(pending, request, at),
    ensures
        forall|j: int|
            0 <= j < pending.remove(at).len() ==> !occurs_in(
                #[trigger] pending.remove(at)[j],
                request,
            ),
{
    let after = pending.remove(at);
    assert forall|j: int| 0 <= j < after.len() implies !occurs_in(
        #[trigger] after[j],
        request,
    ) by {
        if j < at {
            assert(after[j] == pending[j]);
        } else {
            assert(after[j] == pending[j + 1]);
        }
    }
}

/// A second-secret reply fires the kill hook once and schedules the restore
/// hook once.
pub proof fn lemma_hooks_once_triggered(
    kill_hook: Seq<char>,
    restore_hook: Seq<char>,
    restore_delay: u64,
)
    ensures
        kill_count(triggered_reply(kill_hook, restore_hook, restore_delay).actions) == 1,
        restore_count(triggered_reply(kill_hook, restore_hook, restore_delay).actions) == 1,
{
    let kill = ActionView::Kill { command: kill_hook };
    let restore = ActionView::RestoreAfter { command: restore_hook, delay_secs: restore_delay };
    let is_kill = |a: ActionView| a is Kill;
    let is_restore = |a: ActionView| a is RestoreAfter;
    let actions = seq![kill, restore];
    reveal(Seq::filter);
    assert(seq![kill].drop_last() =~= Seq::<ActionView>::empty());
    assert(actions.drop_last() =~= seq![kill]);
    assert(Seq::<ActionView>::empty().filter(is_kill) =~= Seq::<ActionView>::empty());
    assert(Seq::<ActionView>::empty().filter(is_restore) =~= Seq::<ActionView>::empty());
    assert(seq![kill].filter(is_kill) =~= seq![kill]);
    assert(seq![kill].filter(is_restore) =~= Seq::<ActionView>::empty());
    assert(actions.filter(is_kill) =~= seq![kill]);
    assert(actions.filter(is_restore) =~= seq![restore]);
}

/// A rejection fires no hook and schedules none.
pub proof fn lemma_no_hooks_rejected()
    ensures
        kill_count(rejected_reply().actions) == 0,
        restore_count(rejected_reply().actions) == 0,
{
    reveal(Seq::filter);
    let none = Seq::<ActionView>::empty();
    assert(none.filter(|a: ActionView| a is Kill) =~= none);
    assert(none.filter(|a: ActionView| a is RestoreAfter) =~= none);
}

} // verus!
