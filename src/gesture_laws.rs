use vstd::prelude::*;

use crate::button::{step, ButtonEvent, ButtonModel, ButtonState};

verus! {

/// Feeds a sequence of observations (level, time) to the detector: the final
/// state and the event of each observation.
pub open spec fn run(m: ButtonModel, inputs: Seq<(bool, u64)>) -> (ButtonModel, Seq<ButtonEvent>)
    decreases inputs.len(),
{
    if inputs.len() == 0 {
        (m, Seq::empty())
    } else {
        let first = step(m, inputs[0].0, inputs[0].1);
        let rest = run(first.0, inputs.drop_first());
        (rest.0, seq![first.1] + rest.1)
    }
}

/// Observations of a held button at the given times.
pub open spec fn held(times: Seq<u64>) -> Seq<(bool, u64)> {
    times.map_values(|t: u64| (true, t))
}

/// `n` observations that produce nothing.
pub open spec fn quiet(n: nat) -> Seq<ButtonEvent> {
    Seq::new(n, |_i: int| ButtonEvent::NoEvent)
}

/// One press of `d` ms starting at `t0`, observed when it starts, at the
/// long-press deadline if it lasts that long, and when it ends.
pub open spec fn press_inputs(t0: u64, d: u64, long_press: u64) -> Seq<(bool, u64)> {
    if d < long_press {
        seq![(true, t0), (false, (t0 + d) as u64)]
    } else {
        seq![(true, t0), (true, (t0 + long_press) as u64), (false, (t0 + d) as u64)]
    }
}

/// The events of such a press.
pub open spec fn press_events(d: u64, debounce: u64, long_press: u64) -> Seq<ButtonEvent> {
    if d >= long_press {
        seq![ButtonEvent::NoEvent, ButtonEvent::LongPressStart, ButtonEvent::LongPressEnd]
    } else if d >= debounce {
        seq![ButtonEvent::NoEvent, ButtonEvent::ShortPress]
    } else {
        seq![ButtonEvent::NoEvent, ButtonEvent::NoEvent]
    }
}

/// The observations of presses one after another, each given by its start and
/// duration.
pub open spec fn presses_inputs(ps: Seq<(u64, u64)>, long_press: u64) -> Seq<(bool, u64)>
    decreases ps.len(),
{
    if ps.len() == 0 {
        Seq::empty()
    } else {
        press_inputs(ps[0].0, ps[0].1, long_press) + presses_inputs(ps.drop_first(), long_press)
    }
}

/// The events of those presses.
pub open spec fn presses_events(ps: Seq<(u64, u64)>, debounce: u64, long_press: u64) -> Seq<
    ButtonEvent,
>
    decreases ps.len(),
{
    if ps.len() == 0 {
        Seq::empty()
    } else {
        press_events(ps[0].1, debounce, long_press) + presses_events(
            ps.drop_first(),
            debounce,
            long_press,
        )
    }
}

/// Running two sequences one after the other is running their concatenation.
pub proof fn lemma_run_append(m: ButtonModel, a: Seq<(bool, u64)>, b: Seq<(bool, u64)>)
    ensures
        run(m, a + b).0 == run(run(m, a).0, b).0,
        run(m, a + b).1 == run(m, a).1 + run(run(m, a).0, b).1,
    decreases a.len(),
{
    if a.len() == 0 {
        assert(a + b =~= b);
        assert(run(m, a).1 + run(m, b).1 =~= run(m, b).1);
    } else {
        let first = step(m, a[0].0, a[0].1);
        assert((a + b).drop_first() =~= a.drop_first() + b);
        assert((a + b)[0] == a[0]);
        lemma_run_append(first.0, a.drop_first(), b);
        let ra = run(first.0, a.drop_first());
        let rb = run(ra.0, b);
        assert(seq![first.1] + (ra.1 + rb.1) =~= (seq![first.1] + ra.1) + rb.1);
    }
}

/// Held observations before the long-press deadline change nothing.
proof fn lemma_held_before_deadline(m: ButtonModel, t0: u64, times: Seq<u64>)
    requires
        m.state == ButtonState::WaitingRelease,
        m.press_start == Some(t0),
        forall|i: int| 0 <= i < times.len() ==> t0 <= #[trigger] times[i] < t0 + m.long_press,
    ensures
        run(m, held(times)).0 == m,
        run(m, held(times)).1 == quiet(times.len()),
    decreases times.len(),
{
    if times.len() > 0 {
        let rest = times.drop_first();
        assert(held(times).drop_first() =~= held(rest));
        assert(forall|i: int| 0 <= i < rest.len() ==> rest[i] == times[i + 1]);
        lemma_held_before_deadline(m, t0, rest);
        assert(seq![ButtonEvent::NoEvent] + quiet(rest.len()) =~= quiet(times.len()));
    } else {
        assert(quiet(0) =~= Seq::<ButtonEvent>::empty());
    }
}

/// Once a long press has been signalled, holding on changes nothing, however
/// long it lasts.
pub proof fn lemma_long_hold_stays_quiet(m: ButtonModel, times: Seq<u64>)
    requires
        m.state == ButtonState::LongPressed,
    ensures
        run(m, held(times)).0 == m,
        run(m, held(times)).1 == quiet(times.len()),
    decreases times.len(),
{
    if times.len() > 0 {
        let rest = times.drop_first();
        assert(held(times).drop_first() =~= held(rest));
        lemma_long_hold_stays_quiet(m, rest);
        assert(seq![ButtonEvent::NoEvent] + quiet(rest.len()) =~= quiet(times.len()));
    } else {
        assert(quiet(0) =~= Seq::<ButtonEvent>::empty());
    }
}

/// A press released before the long-press threshold: nothing while it is
/// held, then one click if it lasted at least the debounce interval and
/// nothing otherwise; the detector is back at rest.
pub proof fn lemma_short_press(m: ButtonModel, t0: u64, early: Seq<u64>, d: u64)
    requires
        m.is_idle(),
        d < m.long_press,
        t0 + d <= u64::MAX,
        forall|i: int| 0 <= i < early.len() ==> t0 <= #[trigger] early[i] < t0 + m.long_press,
    ensures
        ({
            let r = run(m, seq![(true, t0)] + held(early) + seq![(false, (t0 + d) as u64)]);
            &&& r.0 == m
            &&& r.1 == seq![ButtonEvent::NoEvent] + quiet(early.len()) + seq![
                if d >= m.debounce {
                    ButtonEvent::ShortPress
                } else {
                    ButtonEvent::NoEvent
                },
            ]
        }),
{
    let a = seq![(true, t0)];
    let b = held(early);
    let c = seq![(false, (t0 + d) as u64)];
    let pressed = step(m, true, t0).0;
    reveal_with_fuel(run, 2);
    lemma_run_append(m, a + b, c);
    lemma_run_append(m, a, b);
    lemma_held_before_deadline(pressed, t0, early);
    assert(run(m, a).0 == pressed);
}

/// A press held to the long-press threshold: nothing before the threshold,
/// exactly one long-press start at the observation made at
/// `t0 + long_press`, nothing however long it is held after that, and the end
/// of the long press at the release; the detector is back at rest.
pub proof fn lemma_long_press(
    m: ButtonModel,
    t0: u64,
    early: Seq<u64>,
    late: Seq<u64>,
    release: u64,
)
    requires
        m.is_idle(),
        t0 + m.long_press <= u64::MAX,
        forall|i: int| 0 <= i < early.len() ==> t0 <= #[trigger] early[i] < t0 + m.long_press,
    ensures
        ({
            let inputs = seq![(true, t0)] + held(early) + seq![
                (true, (t0 + m.long_press) as u64),
            ] + held(late) + seq![(false, release)];
            let r = run(m, inputs);
            &&& r.0 == m
            &&& r.1 == seq![ButtonEvent::NoEvent] + quiet(early.len()) + seq![
                ButtonEvent::LongPressStart,
            ] + quiet(late.len()) + seq![ButtonEvent::LongPressEnd]
        }),
{
    let a = seq![(true, t0)];
    let b = held(early);
    let c = seq![(true, (t0 + m.long_press) as u64)];
    let d = held(late);
    let e = seq![(false, release)];
    let pressed = step(m, true, t0).0;
    let long = step(pressed, true, (t0 + m.long_press) as u64).0;
    reveal_with_fuel(run, 2);
    lemma_run_append(m, a, b);
    lemma_held_before_deadline(pressed, t0, early);
    lemma_run_append(m, a + b, c);
    lemma_run_append(m, a + b + c, d);
    lemma_long_hold_stays_quiet(long, late);
    lemma_run_append(m, a + b + c + d, e);
    assert(run(m, a).0 == pressed);
    assert(run(pressed, c).0 == long);
}

/// One press of any duration, observed at its start, at the deadline if it
/// gets there, and at its end, gives exactly the events of its duration and
/// leaves the detector at rest.
pub proof fn lemma_press_cycle(m: ButtonModel, t0: u64, d: u64)
    requires
        m.is_idle(),
        t0 + d <= u64::MAX,
    ensures
        run(m, press_inputs(t0, d, m.long_press)).0 == m,
        run(m, press_inputs(t0, d, m.long_press)).1 == press_events(d, m.debounce, m.long_press),
{
    reveal_with_fuel(run, 4);
    if d < m.long_press {
        assert(press_events(d, m.debounce, m.long_press) =~= run(
            m,
            press_inputs(t0, d, m.long_press),
        ).1);
    } else {
        assert(press_events(d, m.debounce, m.long_press) =~= run(
            m,
            press_inputs(t0, d, m.long_press),
        ).1);
    }
}

/// Presses repeated one after another: each gives its own events, and the
/// detector returns to rest after each, so `n` presses give `n` groups of
/// events and nothing else.
pub proof fn lemma_repeated_presses(m: ButtonModel, ps: Seq<(u64, u64)>)
    requires
        m.is_idle(),
        forall|i: int| 0 <= i < ps.len() ==> #[trigger] ps[i].0 + ps[i].1 <= u64::MAX,
    ensures
        run(m, presses_inputs(ps, m.long_press)).0 == m,
        run(m, presses_inputs(ps, m.long_press)).1 == presses_events(ps, m.debounce, m.long_press),
    decreases ps.len(),
{
    if ps.len() == 0 {
        assert(run(m, presses_inputs(ps, m.long_press)).1 =~= presses_events(
            ps,
            m.debounce,
            m.long_press,
        ));
    } else {
        let rest = ps.drop_first();
        assert(forall|i: int| 0 <= i < rest.len() ==> rest[i] == ps[i + 1]);
        assert(ps[0].0 + ps[0].1 <= u64::MAX);
        lemma_press_cycle(m, ps[0].0, ps[0].1);
        lemma_repeated_presses(m, rest);
        lemma_run_append(m, press_inputs(ps[0].0, ps[0].1, m.long_press), presses_inputs(rest, m.long_press));
    }
}

} // verus!
