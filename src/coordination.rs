use vstd::prelude::*;

use crate::app_manager::{power_tick, PowerModel, SystemState};
use crate::button::InputEvent;
use crate::vbus_manager::{vbus_tick, VbusModel, VbusState};

verus! {

/// Both coordinators, with the reset latch that the mode coordinator sets and
/// the secondary coordinator clears.
pub struct SystemModel {
    pub power: PowerModel,
    pub vbus: VbusModel,
    pub reset_pending: bool,
}

/// One gesture, fanned out to both coordinators: a cycle of the mode
/// coordinator, then a cycle of the secondary coordinator, which sees the mode
/// and the latch as they now stand. (`loop_step` below runs them the other
/// way round.)
pub open spec fn system_step(s: SystemModel, g: InputEvent) -> SystemModel {
    let (p, pa) = power_tick(s.power, Some(g));
    let latch = s.reset_pending || pa.vbus_reset;
    let (v, va) = vbus_tick(s.vbus, Some(g), p.system_state, latch);
    SystemModel { power: p, vbus: v, reset_pending: latch && !va.clear_reset }
}

/// A sequence of gestures, one after another.
pub open spec fn system_run(s: SystemModel, gs: Seq<InputEvent>) -> SystemModel
    decreases gs.len(),
{
    if gs.len() == 0 {
        s
    } else {
        system_step(system_run(s, gs.drop_last()), gs.last())
    }
}

/// Entering working mode always asks for the reset broadcast.
pub proof fn lemma_entering_working_requests_reset(p: PowerModel, event: Option<InputEvent>)
    requires
        p.system_state == SystemState::Standby,
        power_tick(p, event).0.system_state == SystemState::Working,
    ensures
        power_tick(p, event).1.vbus_reset,
{
}

/// A cycle of the secondary coordinator that finds the reset latch set ends
/// with the output off and the latch consumed, whatever the output was
/// before, whatever event it drained and whatever mode it saw.
pub proof fn lemma_reset_forces_disabled(v: VbusModel, event: Option<InputEvent>, mode: SystemState)
    ensures
        vbus_tick(v, event, mode, true).0.vbus_state == VbusState::Disabled,
        !vbus_tick(v, event, mode, true).1.vbus_enabled,
        vbus_tick(v, event, mode, true).1.clear_reset,
{
}

/// After any sequence of click and long-press gestures, a gesture that takes
/// the system from standby to working mode leaves the secondary output off
/// on the secondary coordinator's next cycle, whatever it was before.
pub proof fn lemma_working_entry_disables_secondary(s: SystemModel, gs: Seq<InputEvent>, i: int)
    requires
        0 <= i < gs.len(),
        system_run(s, gs.take(i)).power.system_state == SystemState::Standby,
        system_run(s, gs.take(i + 1)).power.system_state == SystemState::Working,
    ensures
        system_run(s, gs.take(i + 1)).vbus.vbus_state == VbusState::Disabled,
        !system_run(s, gs.take(i + 1)).reset_pending,
{
    assert(gs.take(i + 1).drop_last() =~= gs.take(i));
    assert(gs.take(i + 1).last() == gs[i]);
    let before = system_run(s, gs.take(i));
    lemma_entering_working_requests_reset(before.power, Some(gs[i]));
}

/// One pass of a loop that runs the secondary coordinator first and the mode
/// coordinator second, each draining at most one gesture from its own
/// subscription (`None` when nothing is pending). The secondary coordinator
/// sees the mode and the latch that the previous pass left.
pub open spec fn loop_step(
    s: SystemModel,
    vbus_event: Option<InputEvent>,
    power_event: Option<InputEvent>,
) -> SystemModel {
    let (v, va) = vbus_tick(s.vbus, vbus_event, s.power.system_state, s.reset_pending);
    let latch = s.reset_pending && !va.clear_reset;
    let (p, pa) = power_tick(s.power, power_event);
    SystemModel { power: p, vbus: v, reset_pending: latch || pa.vbus_reset }
}

/// A sequence of passes of that loop, each given by the gestures its two
/// coordinators drain.
pub open spec fn loop_run(
    s: SystemModel,
    events: Seq<(Option<InputEvent>, Option<InputEvent>)>,
) -> SystemModel
    decreases events.len(),
{
    if events.len() == 0 {
        s
    } else {
        let e = events.last();
        loop_step(loop_run(s, events.drop_last()), e.0, e.1)
    }
}

/// In that loop, a pass that takes the system from standby to working mode
/// leaves the reset pending, and the very next pass leaves the secondary
/// output off, whatever the secondary coordinator drains in it and whatever
/// the output was before; the latch is then consumed, and set again only if
/// that pass's mode coordinator asks for a new reset.
pub proof fn lemma_loop_working_entry_disables_secondary(
    s: SystemModel,
    events: Seq<(Option<InputEvent>, Option<InputEvent>)>,
    i: int,
)
    requires
        0 <= i,
        i + 1 < events.len(),
        loop_run(s, events.take(i)).power.system_state == SystemState::Standby,
        loop_run(s, events.take(i + 1)).power.system_state == SystemState::Working,
    ensures
        loop_run(s, events.take(i + 1)).reset_pending,
        loop_run(s, events.take(i + 2)).vbus.vbus_state == VbusState::Disabled,
        loop_run(s, events.take(i + 2)).reset_pending == power_tick(
            loop_run(s, events.take(i + 1)).power,
            events[i + 1].1,
        ).1.vbus_reset,
{
    assert(events.take(i + 1).drop_last() =~= events.take(i));
    assert(events.take(i + 1).last() == events[i]);
    assert(events.take(i + 2).drop_last() =~= events.take(i + 1));
    assert(events.take(i + 2).last() == events[i + 1]);
    let before = loop_run(s, events.take(i));
    lemma_entering_working_requests_reset(before.power, events[i].1);
    let mid = loop_run(s, events.take(i + 1));
    lemma_reset_forces_disabled(mid.vbus, events[i + 1].0, mid.power.system_state);
}

} // verus!
