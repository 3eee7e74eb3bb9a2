//! Laws the state machine obeys, each proved once and for all.

use vstd::prelude::*;
use crate::ids::{Position, TripID};
use crate::sim_view::{InputState, SimModel};
use crate::state::{
    ShowRouteState, StateView, collected_traces, debug_all_routes_spec, draw_spec,
    refreshed_trace, show_route_spec, step_spec,
};

verus! {

/// At every point in time the machine is in exactly one of the three
/// modes: inactive, showing one trip's route, or showing all routes.
pub proof fn lemma_mode_exclusivity(s: ShowRouteState)
    ensures
        s@ is Inactive || s@ is Active || s@ is DebugAllRoutes,
        s@ is Inactive ==> !(s@ is Active) && !(s@ is DebugAllRoutes),
        s@ is Active ==> !(s@ is Inactive) && !(s@ is DebugAllRoutes),
        s@ is DebugAllRoutes ==> !(s@ is Inactive) && !(s@ is Active),
{
}

/// Within one tick nothing is recomputed: a step from `Active` whose
/// cached tick equals the simulation's time, with no stop and no debug
/// event, leaves the state exactly as it was.
pub proof fn lemma_no_op_within_tick(s: StateView, input: InputState, m: SimModel)
    requires
        s matches StateView::Active { at, .. } && at == m.time,
        !input.stop_pressed,
        !input.debug_all_pressed,
    ensures
        step_spec(s, input, m) == s,
{
}

/// When simulation time has advanced, a step from `Active` refreshes: the
/// trip shown is preserved, the new state records the current time, and
/// its trace is what a fresh query round returns for that trip.
pub proof fn lemma_refresh_on_time_change(s: StateView, input: InputState, m: SimModel)
    requires
        s matches StateView::Active { at, trip, trace } && at != m.time && trace is Some,
        !input.stop_pressed,
        !input.debug_all_pressed,
    ensures
        step_spec(s, input, m) == show_route_spec(s->Active_trip, m),
        step_spec(s, input, m) == (StateView::Active {
            at: m.time,
            trip: s->Active_trip,
            trace: refreshed_trace(m, s->Active_trip),
        }),
{
}

/// A stop event always wins: a step from `Active` with the stop key
/// pressed yields `Inactive`, whatever the cached tick and whether or not
/// a trace is cached.
pub proof fn lemma_stop_transition(s: StateView, input: InputState, m: SimModel)
    requires
        s is Active,
        input.stop_pressed,
    ensures
        step_spec(s, input, m) == StateView::Inactive,
{
}

/// When every trip of `trips` resolves to an agent with a trace, the
/// collection gathers exactly one trace per trip, in order.
proof fn lemma_collected_traces_complete(m: SimModel, trips: Seq<TripID>)
    requires
        forall|i: int| 0 <= i < trips.len() ==> refreshed_trace(m, #[trigger] trips[i]) is Some,
    ensures
        collected_traces(m, trips).len() == trips.len(),
        forall|i: int| 0 <= i < trips.len() ==> Some(#[trigger] collected_traces(m, trips)[i])
            == refreshed_trace(m, trips[i]),
    decreases trips.len(),
{
    if trips.len() > 0 {
        let front = trips.drop_last();
        assert(forall|i: int| 0 <= i < front.len() ==> front[i] == trips[i]);
        lemma_collected_traces_complete(m, front);
    }
}

/// Debug enumeration is complete: when every live trip resolves to an
/// agent with a trace, a debug refresh collects exactly as many traces as
/// there are live trips — the i-th collected trace is the i-th trip's, so
/// each trip contributes exactly once.
pub proof fn lemma_debug_enumeration_completeness(m: SimModel)
    requires
        forall|i: int| 0 <= i < m.live_trips.len() ==> refreshed_trace(
            m,
            #[trigger] m.live_trips[i],
        ) is Some,
    ensures
        debug_all_routes_spec(m) matches StateView::DebugAllRoutes { at, traces } && at == m.time
            && traces.len() == m.live_trips.len(),
        forall|i: int| 0 <= i < m.live_trips.len() ==> Some(
            #[trigger] debug_all_routes_spec(m)->DebugAllRoutes_traces[i],
        ) == refreshed_trace(m, m.live_trips[i]),
{
    lemma_collected_traces_complete(m, m.live_trips);
}

/// Absence is graceful: a trace refresh for a trip with no resolvable
/// agent, or whose agent has no current trace, still yields an `Active`
/// state — carrying the trip and the current time, with the trace simply
/// absent — and that state draws nothing.
pub proof fn lemma_graceful_absence(trip: TripID, m: SimModel)
    requires
        refreshed_trace(m, trip) is None,
    ensures
        show_route_spec(trip, m) == (StateView::Active {
            at: m.time,
            trip,
            trace: None::<Seq<Position>>,
        }),
        draw_spec(show_route_spec(trip, m)) == Seq::<Seq<Position>>::empty(),
{
}

} // verus!
