//! The route visualization state machine.
//!
//! One value of [`ShowRouteState`] says what the overlay currently shows:
//! nothing, one trip's route, or every live trip's route. Each interaction
//! step may transition between those modes or refresh a cached trace whose
//! tick has gone stale; each render step reads off the traces to draw.

use vstd::prelude::*;
use crate::ids::{Position, Tick, Trace, TripID, spec_agent_id};
use crate::sim_view::{
    InputState, SimModel, SimulationView, agent_trip_of, trace_of, trip_agent_of,
};

verus! {

/// What the overlay currently shows.
///
/// `Active` carries the tick its trace was computed at, the trip being
/// shown, and the trace itself — absent when the trip currently has no
/// traceable agent. `DebugAllRoutes` carries the tick and one trace per
/// traceable live trip, in the simulation's enumeration order.
#[derive(Clone, PartialEq, Eq, Debug)]
pub enum ShowRouteState {
    Inactive,
    Active(Tick, TripID, Option<Trace>),
    DebugAllRoutes(Tick, Vec<Trace>),
}

/// The mathematical model of a [`ShowRouteState`].
pub enum StateView {
    Inactive,
    Active { at: Tick, trip: TripID, trace: Option<Seq<Position>> },
    DebugAllRoutes { at: Tick, traces: Seq<Seq<Position>> },
}

/// The traces a sequence of [`Trace`] values describes.
pub open spec fn traces_view(v: Seq<Trace>) -> Seq<Seq<Position>> {
    v.map_values(|t: Trace| t@)
}

impl View for ShowRouteState {
    type V = StateView;

    open spec fn view(&self) -> StateView {
        match self {
            ShowRouteState::Inactive => StateView::Inactive,
            ShowRouteState::Active(at, trip, trace) => StateView::Active {
                at: *at,
                trip: *trip,
                trace: match trace {
                    Some(t) => Some(t@),
                    None => None,
                },
            },
            ShowRouteState::DebugAllRoutes(at, traces) => StateView::DebugAllRoutes {
                at: *at,
                traces: traces_view(traces@),
            },
        }
    }
}

/// What one fresh query round returns for `trip`: the trace of the agent
/// currently carrying the trip out, absent when the trip has no agent or
/// the agent has no current position.
pub open spec fn refreshed_trace(m: SimModel, trip: TripID) -> Option<Seq<Position>> {
    match trip_agent_of(m, trip) {
        Some(agent) => trace_of(m, agent),
        None => None,
    }
}

/// The `Active` state a trace refresh for `trip` produces: the current
/// time, the same trip, and whatever one fresh query round returns.
pub open spec fn show_route_spec(trip: TripID, m: SimModel) -> StateView {
    StateView::Active { at: m.time, trip, trace: refreshed_trace(m, trip) }
}

/// What one live trip contributes to a debug refresh: its refreshed trace,
/// or nothing when it has none. Absence is expected at scale and skipped
/// silently.
pub open spec fn trip_trace_item(m: SimModel, trip: TripID) -> Seq<Seq<Position>> {
    match refreshed_trace(m, trip) {
        Some(t) => seq![t],
        None => Seq::empty(),
    }
}

/// The traces a debug refresh collects from `trips`, walked once, in order.
pub open spec fn collected_traces(m: SimModel, trips: Seq<TripID>) -> Seq<Seq<Position>>
    decreases trips.len(),
{
    if trips.len() <= 0 {
        Seq::empty()
    } else {
        collected_traces(m, trips.drop_last()) + trip_trace_item(m, trips.last())
    }
}

/// The `DebugAllRoutes` state a debug refresh produces: the current time
/// and one trace per traceable live trip, in enumeration order.
pub open spec fn debug_all_routes_spec(m: SimModel) -> StateView {
    StateView::DebugAllRoutes { at: m.time, traces: collected_traces(m, m.live_trips) }
}

/// How one interaction step transforms the state.
///
/// From `Inactive`, a "show route" event on a selected agent with a known
/// trip starts a trace refresh; any gap in that chain is a no-op. From
/// `Active`, stop beats debug beats staleness, in that order; from
/// `DebugAllRoutes`, stop beats staleness. A state whose tick equals the
/// simulation's time, with no relevant event, is left untouched.
pub open spec fn step_spec(s: StateView, input: InputState, m: SimModel) -> StateView {
    match s {
        StateView::Inactive => {
            match input.current_selection {
                Some(entity) => match spec_agent_id(entity) {
                    Some(agent) => match agent_trip_of(m, agent) {
                        Some(trip) => if input.show_route_pressed {
                            show_route_spec(trip, m)
                        } else {
                            s
                        },
                        None => s,
                    },
                    None => s,
                },
                None => s,
            }
        }
        StateView::Active { at, trip, .. } => {
            if input.stop_pressed {
                StateView::Inactive
            } else if input.debug_all_pressed {
                debug_all_routes_spec(m)
            } else if at != m.time {
                show_route_spec(trip, m)
            } else {
                s
            }
        }
        StateView::DebugAllRoutes { at, .. } => {
            if input.stop_pressed {
                StateView::Inactive
            } else if at != m.time {
                debug_all_routes_spec(m)
            } else {
                s
            }
        }
    }
}

/// The traces the overlay draws in a given state, in drawing order: the one
/// cached trace when showing a trip that has one, every collected trace in
/// debug mode, nothing otherwise.
pub open spec fn draw_spec(s: StateView) -> Seq<Seq<Position>> {
    match s {
        StateView::Inactive => Seq::empty(),
        StateView::Active { trace, .. } => match trace {
            Some(t) => seq![t],
            None => Seq::empty(),
        },
        StateView::DebugAllRoutes { traces, .. } => traces,
    }
}

impl ShowRouteState {
    /// A fresh overlay shows nothing.
    pub fn new() -> (s: ShowRouteState)
        ensures
            s@ == StateView::Inactive,
    {
        ShowRouteState::Inactive
    }

    /// One interaction step: reads the input events and the simulation
    /// snapshot, and transitions or refreshes exactly as [`step_spec`]
    /// says.
    pub fn ambient_event(&mut self, input: &InputState, sim: &SimulationView)
        ensures
            final(self)@ == step_spec(old(self)@, *input, sim@),
    {
        let next: Option<ShowRouteState> = match &*self {
            ShowRouteState::Inactive => {
                match input.current_selection {
                    Some(entity) => match entity.agent_id() {
                        Some(agent) => match sim.agent_to_trip(agent) {
                            Some(trip) => if input.show_route_pressed {
                                Some(show_route(trip, sim))
                            } else {
                                None
                            },
                            None => None,
                        },
                        None => None,
                    },
                    None => None,
                }
            }
            ShowRouteState::Active(at, trip, _) => {
                if input.stop_pressed {
                    Some(ShowRouteState::Inactive)
                } else if input.debug_all_pressed {
                    Some(debug_all_routes(sim))
                } else if *at != sim.time {
                    Some(show_route(*trip, sim))
                } else {
                    None
                }
            }
            ShowRouteState::DebugAllRoutes(at, _) => {
                if input.stop_pressed {
                    Some(ShowRouteState::Inactive)
                } else if *at != sim.time {
                    Some(debug_all_routes(sim))
                } else {
                    None
                }
            }
        };
        match next {
            Some(n) => {
                *self = n;
            }
            None => {}
        }
    }

    /// The traces to draw for the current state, in drawing order. The
    /// caller turns each into a polygon of the standard lane thickness and
    /// fills it with the theme's route color; an empty answer draws
    /// nothing.
    pub fn new_draw(&self) -> (r: Vec<Trace>)
        ensures
            traces_view(r@) == draw_spec(self@),
    {
        match self {
            ShowRouteState::Active(_, _, Some(trace)) => {
                let mut out: Vec<Trace> = Vec::new();
                out.push(trace.duplicate());
                proof {
                    assert(traces_view(out@) =~= draw_spec(self@));
                }
                out
            }
            ShowRouteState::DebugAllRoutes(_, traces) => {
                let mut out: Vec<Trace> = Vec::new();
                let mut i: usize = 0;
                while i < traces.len()
                    invariant
                        0 <= i <= traces@.len(),
                        traces_view(out@) == traces_view(traces@).take(i as int),
                    decreases traces@.len() - i,
                {
                    let ghost prev = out@;
                    out.push(traces[i].duplicate());
                    proof {
                        assert(traces_view(out@) =~= traces_view(prev).push(traces@[i as int]@));
                        assert(traces_view(traces@).take(i + 1) =~= traces_view(traces@).take(
                            i as int,
                        ).push(traces_view(traces@)[i as int]));
                        assert(traces_view(out@) == traces_view(traces@).take(i + 1));
                    }
                    i += 1;
                }
                proof {
                    assert(traces_view(traces@).take(traces@.len() as int) =~= traces_view(
                        traces@,
                    ));
                }
                out
            }
            _ => {
                let out: Vec<Trace> = Vec::new();
                proof {
                    assert(traces_view(out@) =~= draw_spec(self@));
                }
                out
            }
        }
    }
}

/// A trace refresh for one trip. Never fails hard: a trip with no agent, or
/// an agent with no current position, yields an `Active` state with an
/// absent trace — the host may log a warning, but the overlay stays up.
pub fn show_route(trip: TripID, sim: &SimulationView) -> (s: ShowRouteState)
    ensures
        s@ == show_route_spec(trip, sim@),
{
    let time = sim.time;
    match sim.trip_to_agent(trip) {
        Some(agent) => {
            // Trace along the entire route, whatever its length.
            match sim.trace_route(agent) {
                Some(trace) => ShowRouteState::Active(time, trip, Some(trace)),
                None => ShowRouteState::Active(time, trip, None),
            }
        }
        None => ShowRouteState::Active(time, trip, None),
    }
}

/// A debug refresh: walk every live trip once, in the simulation's
/// enumeration order, and collect the trace of each trip that has one.
pub fn debug_all_routes(sim: &SimulationView) -> (s: ShowRouteState)
    ensures
        s@ == debug_all_routes_spec(sim@),
{
    let mut traces: Vec<Trace> = Vec::new();
    let mut i: usize = 0;
    while i < sim.live_trips.len()
        invariant
            0 <= i <= sim.live_trips@.len(),
            traces_view(traces@) == collected_traces(sim@, sim@.live_trips.take(i as int)),
        decreases sim.live_trips@.len() - i,
    {
        let trip = sim.live_trips[i];
        match sim.trip_to_agent(trip) {
            Some(agent) => {
                match sim.trace_route(agent) {
                    Some(trace) => {
                        traces.push(trace);
                    }
                    None => {}
                }
            }
            None => {}
        }
        proof {
            let prefix = sim@.live_trips.take(i as int);
            let next_prefix = sim@.live_trips.take(i + 1);
            assert(next_prefix.drop_last() =~= prefix);
            assert(next_prefix.last() == sim@.live_trips[i as int]);
            assert(traces_view(traces@) =~= collected_traces(sim@, next_prefix));
        }
        i += 1;
    }
    proof {
        assert(sim@.live_trips.take(sim.live_trips@.len() as int) =~= sim@.live_trips);
    }
    ShowRouteState::DebugAllRoutes(sim.time, traces)
}

} // verus!
