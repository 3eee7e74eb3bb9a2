//! Plain-value snapshots of the outside collaborators.
//!
//! The simulation, the input source and the selection live outside this
//! crate. The overlay only ever queries them; a [`SimulationView`] records
//! the answers those queries would give at one instant, and an
//! [`InputState`] records the selection and the edge-triggered key events
//! of one interaction step. The host gathers both each frame and hands
//! them in.

use vstd::prelude::*;
use crate::ids::{AgentID, EntityID, Position, Tick, Trace, TripID};

verus! {

/// The selection and key events of one interaction step. Each flag is an
/// edge-triggered "was this action's key pressed" answer; the same physical
/// key may stand behind different flags depending on the active mode.
#[derive(Clone, Copy, Debug)]
pub struct InputState {
    /// What the user currently has selected, if anything.
    pub current_selection: Option<EntityID>,
    /// "Show this agent's route" was pressed.
    pub show_route_pressed: bool,
    /// "Stop showing the route(s)" was pressed.
    pub stop_pressed: bool,
    /// "Show routes for all trips, to debug" was pressed.
    pub debug_all_pressed: bool,
}

/// One instant of the simulation, as the overlay sees it: the current time
/// and the answers to the queries the overlay may pose. Lookup lists are
/// searched front to back; the first matching entry wins.
#[derive(Clone, Debug)]
pub struct SimulationView {
    /// The simulation's current time.
    pub time: Tick,
    /// For each trip, the agent currently carrying it out.
    pub trip_agents: Vec<(TripID, AgentID)>,
    /// For each agent, the trip it belongs to.
    pub agent_trips: Vec<(AgentID, TripID)>,
    /// For each agent with a current position, its full-route trace.
    pub agent_traces: Vec<(AgentID, Trace)>,
    /// The trips the simulation tracks a canonical point for, in the order
    /// one debug refresh enumerates them.
    pub live_trips: Vec<TripID>,
}

/// The mathematical model of a [`SimulationView`].
pub struct SimModel {
    pub time: Tick,
    pub trip_agents: Seq<(TripID, AgentID)>,
    pub agent_trips: Seq<(AgentID, TripID)>,
    pub agent_traces: Seq<(AgentID, Seq<Position>)>,
    pub live_trips: Seq<TripID>,
}

impl View for SimulationView {
    type V = SimModel;

    open spec fn view(&self) -> SimModel {
        SimModel {
            time: self.time,
            trip_agents: self.trip_agents@,
            agent_trips: self.agent_trips@,
            agent_traces: self.agent_traces@.map_values(|p: (AgentID, Trace)| (p.0, p.1@)),
            live_trips: self.live_trips@,
        }
    }
}

/// First-match lookup in an association list, starting at index `i`.
pub open spec fn assoc_find<K, V>(s: Seq<(K, V)>, key: K, i: int) -> Option<V>
    decreases s.len() - i,
{
    if i < 0 || i >= s.len() {
        None
    } else if s[i].0 == key {
        Some(s[i].1)
    } else {
        assoc_find(s, key, i + 1)
    }
}

/// The agent currently carrying out `trip`, if any.
pub open spec fn trip_agent_of(m: SimModel, trip: TripID) -> Option<AgentID> {
    assoc_find(m.trip_agents, trip, 0)
}

/// The trip `agent` belongs to, if any.
pub open spec fn agent_trip_of(m: SimModel, agent: AgentID) -> Option<TripID> {
    assoc_find(m.agent_trips, agent, 0)
}

/// The full-route trace of `agent`, if it has a current position.
pub open spec fn trace_of(m: SimModel, agent: AgentID) -> Option<Seq<Position>> {
    assoc_find(m.agent_traces, agent, 0)
}

impl SimulationView {
    /// The agent currently carrying out `trip`, if any.
    pub fn trip_to_agent(&self, trip: TripID) -> (r: Option<AgentID>)
        ensures
            r == trip_agent_of(self@, trip),
    {
        let mut i: usize = 0;
        while i < self.trip_agents.len()
            invariant
                0 <= i <= self.trip_agents@.len(),
                trip_agent_of(self@, trip) == assoc_find(self@.trip_agents, trip, i as int),
            decreases self.trip_agents@.len() - i,
        {
            let (t, a) = self.trip_agents[i];
            if t == trip {
                return Some(a);
            }
            i += 1;
        }
        None
    }

    /// The trip `agent` belongs to, if any.
    pub fn agent_to_trip(&self, agent: AgentID) -> (r: Option<TripID>)
        ensures
            r == agent_trip_of(self@, agent),
    {
        let mut i: usize = 0;
        while i < self.agent_trips.len()
            invariant
                0 <= i <= self.agent_trips@.len(),
                agent_trip_of(self@, agent) == assoc_find(self@.agent_trips, agent, i as int),
            decreases self.agent_trips@.len() - i,
        {
            let (a, t) = self.agent_trips[i];
            if a == agent {
                return Some(t);
            }
            i += 1;
        }
        None
    }

    /// The full trace along `agent`'s route, if the agent has a current
    /// position; the whole route is traced, never a prefix.
    pub fn trace_route(&self, agent: AgentID) -> (r: Option<Trace>)
        ensures
            match r {
                Some(t) => trace_of(self@, agent) == Some(t@),
                None => trace_of(self@, agent) is None,
            },
    {
        let mut i: usize = 0;
        while i < self.agent_traces.len()
            invariant
                0 <= i <= self.agent_traces@.len(),
                trace_of(self@, agent) == assoc_find(self@.agent_traces, agent, i as int),
            decreases self.agent_traces@.len() - i,
        {
            let pair = &self.agent_traces[i];
            proof {
                assert(self@.agent_traces[i as int] == (pair.0, pair.1@));
            }
            if pair.0 == agent {
                return Some(pair.1.duplicate());
            }
            i += 1;
        }
        None
    }
}

} // verus!
