//! Identifiers and the route trace the overlay caches.

use vstd::prelude::*;

verus! {

/// A simulation timestamp. The overlay compares ticks only for equality,
/// to detect that time has advanced since a trace was cached.
#[derive(Clone, Copy, PartialEq, Eq, Structural, Debug)]
pub struct Tick(pub u64);

/// Identifies a planned journey, independently of whether an agent is
/// currently carrying it out.
#[derive(Clone, Copy, PartialEq, Eq, Structural, Debug)]
pub struct TripID(pub u64);

/// Identifies a currently simulated moving entity.
#[derive(Clone, Copy, PartialEq, Eq, Structural, Debug)]
pub struct AgentID(pub u64);

/// A point along a route, in map coordinates.
#[derive(Clone, Copy, PartialEq, Eq, Structural, Debug)]
pub struct Position {
    pub x: i64,
    pub y: i64,
}

/// The path an agent's trip follows: an ordered run of positions,
/// convertible by the renderer into a drawable polygon.
#[derive(Clone, PartialEq, Eq, Debug)]
pub struct Trace {
    pub points: Vec<Position>,
}

impl View for Trace {
    type V = Seq<Position>;

    open spec fn view(&self) -> Seq<Position> {
        self.points@
    }
}

impl Trace {
    /// An owned copy of this trace, point for point.
    pub fn duplicate(&self) -> (r: Trace)
        ensures
            r@ == self@,
    {
        let mut points: Vec<Position> = Vec::new();
        let mut i: usize = 0;
        while i < self.points.len()
            invariant
                0 <= i <= self.points@.len(),
                points@ == self.points@.take(i as int),
            decreases self.points@.len() - i,
        {
            points.push(self.points[i]);
            proof {
                assert(points@ =~= self.points@.take(i + 1));
            }
            i += 1;
        }
        proof {
            assert(self.points@.take(self.points@.len() as int) =~= self.points@);
        }
        Trace { points }
    }
}

/// What the user currently has selected in the editor. Only selections that
/// are agents can start the route overlay; anything else is opaque here.
#[derive(Clone, Copy, PartialEq, Eq, Structural, Debug)]
pub enum EntityID {
    Agent(AgentID),
    NonAgent(u64),
}

impl EntityID {
    /// The agent behind this selection, if the selection is an agent at all.
    pub fn agent_id(&self) -> (r: Option<AgentID>)
        ensures
            r == spec_agent_id(*self),
    {
        match self {
            EntityID::Agent(a) => Some(*a),
            EntityID::NonAgent(_) => None,
        }
    }
}

/// The agent a selection resolves to, if any.
pub open spec fn spec_agent_id(e: EntityID) -> Option<AgentID> {
    match e {
        EntityID::Agent(a) => Some(a),
        EntityID::NonAgent(_) => None,
    }
}

} // verus!
