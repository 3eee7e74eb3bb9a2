use show_route::ids::{AgentID, EntityID, Position, Tick, Trace, TripID};
use show_route::sim_view::{InputState, SimulationView};
use show_route::state::{debug_all_routes, show_route, ShowRouteState};

fn pt(x: i64, y: i64) -> Position {
    Position { x, y }
}

fn trace(points: Vec<Position>) -> Trace {
    Trace { points }
}

fn quiet_input() -> InputState {
    InputState {
        current_selection: None,
        show_route_pressed: false,
        stop_pressed: false,
        debug_all_pressed: false,
    }
}

fn empty_sim(time: u64) -> SimulationView {
    SimulationView {
        time: Tick(time),
        trip_agents: vec![],
        agent_trips: vec![],
        agent_traces: vec![],
        live_trips: vec![],
    }
}

#[test]
fn new_starts_inactive() {
    let state = ShowRouteState::new();
    assert_eq!(state, ShowRouteState::Inactive);
    assert_eq!(state.new_draw(), Vec::<Trace>::new());
}

#[test]
fn show_route_key_activates_from_inactive() {
    let mut sim = empty_sim(5);
    sim.trip_agents.push((TripID(7), AgentID(3)));
    sim.agent_trips.push((AgentID(3), TripID(7)));
    sim.agent_traces
        .push((AgentID(3), trace(vec![pt(1, 2), pt(3, 4)])));

    let mut state = ShowRouteState::new();
    let input = InputState {
        current_selection: Some(EntityID::Agent(AgentID(3))),
        show_route_pressed: true,
        ..quiet_input()
    };
    state.ambient_event(&input, &sim);
    assert_eq!(
        state,
        ShowRouteState::Active(Tick(5), TripID(7), Some(trace(vec![pt(1, 2), pt(3, 4)])))
    );
}

#[test]
fn show_route_without_agent_is_active_with_absent_trace() {
    let sim = empty_sim(9);
    let state = show_route(TripID(7), &sim);
    assert_eq!(state, ShowRouteState::Active(Tick(9), TripID(7), None));
    assert_eq!(state.new_draw(), Vec::<Trace>::new());
}

#[test]
fn show_route_without_trace_is_active_with_absent_trace() {
    let mut sim = empty_sim(9);
    sim.trip_agents.push((TripID(7), AgentID(3)));
    let state = show_route(TripID(7), &sim);
    assert_eq!(state, ShowRouteState::Active(Tick(9), TripID(7), None));
    assert_eq!(state.new_draw(), Vec::<Trace>::new());
}

#[test]
fn no_op_within_same_tick() {
    let mut sim = empty_sim(5);
    sim.trip_agents.push((TripID(7), AgentID(3)));
    sim.agent_traces.push((AgentID(3), trace(vec![pt(0, 0)])));

    let mut state =
        ShowRouteState::Active(Tick(5), TripID(7), Some(trace(vec![pt(8, 8)])));
    let before = state.clone();
    state.ambient_event(&quiet_input(), &sim);
    assert_eq!(state, before);
}

#[test]
fn refresh_on_time_change_keeps_trip_and_requeries() {
    let mut sim = empty_sim(6);
    sim.trip_agents.push((TripID(7), AgentID(3)));
    sim.agent_traces
        .push((AgentID(3), trace(vec![pt(10, 10), pt(20, 20)])));

    let mut state =
        ShowRouteState::Active(Tick(5), TripID(7), Some(trace(vec![pt(0, 0)])));
    state.ambient_event(&quiet_input(), &sim);
    assert_eq!(
        state,
        ShowRouteState::Active(
            Tick(6),
            TripID(7),
            Some(trace(vec![pt(10, 10), pt(20, 20)]))
        )
    );
}

#[test]
fn refresh_keeps_trip_when_its_agent_is_gone() {
    let sim = empty_sim(6);
    let mut state =
        ShowRouteState::Active(Tick(5), TripID(7), Some(trace(vec![pt(0, 0)])));
    state.ambient_event(&quiet_input(), &sim);
    assert_eq!(state, ShowRouteState::Active(Tick(6), TripID(7), None));
}

#[test]
fn stop_always_wins_from_active() {
    let mut sim = empty_sim(6);
    sim.trip_agents.push((TripID(7), AgentID(3)));
    sim.agent_traces.push((AgentID(3), trace(vec![pt(0, 0)])));

    let mut state = ShowRouteState::Active(Tick(5), TripID(7), None);
    let input = InputState {
        stop_pressed: true,
        debug_all_pressed: true,
        ..quiet_input()
    };
    state.ambient_event(&input, &sim);
    assert_eq!(state, ShowRouteState::Inactive);
}

#[test]
fn stop_from_debug_all_routes() {
    let sim = empty_sim(6);
    let mut state =
        ShowRouteState::DebugAllRoutes(Tick(5), vec![trace(vec![pt(0, 0)])]);
    let input = InputState {
        stop_pressed: true,
        ..quiet_input()
    };
    state.ambient_event(&input, &sim);
    assert_eq!(state, ShowRouteState::Inactive);
}

#[test]
fn debug_event_from_active_collects_all_routes() {
    let mut sim = empty_sim(5);
    sim.trip_agents.push((TripID(1), AgentID(11)));
    sim.trip_agents.push((TripID(2), AgentID(12)));
    sim.agent_traces.push((AgentID(11), trace(vec![pt(1, 1)])));
    sim.agent_traces.push((AgentID(12), trace(vec![pt(2, 2)])));
    sim.live_trips.push(TripID(1));
    sim.live_trips.push(TripID(2));

    let mut state = ShowRouteState::Active(Tick(5), TripID(1), None);
    let input = InputState {
        debug_all_pressed: true,
        ..quiet_input()
    };
    state.ambient_event(&input, &sim);
    assert_eq!(
        state,
        ShowRouteState::DebugAllRoutes(
            Tick(5),
            vec![trace(vec![pt(1, 1)]), trace(vec![pt(2, 2)])]
        )
    );
}

#[test]
fn debug_enumeration_collects_one_trace_per_trip_in_order() {
    let mut sim = empty_sim(4);
    for i in 1..=3u64 {
        sim.trip_agents.push((TripID(i), AgentID(10 + i)));
        sim.agent_traces
            .push((AgentID(10 + i), trace(vec![pt(i as i64, 0)])));
        sim.live_trips.push(TripID(i));
    }
    let state = debug_all_routes(&sim);
    assert_eq!(
        state,
        ShowRouteState::DebugAllRoutes(
            Tick(4),
            vec![
                trace(vec![pt(1, 0)]),
                trace(vec![pt(2, 0)]),
                trace(vec![pt(3, 0)])
            ]
        )
    );
}

#[test]
fn debug_enumeration_silently_skips_absent_traces() {
    let mut sim = empty_sim(4);
    // trip 1: agent and trace; trip 2: no agent; trip 3: agent, no trace
    sim.trip_agents.push((TripID(1), AgentID(11)));
    sim.trip_agents.push((TripID(3), AgentID(13)));
    sim.agent_traces.push((AgentID(11), trace(vec![pt(1, 1)])));
    sim.live_trips.push(TripID(1));
    sim.live_trips.push(TripID(2));
    sim.live_trips.push(TripID(3));

    let state = debug_all_routes(&sim);
    assert_eq!(
        state,
        ShowRouteState::DebugAllRoutes(Tick(4), vec![trace(vec![pt(1, 1)])])
    );
}

#[test]
fn debug_all_routes_refreshes_on_time_change() {
    let mut sim = empty_sim(8);
    sim.trip_agents.push((TripID(1), AgentID(11)));
    sim.agent_traces.push((AgentID(11), trace(vec![pt(5, 5)])));
    sim.live_trips.push(TripID(1));

    let mut state =
        ShowRouteState::DebugAllRoutes(Tick(7), vec![trace(vec![pt(0, 0)])]);
    state.ambient_event(&quiet_input(), &sim);
    assert_eq!(
        state,
        ShowRouteState::DebugAllRoutes(Tick(8), vec![trace(vec![pt(5, 5)])])
    );
}

#[test]
fn debug_all_routes_stays_put_within_the_same_tick() {
    let mut sim = empty_sim(7);
    sim.live_trips.push(TripID(1));
    let mut state =
        ShowRouteState::DebugAllRoutes(Tick(7), vec![trace(vec![pt(0, 0)])]);
    let before = state.clone();
    state.ambient_event(&quiet_input(), &sim);
    assert_eq!(state, before);
}

#[test]
fn selection_that_is_not_an_agent_never_activates() {
    let mut sim = empty_sim(5);
    sim.agent_trips.push((AgentID(3), TripID(7)));
    let mut state = ShowRouteState::new();
    let input = InputState {
        current_selection: Some(EntityID::NonAgent(42)),
        show_route_pressed: true,
        ..quiet_input()
    };
    state.ambient_event(&input, &sim);
    assert_eq!(state, ShowRouteState::Inactive);
}

#[test]
fn agent_without_a_trip_never_activates() {
    let sim = empty_sim(5);
    let mut state = ShowRouteState::new();
    let input = InputState {
        current_selection: Some(EntityID::Agent(AgentID(3))),
        show_route_pressed: true,
        ..quiet_input()
    };
    state.ambient_event(&input, &sim);
    assert_eq!(state, ShowRouteState::Inactive);
}

#[test]
fn without_the_key_press_nothing_activates() {
    let mut sim = empty_sim(5);
    sim.agent_trips.push((AgentID(3), TripID(7)));
    let mut state = ShowRouteState::new();
    let input = InputState {
        current_selection: Some(EntityID::Agent(AgentID(3))),
        ..quiet_input()
    };
    state.ambient_event(&input, &sim);
    assert_eq!(state, ShowRouteState::Inactive);
}

#[test]
fn new_draw_emits_the_single_cached_trace() {
    let state =
        ShowRouteState::Active(Tick(5), TripID(7), Some(trace(vec![pt(1, 2)])));
    assert_eq!(state.new_draw(), vec![trace(vec![pt(1, 2)])]);
}

#[test]
fn new_draw_emits_debug_traces_in_order() {
    let state = ShowRouteState::DebugAllRoutes(
        Tick(5),
        vec![trace(vec![pt(1, 1)]), trace(vec![pt(2, 2)]), trace(vec![])],
    );
    assert_eq!(
        state.new_draw(),
        vec![trace(vec![pt(1, 1)]), trace(vec![pt(2, 2)]), trace(vec![])]
    );
}

#[test]
fn duplicate_copies_a_trace_point_for_point() {
    let original = trace(vec![pt(1, 2), pt(3, 4), pt(5, 6)]);
    assert_eq!(original.duplicate(), original);
}

#[test]
fn lookups_take_the_first_match() {
    let mut sim = empty_sim(5);
    sim.trip_agents.push((TripID(7), AgentID(3)));
    sim.trip_agents.push((TripID(7), AgentID(4)));
    assert_eq!(sim.trip_to_agent(TripID(7)), Some(AgentID(3)));
    assert_eq!(sim.trip_to_agent(TripID(8)), None);
    assert_eq!(sim.agent_to_trip(AgentID(3)), None);
    assert_eq!(
        EntityID::Agent(AgentID(9)).agent_id(),
        Some(AgentID(9))
    );
    assert_eq!(EntityID::NonAgent(9).agent_id(), None);
}
