//! The standard effects and the hardware waveforms they are played with.

use vstd::prelude::*;
use crate::output::Action;

verus! {

/// A single click.
pub const CLICK: i32 = 0;
/// A double click.
pub const DOUBLE_CLICK: i32 = 1;
/// A light tick.
pub const TICK: i32 = 2;
/// A soft, low thud.
pub const THUD: i32 = 3;
/// A pop.
pub const POP: i32 = 4;
/// A heavy click.
pub const HEAVY_CLICK: i32 = 5;
/// A tick for textures.
pub const TEXTURE_TICK: i32 = 21;

/// The hardware waveform an effect is played with, and for how long.
#[derive(Clone, Copy, Debug, PartialEq, Eq, Structural)]
pub struct Route {
    /// The driver's predefined waveform.
    pub index: u32,
    /// Milliseconds the motor runs.
    pub duration: u32,
}

/// The route of each effect the hardware plays; `None` for the others.
pub open spec fn route_of(effect: i32) -> Option<Route> {
    if effect == TICK {
        Some(Route { index: 1, duration: 10 })
    } else if effect == CLICK {
        Some(Route { index: 2, duration: 15 })
    } else if effect == TEXTURE_TICK {
        Some(Route { index: 4, duration: 20 })
    } else if effect == HEAVY_CLICK {
        Some(Route { index: 5, duration: 30 })
    } else if effect == DOUBLE_CLICK {
        Some(Route { index: 6, duration: 60 })
    } else if effect == THUD {
        Some(Route { index: 7, duration: 35 })
    } else if effect == POP {
        Some(Route { index: 1, duration: 15 })
    } else {
        None
    }
}

/// Playing a route: select its waveform, then run the motor for its duration.
pub open spec fn route_actions(r: Route) -> Seq<Action> {
    seq![Action::SetIndex(r.index), Action::On(r.duration)]
}

/// The route of `effect`, if the hardware plays it.
pub fn route(effect: i32) -> (r: Option<Route>)
    ensures
        r == route_of(effect),
        r is Some <==> (effect == 0 || effect == 1 || effect == 2 || effect == 3 || effect == 4
            || effect == 5 || effect == 21),
{
    match effect {
        TICK => Some(Route { index: 1, duration: 10 }),
        CLICK => Some(Route { index: 2, duration: 15 }),
        TEXTURE_TICK => Some(Route { index: 4, duration: 20 }),
        HEAVY_CLICK => Some(Route { index: 5, duration: 30 }),
        DOUBLE_CLICK => Some(Route { index: 6, duration: 60 }),
        THUD => Some(Route { index: 7, duration: 35 }),
        POP => Some(Route { index: 1, duration: 15 }),
        _ => None,
    }
}

/// Exactly seven effects have a waveform: click (0), double click (1),
/// tick (2), thud (3), pop (4), heavy click (5) and texture tick (21); each
/// runs for a positive time on a waveform index between 1 and 7.
pub proof fn lemma_routed_effects(effect: i32)
    ensures
        route_of(effect) is Some <==> (effect == 0 || effect == 1 || effect == 2 || effect == 3
            || effect == 4 || effect == 5 || effect == 21),
        route_of(effect) matches Some(r) ==> 1 <= r.index <= 7 && r.duration > 0,
{
}

/// The actions that play a route.
pub fn play_route(r: Route) -> (actions: Vec<Action>)
    ensures
        actions@ == route_actions(r),
{
    let mut actions = Vec::new();
    actions.push(Action::SetIndex(r.index));
    actions.push(Action::On(r.duration));
    actions
}

} // verus!
