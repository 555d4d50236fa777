//! Where the overlay goes: the edges it sticks to, its distance from them, and the
//! monitor that shows it.

use crate::config::{Config, ConfigModel};
use vstd::prelude::*;

verus! {

/// What one edge of the screen means to the window.
#[derive(Clone, Copy, Debug, PartialEq, Eq)]
pub struct EdgePlan {
    /// Whether the window sticks to the edge.
    pub anchor: bool,
    /// The distance to keep from the edge; `None` leaves it as it is.
    pub margin: Option<i32>,
}

/// What the four edges mean to the window.
#[derive(Clone, Copy, Debug, PartialEq, Eq)]
pub struct WindowLayout {
    pub top: EdgePlan,
    pub bottom: EdgePlan,
    pub left: EdgePlan,
    pub right: EdgePlan,
}

/// The layout of the overlay: anchored to the bottom and the right edge as the
/// configuration says, never to the top or the left, with the margins that it gives.
pub open spec fn layout_of(config: ConfigModel) -> WindowLayout {
    WindowLayout {
        top: EdgePlan { anchor: false, margin: config.margin_top },
        bottom: EdgePlan { anchor: config.anchor_bottom, margin: config.margin_bottom },
        left: EdgePlan { anchor: false, margin: config.margin_left },
        right: EdgePlan { anchor: config.anchor_right, margin: config.margin_right },
    }
}

/// Whether `connector` is the connector `wanted`.
pub open spec fn is_wanted(connector: Option<String>, wanted: Seq<char>) -> bool {
    connector matches Some(name) && name@ == wanted
}

/// The layout of the overlay for `config`.
pub fn window_layout(config: &Config) -> (layout: WindowLayout)
    ensures
        layout == layout_of(config@),
{
    WindowLayout {
        top: EdgePlan { anchor: false, margin: config.margin_top },
        bottom: EdgePlan { anchor: config.anchor_bottom, margin: config.margin_bottom },
        left: EdgePlan { anchor: false, margin: config.margin_left },
        right: EdgePlan { anchor: config.anchor_right, margin: config.margin_right },
    }
}

/// Picks the monitor to show the overlay on: the first of `connectors`, the connector
/// names of the monitors in the display's order, that is the one `wanted`. A monitor
/// without a connector name is never picked, and without a wanted name none is.
pub fn pick_monitor(connectors: &Vec<Option<String>>, wanted: &Option<String>) -> (picked: Option<
    usize,
>)
    ensures
        match picked {
            Some(i) => wanted is Some && i < connectors.len() && is_wanted(
                connectors[i as int],
                wanted->0@,
            ) && forall|j: int| 0 <= j < i ==> !is_wanted(#[trigger] connectors[j], wanted->0@),
            None => wanted is None || forall|j: int|
                0 <= j < connectors.len() ==> !is_wanted(#[trigger] connectors[j], wanted->0@),
        },
{
    match wanted {
        None => None,
        Some(name) => {
            let mut i: usize = 0;
            while i < connectors.len()
                invariant
                    i <= connectors.len(),
                    wanted is Some,
                    wanted->0 == *name,
                    forall|j: int| 0 <= j < i ==> !is_wanted(#[trigger] connectors[j], name@),
                decreases connectors.len() - i,
            {
                match &connectors[i] {
                    Some(connector) => {
                        if *connector == *name {
                            assert(is_wanted(connectors[i as int], name@));
                            return Some(i);
                        }
                        assert(!is_wanted(connectors[i as int], name@));
                    },
                    None => {
                        assert(!is_wanted(connectors[i as int], name@));
                    },
                }
                i += 1;
            }
            None
        },
    }
}

} // verus!
