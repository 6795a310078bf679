use vstd::prelude::*;

pub mod ticker;
pub mod timestamp;
pub mod config;
pub mod price;
pub mod performance_indicators;
pub mod messages;
pub mod fetch_actor;
pub mod deque_actor;
pub mod performance_actor;
pub mod output_actor;

verus! {

/// The text of each string, in order.
pub open spec fn texts(strings: Seq<String>) -> Seq<Seq<char>> {
    strings.map_values(|s: String| s@)
}

} // verus!
