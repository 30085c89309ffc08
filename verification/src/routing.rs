//! The routing model: connector choices, static algorithms, dynamic-routing
//! state and the per-strategy configurations.

pub mod algorithm;
pub mod analysis;
pub mod api;
pub mod connector_choice;
pub mod contract;
pub mod decision_engine;
pub mod dynamic;
pub mod elimination;
pub mod evaluate;
pub mod events;
pub mod merge;
pub mod program;
pub mod success_based;
pub mod value;
