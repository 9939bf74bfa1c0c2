//! Cycle forward, backward, or jump through a fixed list of values while
//! keeping the current value, its index in the list, and the backing list
//! itself consistent under mutation of any of the three.
//!
//! The heart of the crate is [`cycle::UseCycleListReturn`], a controller that
//! owns the current value and the list snapshot it was selected from. Its
//! operations wrap around the ends of the list, and a "value not found"
//! answer from the position resolver falls back to a configured index.
//! The reactive plumbing that usually surrounds such a controller (observable
//! cells, derived cells, change watches) is deliberately not part of this
//! crate: a host wires the controller's methods to whatever cell type it has.

pub mod cycle;
pub mod laws;
pub mod position;
pub mod value;

pub use cycle::use_cycle_list;
pub use cycle::use_cycle_list_with_options;
pub use cycle::CycleModel;
pub use cycle::UseCycleListOptions;
pub use cycle::UseCycleListReturn;
pub use position::FirstMatch;
pub use position::NeverFound;
pub use position::PositionResolver;
pub use value::CycleValue;
