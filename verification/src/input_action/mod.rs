//! Turning per-tick snapshots of input into started / current / stopped
//! sets and into a single acting input.

pub mod condition;
pub mod delta_set;
pub mod input_queue;
pub mod multi_action;
pub mod multi_actor_action;
pub mod pick;
pub mod simple_action;
pub mod single_action;
pub mod single_actor_action;
pub mod uid_set;

pub use delta_set::{Delta, DeltaSet};
pub use input_queue::{InputDatum, InputKind, InputQueue};
pub use multi_action::{Engagement, MultiAction};
pub use multi_actor_action::MultiActorAction;
pub use simple_action::SimpleAction;
pub use single_action::{Acting, SingleAction};
pub use single_actor_action::{Arbitration, SingleActorAction};
