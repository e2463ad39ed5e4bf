use vstd::prelude::*;

pub mod capacity;
pub mod engine;
pub mod error;
pub mod factory;
pub mod laws;
pub mod ledger;
pub mod principal;
pub mod roles;
pub mod window;

pub use capacity::Capacity;
pub use engine::{Command, SpotEvent};
pub use error::{SpotEventError, SpotFactoryError};
pub use factory::{EventInfo, SpotFactory};
pub use ledger::{ClaimLedger, ClaimRecord};
pub use principal::Principal;
pub use roles::{Grant, Role, RoleRegistry};
pub use window::ClaimWindow;

verus! {

} // verus!
