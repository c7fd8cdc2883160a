//! Planning for the `#[ethtest]` attribute: which test state a test function
//! runs on, and in which registry and under which name the test is listed.
//!
//! - [`signature`]: what the attribute reads of a test function, and the rule
//!   that picks its test state;
//! - [`naming`]: the name of the registry that collects the tests of a state;
//! - [`registration`]: the registration planned for a test function, and the
//!   laws that relate registrations.
pub mod item;
pub mod laws;
pub mod naming;
pub mod registration;
pub mod signature;

pub use item::plan_item;
pub use naming::registry_name;
pub use registration::{plan_registration, Registration};
pub use signature::{state_type_of, Param, ParamType, SignatureError, TestFn};
