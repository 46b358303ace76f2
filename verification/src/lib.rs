//! State and decisions of a sign-in form: two validated fields, a single-slot
//! error message and the submission controller that drives a login attempt.

pub mod error_display;
pub mod field;
pub mod form;
pub mod validators;

pub use error_display::ErrorDisplay;
pub use field::{FieldState, Revalidation, Rule};
pub use form::{
    Action, Credentials, Event, Guard, LoginForm, Phase, DESTINATION, INVALID_INPUT_MESSAGE,
};
pub use validators::{matches_email, validate_email, validate_password};
