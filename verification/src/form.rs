//! The submission controller: what a submit event and the answers of the
//! login operation and of the navigation do to the form, and what the caller
//! has to perform next.
//!
//! The controller performs nothing itself. Each event gives a new state and
//! the [`Action`]s that the caller has to carry out, in their order; the
//! caller reports the result of an action as the next event.

use crate::error_display::ErrorDisplay;
use crate::field::{FieldState, FieldView, Revalidation, Rule};
use crate::validators::{is_email, is_password};
use vstd::prelude::*;

verus! {

/// The message shown when a submission is held back by the guard.
pub const INVALID_INPUT_MESSAGE: &'static str = "Please provide a valid email and password!";

/// The path that the browser is sent to after a successful login.
pub const DESTINATION: &'static str = "/error";

/// The condition under which a submission goes on to the login operation.
#[derive(Clone, Copy, Debug, PartialEq, Eq, Structural)]
pub enum Guard {
    /// Every submission goes on.
    AlwaysPass,
    /// A submission goes on only while both fields are flagged valid.
    RequireValid,
}

/// How far the latest submission has come.
#[derive(Clone, Copy, Debug, PartialEq, Eq, Structural)]
pub enum Phase {
    /// No login is under way: nothing was submitted yet, or the latest
    /// submission was held back by the guard.
    Idle,
    /// The login operation was asked for and has not answered.
    Pending,
    /// The login operation answered with success.
    Success,
    /// The login operation answered with a failure.
    Failed,
}

/// What the login operation is called with.
#[derive(Debug, PartialEq, Eq)]
pub struct Credentials {
    pub email: String,
    pub password: String,
}

/// The mathematical content of [`Credentials`].
pub struct CredentialsView {
    pub email: Seq<char>,
    pub password: Seq<char>,
}

impl View for Credentials {
    type V = CredentialsView;

    open spec fn view(&self) -> CredentialsView {
        CredentialsView { email: self.email@, password: self.password@ }
    }
}

impl Clone for Credentials {
    fn clone(&self) -> (copy: Credentials)
        ensures
            copy@ == self@,
    {
        Credentials { email: self.email.clone(), password: self.password.clone() }
    }
}

/// One thing that the caller has to perform after an event.
#[derive(Debug, PartialEq, Eq)]
pub enum Action {
    /// Keep the browser from handling the event in its own way.
    SuppressDefault,
    /// Call the login operation with these credentials.
    Login(Credentials),
    /// Send the browser to this path.
    Navigate(String),
}

/// The mathematical content of an [`Action`].
pub enum ActionView {
    SuppressDefault,
    Login(CredentialsView),
    Navigate(Seq<char>),
}

impl View for Action {
    type V = ActionView;

    open spec fn view(&self) -> ActionView {
        match self {
            Action::SuppressDefault => ActionView::SuppressDefault,
            Action::Login(credentials) => ActionView::Login(credentials@),
            Action::Navigate(path) => ActionView::Navigate(path@),
        }
    }
}

/// `actions` are the actions `asked`, one by one and in the same order.
pub open spec fn carries(actions: Seq<Action>, asked: Seq<ActionView>) -> bool {
    &&& actions.len() == asked.len()
    &&& forall|i: int| 0 <= i < actions.len() ==> (#[trigger] actions[i])@ == asked[i]
}

/// What can happen to the form.
#[derive(Debug, PartialEq, Eq)]
pub enum Event {
    /// The user changed the text of the email input.
    EmailInput(String),
    /// The user changed the text of the password input.
    PasswordInput(String),
    /// The user submitted the form.
    Submit,
    /// The login operation answered: with success, or with a message.
    LoginResolved(Result<(), String>),
    /// The navigation answered: with success, or with a message.
    NavigationResolved(Result<(), String>),
}

/// The mathematical content of an [`Event`]. An answer is `None` for success
/// and the message of the failure otherwise.
pub enum EventView {
    EmailInput(Seq<char>),
    PasswordInput(Seq<char>),
    Submit,
    LoginResolved(Option<Seq<char>>),
    NavigationResolved(Option<Seq<char>>),
}

/// The message of a failure, if `outcome` is one.
pub open spec fn failure_of(outcome: Result<(), String>) -> Option<Seq<char>> {
    match outcome {
        Ok(_) => None,
        Err(message) => Some(message@),
    }
}

impl View for Event {
    type V = EventView;

    open spec fn view(&self) -> EventView {
        match self {
            Event::EmailInput(text) => EventView::EmailInput(text@),
            Event::PasswordInput(text) => EventView::PasswordInput(text@),
            Event::Submit => EventView::Submit,
            Event::LoginResolved(outcome) => EventView::LoginResolved(failure_of(*outcome)),
            Event::NavigationResolved(outcome) => EventView::NavigationResolved(
                failure_of(*outcome),
            ),
        }
    }
}

/// The mathematical content of a [`LoginForm`].
pub struct FormView {
    pub guard: Guard,
    pub phase: Phase,
    pub email: FieldView,
    pub password: FieldView,
    pub error: Seq<char>,
}

impl FormView {
    /// The form as it is first shown: both fields empty, nothing to report.
    pub open spec fn fresh(guard: Guard, revalidation: Revalidation) -> FormView {
        FormView {
            guard,
            phase: Phase::Idle,
            email: FieldView::fresh(Rule::Email, revalidation),
            password: FieldView::fresh(Rule::Password, revalidation),
            error: Seq::empty(),
        }
    }

    /// Each field is held to its own rule, and a flag that was computed says
    /// what that rule says.
    pub open spec fn well_formed(self) -> bool {
        &&& self.email.rule == Rule::Email
        &&& self.password.rule == Rule::Password
        &&& self.email.consistent()
        &&& self.password.consistent()
    }

    /// Whether a submission would go on to the login operation.
    pub open spec fn passes_guard(self) -> bool {
        match self.guard {
            Guard::AlwaysPass => true,
            Guard::RequireValid => self.email.valid && self.password.valid,
        }
    }

    /// The credentials as the fields hold them, each read from its own field.
    pub open spec fn credentials(self) -> CredentialsView {
        CredentialsView { email: self.email.value, password: self.password.value }
    }

    /// The form with `message` shown.
    pub open spec fn with_error(self, message: Seq<char>) -> FormView {
        FormView { error: message, ..self }
    }

    /// The form in phase `phase`.
    pub open spec fn in_phase(self, phase: Phase) -> FormView {
        FormView { phase, ..self }
    }

    /// The form whose email field takes over `value` and `valid`.
    pub open spec fn with_email(self, value: Seq<char>, valid: bool) -> FormView {
        FormView {
            email: FieldView::unchecked(Rule::Email, self.email.revalidation, value, valid),
            ..self
        }
    }

    /// The form whose password field takes over `value` and `valid`.
    pub open spec fn with_password(self, value: Seq<char>, valid: bool) -> FormView {
        FormView {
            password: FieldView::unchecked(
                Rule::Password,
                self.password.revalidation,
                value,
                valid,
            ),
            ..self
        }
    }

    /// The form after `next` was entered as the email.
    pub open spec fn set_email(self, next: Seq<char>) -> FormView {
        FormView { email: self.email.set_value(next), ..self }
    }

    /// The form after `next` was entered as the password.
    pub open spec fn set_password(self, next: Seq<char>) -> FormView {
        FormView { password: self.password.set_value(next), ..self }
    }

    /// A submission. The browser's own handling of the event is suppressed
    /// first. Then, where the guard lets the submission pass, the login
    /// operation is to be called with the credentials, and nothing else
    /// changes. Where it does not, the fixed message is shown and nothing is
    /// to be called.
    pub open spec fn submit(self) -> (FormView, Seq<ActionView>) {
        if self.passes_guard() {
            (
                self.in_phase(Phase::Pending),
                seq![ActionView::SuppressDefault, ActionView::Login(self.credentials())],
            )
        } else {
            (
                self.in_phase(Phase::Idle).with_error(INVALID_INPUT_MESSAGE@),
                seq![ActionView::SuppressDefault],
            )
        }
    }

    /// The answer of the login operation. Success sends the browser to the
    /// destination and leaves the message alone; a failure shows its message
    /// as it came.
    pub open spec fn login_resolved(self, failure: Option<Seq<char>>) -> (
        FormView,
        Seq<ActionView>,
    ) {
        match failure {
            None => (self.in_phase(Phase::Success), seq![ActionView::Navigate(DESTINATION@)]),
            Some(message) => (self.in_phase(Phase::Failed).with_error(message), seq![]),
        }
    }

    /// The answer of the navigation. A failure shows its message.
    pub open spec fn navigation_resolved(self, failure: Option<Seq<char>>) -> FormView {
        match failure {
            None => self,
            Some(message) => self.with_error(message),
        }
    }

    /// The form after `event`, and what is to be performed, in this order.
    pub open spec fn step(self, event: EventView) -> (FormView, Seq<ActionView>) {
        match event {
            EventView::EmailInput(text) => (self.set_email(text), seq![]),
            EventView::PasswordInput(text) => (self.set_password(text), seq![]),
            EventView::Submit => self.submit(),
            EventView::LoginResolved(failure) => self.login_resolved(failure),
            EventView::NavigationResolved(failure) => (self.navigation_resolved(failure), seq![]),
        }
    }
}

/// A sign-in form: the two fields, the message shown, and the state of the
/// latest submission.
#[derive(Debug)]
pub struct LoginForm {
    guard: Guard,
    phase: Phase,
    email: FieldState,
    password: FieldState,
    error: ErrorDisplay,
}

impl View for LoginForm {
    type V = FormView;

    closed spec fn view(&self) -> FormView {
        FormView {
            guard: self.guard,
            phase: self.phase,
            email: self.email@,
            password: self.password@,
            error: self.error@,
        }
    }
}

impl LoginForm {
    #[verifier::type_invariant]
    spec fn well_formed(self) -> bool {
        self@.well_formed()
    }

    /// The form as it is first shown.
    pub fn new(guard: Guard, revalidation: Revalidation) -> (form: LoginForm)
        ensures
            form@ == FormView::fresh(guard, revalidation),
            form@.well_formed(),
    {
        LoginForm {
            guard,
            phase: Phase::Idle,
            email: FieldState::new(Rule::Email, revalidation),
            password: FieldState::new(Rule::Password, revalidation),
            error: ErrorDisplay::new(),
        }
    }

    /// The form that guards on validity and revalidates each field on input.
    pub fn validating() -> (form: LoginForm)
        ensures
            form@ == FormView::fresh(Guard::RequireValid, Revalidation::OnInput),
    {
        LoginForm::new(Guard::RequireValid, Revalidation::OnInput)
    }

    /// The form that never validates and lets every submission pass.
    pub fn unguarded() -> (form: LoginForm)
        ensures
            form@ == FormView::fresh(Guard::AlwaysPass, Revalidation::Never),
    {
        LoginForm::new(Guard::AlwaysPass, Revalidation::Never)
    }

    /// The same form, with an email field that takes over a value and a flag
    /// kept elsewhere.
    pub fn with_email(self, value: String, valid: bool) -> (form: LoginForm)
        ensures
            form@ == self@.with_email(value@, valid),
            form@.well_formed(),
    {
        proof {
            use_type_invariant(&self);
        }
        let email = FieldState::from_parts(Rule::Email, self.email.revalidation(), value, valid);
        LoginForm { email, ..self }
    }

    /// The same form, with a password field that takes over a value and a
    /// flag kept elsewhere.
    pub fn with_password(self, value: String, valid: bool) -> (form: LoginForm)
        ensures
            form@ == self@.with_password(value@, valid),
            form@.well_formed(),
    {
        proof {
            use_type_invariant(&self);
        }
        let password = FieldState::from_parts(
            Rule::Password,
            self.password.revalidation(),
            value,
            valid,
        );
        LoginForm { password, ..self }
    }

    /// The same form, showing `message`.
    pub fn with_error(self, message: String) -> (form: LoginForm)
        ensures
            form@ == self@.with_error(message@),
            form@.well_formed(),
    {
        proof {
            use_type_invariant(&self);
        }
        LoginForm { error: ErrorDisplay::showing(message), ..self }
    }

    /// The user entered `next` as the email.
    pub fn set_email(&mut self, next: String)
        ensures
            final(self)@ == old(self)@.set_email(next@),
            final(self)@.well_formed(),
    {
        proof {
            use_type_invariant(&*self);
        }
        self.email = self.email.with_value(next);
    }

    /// The user entered `next` as the password.
    pub fn set_password(&mut self, next: String)
        ensures
            final(self)@ == old(self)@.set_password(next@),
            final(self)@.well_formed(),
    {
        proof {
            use_type_invariant(&*self);
        }
        self.password = self.password.with_value(next);
    }

    /// Whether a submission would go on to the login operation.
    pub fn passes_guard(&self) -> (passes: bool)
        ensures
            passes == self@.passes_guard(),
            self@.well_formed(),
    {
        proof {
            use_type_invariant(self);
        }
        match self.guard {
            Guard::AlwaysPass => true,
            Guard::RequireValid => self.email.is_valid() && self.password.is_valid(),
        }
    }

    /// The user submitted the form.
    pub fn submit(&mut self) -> (actions: Vec<Action>)
        ensures
            final(self)@ == old(self)@.submit().0,
            carries(actions@, old(self)@.submit().1),
            final(self)@.well_formed(),
    {
        proof {
            use_type_invariant(&*self);
        }
        let mut actions = Vec::new();
        actions.push(Action::SuppressDefault);
        if self.passes_guard() {
            self.phase = Phase::Pending;
            actions.push(
                Action::Login(
                    Credentials {
                        email: self.email.current_value().to_owned(),
                        password: self.password.current_value().to_owned(),
                    },
                ),
            );
        } else {
            self.phase = Phase::Idle;
            self.error = ErrorDisplay::showing(INVALID_INPUT_MESSAGE.to_owned());
        }
        actions
    }

    /// The login operation answered.
    pub fn login_resolved(&mut self, outcome: Result<(), String>) -> (actions: Vec<Action>)
        ensures
            final(self)@ == old(self)@.login_resolved(failure_of(outcome)).0,
            carries(actions@, old(self)@.login_resolved(failure_of(outcome)).1),
            final(self)@.well_formed(),
    {
        proof {
            use_type_invariant(&*self);
        }
        let mut actions = Vec::new();
        match outcome {
            Ok(_) => {
                self.phase = Phase::Success;
                actions.push(Action::Navigate(DESTINATION.to_owned()));
            },
            Err(message) => {
                self.phase = Phase::Failed;
                self.error = ErrorDisplay::showing(message);
            },
        }
        actions
    }

    /// The navigation answered.
    pub fn navigation_resolved(&mut self, outcome: Result<(), String>)
        ensures
            final(self)@ == old(self)@.navigation_resolved(failure_of(outcome)),
            final(self)@.well_formed(),
    {
        proof {
            use_type_invariant(&*self);
        }
        match outcome {
            Ok(_) => {},
            Err(message) => {
                self.error = ErrorDisplay::showing(message);
            },
        }
    }

    /// Takes `event` in and says what is to be performed, in this order.
    pub fn handle(&mut self, event: Event) -> (actions: Vec<Action>)
        ensures
            final(self)@ == old(self)@.step(event@).0,
            carries(actions@, old(self)@.step(event@).1),
            final(self)@.well_formed(),
    {
        let actions = match event {
            Event::EmailInput(text) => {
                self.set_email(text);
                Vec::new()
            },
            Event::PasswordInput(text) => {
                self.set_password(text);
                Vec::new()
            },
            Event::Submit => self.submit(),
            Event::LoginResolved(outcome) => self.login_resolved(outcome),
            Event::NavigationResolved(outcome) => {
                self.navigation_resolved(outcome);
                Vec::new()
            },
        };
        actions
    }

    /// The state of the email input.
    pub fn email(&self) -> (field: &FieldState)
        ensures
            field@ == self@.email,
    {
        &self.email
    }

    /// The state of the password input.
    pub fn password(&self) -> (field: &FieldState)
        ensures
            field@ == self@.password,
    {
        &self.password
    }

    /// The message shown.
    pub fn error(&self) -> (display: &ErrorDisplay)
        ensures
            display@ == self@.error,
    {
        &self.error
    }

    /// The guard that submissions pass through.
    pub fn guard(&self) -> (guard: Guard)
        ensures
            guard == self@.guard,
    {
        self.guard
    }

    /// How far the latest submission has come.
    pub fn phase(&self) -> (phase: Phase)
        ensures
            phase == self@.phase,
    {
        self.phase
    }
}

/// Every event leaves each field held to its own rule and each computed flag
/// true to its value.
pub proof fn lemma_step_keeps_well_formed(form: FormView, event: EventView)
    requires
        form.well_formed(),
    ensures
        form.step(event).0.well_formed(),
{
}

/// What an event asks for is one of four things: nothing; to suppress the
/// default; to suppress the default and then to call the login operation; or
/// to go to the destination. So the login operation is asked for at most once
/// per event, by a submission that passes the guard and by nothing else, and
/// the browser is sent away at most once, by a successful login and by
/// nothing else.
pub proof fn lemma_actions_have_one_cause(form: FormView, event: EventView)
    ensures
        ({
            let asked = form.step(event).1;
            if event is Submit && form.passes_guard() {
                asked == seq![ActionView::SuppressDefault, ActionView::Login(form.credentials())]
            } else if event is Submit {
                asked == seq![ActionView::SuppressDefault]
            } else if event == EventView::LoginResolved(None) {
                asked == seq![ActionView::Navigate(DESTINATION@)]
            } else {
                asked == Seq::<ActionView>::empty()
            }
        }),
{
}

/// With the guard on validity and fields that revalidate on input, what was
/// entered passes the guard exactly if the email is an address and the
/// password is not empty.
pub proof fn lemma_guard_follows_rules(form: FormView, email: Seq<char>, password: Seq<char>)
    requires
        form.well_formed(),
        form.guard == Guard::RequireValid,
        form.email.revalidation == Revalidation::OnInput,
        form.password.revalidation == Revalidation::OnInput,
    ensures
        form.set_email(email).set_password(password).passes_guard() == (is_email(email)
            && is_password(password)),
{
}

/// A submission that passes the guard asks for the login operation, once,
/// with the email from the email field and the password from the password
/// field, and leaves fields and message as they were.
pub proof fn lemma_submit_sends_fields(form: FormView)
    requires
        form.passes_guard(),
    ensures
        form.submit().1 == seq![
            ActionView::SuppressDefault,
            ActionView::Login(
                CredentialsView { email: form.email.value, password: form.password.value },
            ),
        ],
        form.submit().0 == form.in_phase(Phase::Pending),
{
}

/// A submission that the guard holds back does not ask for the login
/// operation, shows the fixed message and leaves the fields as they were.
pub proof fn lemma_submit_held_back(form: FormView)
    requires
        !form.passes_guard(),
    ensures
        form.submit().1 == seq![ActionView::SuppressDefault],
        form.submit().0.error == INVALID_INPUT_MESSAGE@,
        form.submit().0.email == form.email,
        form.submit().0.password == form.password,
{
}

/// With the guard on validity, a field whose flag was computed from a text
/// that its rule refuses is enough to hold a submission back: the login
/// operation is not asked for, and the fixed message is shown.
pub proof fn lemma_invalid_input_held_back(form: FormView)
    requires
        form.well_formed(),
        form.guard == Guard::RequireValid,
        (form.email.checked && !is_email(form.email.value)) || (form.password.checked
            && !is_password(form.password.value)),
    ensures
        form.submit().1 == seq![ActionView::SuppressDefault],
        form.submit().0.error == INVALID_INPUT_MESSAGE@,
{
}

/// A failed login shows the message of the failure as it came, and asks for
/// nothing.
pub proof fn lemma_failure_is_shown(form: FormView, message: Seq<char>)
    ensures
        form.login_resolved(Some(message)).0.error == message,
        form.login_resolved(Some(message)).1 == Seq::<ActionView>::empty(),
{
}

/// A successful login sends the browser to the destination, once, and leaves
/// the message as it was.
pub proof fn lemma_success_navigates(form: FormView)
    ensures
        form.login_resolved(None).1 == seq![ActionView::Navigate(DESTINATION@)],
        form.login_resolved(None).0.error == form.error,
        form.login_resolved(None).0 == form.in_phase(Phase::Success),
{
}

/// Entering the same email, or the same password, twice is the same as
/// entering it once.
pub proof fn lemma_input_idempotent(form: FormView, text: Seq<char>)
    ensures
        form.set_email(text).set_email(text) == form.set_email(text),
        form.set_password(text).set_password(text) == form.set_password(text),
{
}

} // verus!
