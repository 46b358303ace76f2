use login_form::{
    Action, Credentials, Event, Guard, LoginForm, Phase, Revalidation, DESTINATION,
    INVALID_INPUT_MESSAGE,
};

fn filled(email: &str, password: &str) -> LoginForm {
    let mut form = LoginForm::validating();
    form.set_email(email.to_string());
    form.set_password(password.to_string());
    form
}

fn login(email: &str, password: &str) -> Vec<Action> {
    vec![
        Action::SuppressDefault,
        Action::Login(Credentials { email: email.to_string(), password: password.to_string() }),
    ]
}

fn held_back() -> Vec<Action> {
    vec![Action::SuppressDefault]
}

fn nothing() -> Vec<Action> {
    Vec::new()
}

fn logins(actions: &[Action]) -> usize {
    actions.iter().filter(|action| matches!(action, Action::Login(_))).count()
}

#[test]
fn fixed_texts_are_as_documented() {
    assert_eq!(INVALID_INPUT_MESSAGE, "Please provide a valid email and password!");
    assert_eq!(DESTINATION, "/error");
}

#[test]
fn new_form_is_idle_and_empty() {
    let form = LoginForm::new(Guard::RequireValid, Revalidation::OnInput);
    assert_eq!(form.phase(), Phase::Idle);
    assert_eq!(form.guard(), Guard::RequireValid);
    assert_eq!(form.email().current_value(), "");
    assert_eq!(form.password().current_value(), "");
    assert!(form.email().is_valid());
    assert!(form.password().is_valid());
    assert!(form.error().is_empty());

    let unguarded = LoginForm::unguarded();
    assert_eq!(unguarded.guard(), Guard::AlwaysPass);
    assert_eq!(unguarded.email().revalidation(), Revalidation::Never);
    let validating = LoginForm::validating();
    assert_eq!(validating.guard(), Guard::RequireValid);
    assert_eq!(validating.password().revalidation(), Revalidation::OnInput);
}

#[test]
fn valid_input_is_sent_to_the_login_operation_once() {
    let mut form = filled("a@b.co", "x");
    assert!(form.passes_guard());
    let actions = form.submit();
    assert_eq!(actions, login("a@b.co", "x"));
    assert_eq!(logins(&actions), 1);
    assert_eq!(form.phase(), Phase::Pending);
    assert!(form.error().is_empty());
    assert_eq!(form.email().current_value(), "a@b.co");
    assert_eq!(form.password().current_value(), "x");
}

#[test]
fn every_submission_suppresses_the_default_first() {
    let mut passing = filled("a@b.co", "x");
    assert_eq!(passing.submit().first(), Some(&Action::SuppressDefault));
    let mut failing = filled("a@b", "x");
    assert_eq!(failing.submit().first(), Some(&Action::SuppressDefault));
    let mut unguarded = LoginForm::unguarded();
    assert_eq!(unguarded.submit().first(), Some(&Action::SuppressDefault));
}

#[test]
fn email_and_password_are_each_read_from_their_own_field() {
    let mut form = filled("me@host.org", "hunter2");
    let actions = form.submit();
    match actions.last() {
        Some(Action::Login(credentials)) => {
            assert_eq!(credentials.email, "me@host.org");
            assert_eq!(credentials.password, "hunter2");
        },
        other => panic!("expected a login, got {:?}", other),
    }
}

#[test]
fn invalid_email_holds_the_submission_back() {
    let mut form = filled("not-an-address", "x");
    assert!(!form.passes_guard());
    let actions = form.submit();
    assert_eq!(actions, held_back());
    assert_eq!(logins(&actions), 0);
    assert_eq!(form.error().message(), "Please provide a valid email and password!");
    assert_eq!(form.phase(), Phase::Idle);
    assert_eq!(form.email().current_value(), "not-an-address");
    assert_eq!(form.password().current_value(), "x");
}

#[test]
fn empty_password_holds_the_submission_back() {
    let mut form = filled("a@b.co", "");
    assert_eq!(form.submit(), held_back());
    assert_eq!(form.error().message(), INVALID_INPUT_MESSAGE);
}

#[test]
fn fixed_message_replaces_an_earlier_message() {
    let mut form = filled("a@b.co", "x");
    form.submit();
    form.login_resolved(Err("Invalid credentials".to_string()));
    form.set_email("a@b".to_string());
    assert_eq!(form.submit(), held_back());
    assert_eq!(form.error().message(), INVALID_INPUT_MESSAGE);
    assert_eq!(form.phase(), Phase::Idle);
}

#[test]
fn failed_login_shows_its_message_verbatim() {
    let mut form = filled("a@b.co", "x");
    form.submit();
    let actions = form.login_resolved(Err("Invalid credentials".to_string()));
    assert_eq!(actions, nothing());
    assert_eq!(form.error().message(), "Invalid credentials");
    assert_eq!(form.phase(), Phase::Failed);
}

#[test]
fn failed_login_with_an_empty_message_shows_nothing() {
    let mut form = filled("a@b.co", "x");
    form.submit();
    form.login_resolved(Err(String::new()));
    assert!(form.error().is_empty());
    assert_eq!(form.phase(), Phase::Failed);
}

#[test]
fn successful_login_navigates_once_and_leaves_the_message_alone() {
    let mut form = filled("a@b.co", "x");
    form.submit();
    let actions = form.login_resolved(Ok(()));
    assert_eq!(actions, vec![Action::Navigate("/error".to_string())]);
    assert!(form.error().is_empty());
    assert_eq!(form.phase(), Phase::Success);

    let mut again = filled("a@b.co", "x");
    again.submit();
    again.login_resolved(Err("Invalid credentials".to_string()));
    again.submit();
    assert_eq!(again.phase(), Phase::Pending);
    assert_eq!(again.error().message(), "Invalid credentials");
    assert_eq!(again.login_resolved(Ok(())), vec![Action::Navigate(DESTINATION.to_string())]);
    assert_eq!(again.error().message(), "Invalid credentials");
}

#[test]
fn failed_navigation_shows_its_message() {
    let mut form = filled("a@b.co", "x");
    form.submit();
    form.login_resolved(Ok(()));
    form.navigation_resolved(Err("window not available".to_string()));
    assert_eq!(form.error().message(), "window not available");
    assert_eq!(form.phase(), Phase::Success);

    let mut fine = filled("a@b.co", "x");
    fine.submit();
    fine.login_resolved(Ok(()));
    fine.navigation_resolved(Ok(()));
    assert!(fine.error().is_empty());
    assert_eq!(fine.phase(), Phase::Success);
}

#[test]
fn untouched_form_is_valid_by_default_and_passes() {
    let mut form = LoginForm::validating();
    assert_eq!(form.submit(), login("", ""));
    assert_eq!(form.phase(), Phase::Pending);
}

#[test]
fn unguarded_form_submits_whatever_it_holds() {
    let mut form = LoginForm::unguarded();
    form.set_email("nonsense".to_string());
    form.set_password(String::new());
    assert!(form.passes_guard());
    assert_eq!(form.submit(), login("nonsense", ""));
    assert!(form.error().is_empty());

    let mut flagged = LoginForm::new(Guard::AlwaysPass, Revalidation::OnInput);
    flagged.set_email("nonsense".to_string());
    assert!(!flagged.email().is_valid());
    assert_eq!(flagged.submit(), login("nonsense", ""));
}

#[test]
fn flags_taken_over_decide_the_submission() {
    let form = LoginForm::new(Guard::RequireValid, Revalidation::Never)
        .with_email("a@b.co".to_string(), false)
        .with_password("x".to_string(), true);
    assert_eq!(form.email().current_value(), "a@b.co");
    assert!(!form.email().is_valid());
    assert!(!form.passes_guard());

    let mut form = LoginForm::new(Guard::RequireValid, Revalidation::Never)
        .with_email("nonsense".to_string(), true)
        .with_password(String::new(), true)
        .with_error("earlier".to_string());
    assert_eq!(form.error().message(), "earlier");
    assert_eq!(form.submit(), login("nonsense", ""));
    assert_eq!(form.error().message(), "earlier");

    let mut form = LoginForm::validating()
        .with_email("a@b.co".to_string(), true)
        .with_password("x".to_string(), false);
    assert_eq!(form.password().revalidation(), Revalidation::OnInput);
    assert_eq!(form.submit(), held_back());
    assert_eq!(form.error().message(), INVALID_INPUT_MESSAGE);
}

#[test]
fn submitting_again_while_pending_asks_again() {
    let mut form = filled("a@b.co", "x");
    assert_eq!(form.submit(), login("a@b.co", "x"));
    assert_eq!(form.submit(), login("a@b.co", "x"));
    assert_eq!(form.phase(), Phase::Pending);
    assert_eq!(form.login_resolved(Err("first".to_string())), nothing());
    assert_eq!(form.login_resolved(Err("second".to_string())), nothing());
    assert_eq!(form.error().message(), "second");
}

#[test]
fn entering_the_same_text_twice_changes_nothing() {
    let mut form = LoginForm::validating();
    form.set_email("a@b".to_string());
    form.set_password("x".to_string());
    let email_valid = form.email().is_valid();
    let password_valid = form.password().is_valid();
    form.set_email("a@b".to_string());
    form.set_password("x".to_string());
    assert_eq!(form.email().current_value(), "a@b");
    assert_eq!(form.password().current_value(), "x");
    assert_eq!(form.email().is_valid(), email_valid);
    assert_eq!(form.password().is_valid(), password_valid);
    assert!(!email_valid);
    assert!(password_valid);
}

#[test]
fn events_drive_a_whole_attempt() {
    let mut form = LoginForm::validating();
    assert_eq!(form.handle(Event::EmailInput("a@b.co".to_string())), nothing());
    assert_eq!(form.handle(Event::PasswordInput("x".to_string())), nothing());
    assert_eq!(form.handle(Event::Submit), login("a@b.co", "x"));
    assert_eq!(form.phase(), Phase::Pending);
    assert_eq!(
        form.handle(Event::LoginResolved(Err("Invalid credentials".to_string()))),
        nothing()
    );
    assert_eq!(form.error().message(), "Invalid credentials");
    assert_eq!(form.phase(), Phase::Failed);
    assert_eq!(form.handle(Event::Submit), login("a@b.co", "x"));
    assert_eq!(
        form.handle(Event::LoginResolved(Ok(()))),
        vec![Action::Navigate("/error".to_string())]
    );
    assert_eq!(form.phase(), Phase::Success);
    assert_eq!(form.handle(Event::NavigationResolved(Err("no window".to_string()))), nothing());
    assert_eq!(form.error().message(), "no window");
    assert_eq!(form.handle(Event::NavigationResolved(Ok(()))), nothing());
    assert_eq!(form.error().message(), "no window");
}

#[test]
fn events_hold_back_invalid_input() {
    let mut form = LoginForm::validating();
    form.handle(Event::EmailInput("a@b.co".to_string()));
    form.handle(Event::PasswordInput("x".to_string()));
    form.handle(Event::PasswordInput(String::new()));
    assert_eq!(form.handle(Event::Submit), held_back());
    assert_eq!(form.error().message(), INVALID_INPUT_MESSAGE);
    assert_eq!(form.phase(), Phase::Idle);
}

#[test]
fn cloned_credentials_are_the_same() {
    let credentials = Credentials { email: "a@b.co".to_string(), password: "x".to_string() };
    assert_eq!(credentials.clone(), credentials);
}
