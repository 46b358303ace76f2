//! Field state: the text of one input and its validity flag.

use crate::validators::{is_email, is_password, matches_email};
use vstd::prelude::*;

verus! {

/// The rule that the text of a field is held to.
#[derive(Clone, Copy, Debug, PartialEq, Eq, Structural)]
pub enum Rule {
    /// The text must be an address.
    Email,
    /// The text must not be empty.
    Password,
}

impl Rule {
    /// Whether the rule accepts `text`.
    pub open spec fn accepts(self, text: Seq<char>) -> bool {
        match self {
            Rule::Email => is_email(text),
            Rule::Password => is_password(text),
        }
    }

    /// Applies the rule to `text`.
    pub fn check(self, text: &str) -> (ok: bool)
        ensures
            ok == self.accepts(text@),
    {
        match self {
            Rule::Email => matches_email(text),
            Rule::Password => !text.is_empty(),
        }
    }
}

/// When the validity flag of a field is computed anew.
#[derive(Clone, Copy, Debug, PartialEq, Eq, Structural)]
pub enum Revalidation {
    /// With every new value.
    OnInput,
    /// Never by the field itself: the flag keeps what it was given.
    Never,
}

/// The mathematical content of a [`FieldState`].
pub struct FieldView {
    pub rule: Rule,
    pub revalidation: Revalidation,
    pub value: Seq<char>,
    pub valid: bool,
    /// The flag was computed from the current value.
    pub checked: bool,
}

impl FieldView {
    /// A field with the given value and flag, of which nothing has been
    /// checked.
    pub open spec fn unchecked(
        rule: Rule,
        revalidation: Revalidation,
        value: Seq<char>,
        valid: bool,
    ) -> FieldView {
        FieldView { rule, revalidation, value, valid, checked: false }
    }

    /// An empty field, valid by default.
    pub open spec fn fresh(rule: Rule, revalidation: Revalidation) -> FieldView {
        FieldView::unchecked(rule, revalidation, Seq::empty(), true)
    }

    /// A flag that was computed from the value says what the rule says of it.
    pub open spec fn consistent(self) -> bool {
        self.checked ==> self.valid == self.rule.accepts(self.value)
    }

    /// The field after `next` was entered.
    pub open spec fn set_value(self, next: Seq<char>) -> FieldView {
        match self.revalidation {
            Revalidation::OnInput => FieldView {
                value: next,
                valid: self.rule.accepts(next),
                checked: true,
                ..self
            },
            Revalidation::Never => FieldView { value: next, checked: false, ..self },
        }
    }
}

/// The state of one input: its current text and whether that text is valid.
#[derive(Debug)]
pub struct FieldState {
    rule: Rule,
    revalidation: Revalidation,
    value: String,
    valid: bool,
    checked: bool,
}

impl View for FieldState {
    type V = FieldView;

    closed spec fn view(&self) -> FieldView {
        FieldView {
            rule: self.rule,
            revalidation: self.revalidation,
            value: self.value@,
            valid: self.valid,
            checked: self.checked,
        }
    }
}

impl FieldState {
    #[verifier::type_invariant]
    spec fn well_formed(self) -> bool {
        self@.consistent()
    }

    /// An empty field, valid by default.
    pub fn new(rule: Rule, revalidation: Revalidation) -> (field: FieldState)
        ensures
            field@ == FieldView::fresh(rule, revalidation),
    {
        FieldState { rule, revalidation, value: String::new(), valid: true, checked: false }
    }

    /// A field that takes over a value and a flag kept elsewhere.
    pub fn from_parts(rule: Rule, revalidation: Revalidation, value: String, valid: bool) -> (field:
        FieldState)
        ensures
            field@ == FieldView::unchecked(rule, revalidation, value@, valid),
    {
        FieldState { rule, revalidation, value, valid, checked: false }
    }

    /// The field that this one becomes when `next` is entered.
    pub fn with_value(&self, next: String) -> (field: FieldState)
        ensures
            field@ == self@.set_value(next@),
            field@.consistent(),
    {
        match self.revalidation {
            Revalidation::OnInput => {
                let valid = self.rule.check(next.as_str());
                FieldState {
                    rule: self.rule,
                    revalidation: self.revalidation,
                    value: next,
                    valid,
                    checked: true,
                }
            },
            Revalidation::Never => FieldState {
                rule: self.rule,
                revalidation: self.revalidation,
                value: next,
                valid: self.valid,
                checked: false,
            },
        }
    }

    /// Stores `next` as the current value, whatever it is. A field that
    /// revalidates on input computes its flag from `next`; another keeps its
    /// flag.
    pub fn set_value(&mut self, next: String)
        ensures
            final(self)@ == old(self)@.set_value(next@),
            final(self)@.consistent(),
    {
        *self = self.with_value(next);
    }

    /// The current value.
    pub fn current_value(&self) -> (value: &str)
        ensures
            value@ == self@.value,
    {
        self.value.as_str()
    }

    /// The validity flag. Where it was computed from the current value, it is
    /// what the rule says of that value.
    pub fn is_valid(&self) -> (valid: bool)
        ensures
            valid == self@.valid,
            self@.consistent(),
    {
        proof {
            use_type_invariant(self);
        }
        self.valid
    }

    /// Whether the flag was computed from the current value.
    pub fn is_checked(&self) -> (checked: bool)
        ensures
            checked == self@.checked,
    {
        self.checked
    }

    /// The rule that the field is held to.
    pub fn rule(&self) -> (rule: Rule)
        ensures
            rule == self@.rule,
    {
        self.rule
    }

    /// When the field computes its flag.
    pub fn revalidation(&self) -> (revalidation: Revalidation)
        ensures
            revalidation == self@.revalidation,
    {
        self.revalidation
    }
}

impl Clone for FieldState {
    fn clone(&self) -> (copy: FieldState)
        ensures
            copy@ == self@,
    {
        proof {
            use_type_invariant(self);
        }
        FieldState {
            rule: self.rule,
            revalidation: self.revalidation,
            value: self.value.clone(),
            valid: self.valid,
            checked: self.checked,
        }
    }
}

/// Entering the same text twice is the same as entering it once.
pub proof fn lemma_set_value_idempotent(field: FieldView, text: Seq<char>)
    ensures
        field.set_value(text).set_value(text) == field.set_value(text),
{
}

/// Entering a text leaves the field consistent, whatever it was before.
pub proof fn lemma_set_value_consistent(field: FieldView, text: Seq<char>)
    ensures
        field.set_value(text).consistent(),
        field.set_value(text).value == text,
        field.set_value(text).rule == field.rule,
        field.set_value(text).revalidation == field.revalidation,
{
}

} // verus!
