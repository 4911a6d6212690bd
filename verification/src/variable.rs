//! Environment-variable rules passed to the sandboxed program.

use vstd::prelude::*;

verus! {

/// What to do with one environment variable.
#[derive(Debug, Clone, PartialEq)]
pub enum Action {
    /// Pass the variable through from the parent environment.
    Inherit,
    /// Remove the variable from the program's environment.
    Clear,
    /// Give the variable a fixed value.
    Assign(String),
}

/// The text form of an action: `inherit`, `clear`, or `set(value)`.
pub open spec fn spec_action_text(a: Action) -> Seq<char> {
    match a {
        Action::Inherit => "inherit"@,
        Action::Clear => "clear"@,
        Action::Assign(value) => "set("@ + value@ + ")"@,
    }
}

impl Action {
    /// Renders the action as text.
    pub fn text(&self) -> (r: String)
        ensures
            r@ == spec_action_text(*self),
    {
        match self {
            Action::Inherit => "inherit".to_owned(),
            Action::Clear => "clear".to_owned(),
            Action::Assign(value) => {
                let mut m = "set(".to_owned();
                m.append(value.as_str());
                m.append(")");
                proof {
                    assert(m@ =~= spec_action_text(*self));
                }
                m
            },
        }
    }
}

/// One environment-variable rule: a key and the action applied to it.
#[derive(Debug, Clone, PartialEq)]
pub struct Variable {
    pub key: String,
    pub action: Action,
}

impl Variable {
    /// Builds a rule from a key and an action.
    pub fn new(key: String, action: Action) -> (r: Self)
        ensures
            r == (Variable { key, action }),
    {
        Self { key, action }
    }

    /// The value the rule sets, if it sets one.
    pub fn get_value(&self) -> (r: Option<&str>)
        ensures
            match r {
                Option::Some(s) => self.action matches Action::Assign(v) && s@ == v@,
                Option::None => !(self.action matches Action::Assign(_)),
            },
    {
        match &self.action {
            Action::Assign(value) => Option::Some(value.as_str()),
            _ => Option::None,
        }
    }

    /// Whether the rule clears the variable.
    pub fn is_clear(&self) -> (r: bool)
        ensures
            r == (self.action matches Action::Clear),
    {
        matches!(self.action, Action::Clear)
    }

    /// Whether the rule inherits the variable from the parent.
    pub fn is_inherit(&self) -> (r: bool)
        ensures
            r == (self.action matches Action::Inherit),
    {
        matches!(self.action, Action::Inherit)
    }

    /// Builds a rule that sets `key` to `value`.
    pub fn with_set_value(key: String, value: String) -> (r: Self)
        ensures
            r == (Variable { key, action: Action::Assign(value) }),
    {
        Self { key, action: Action::Assign(value) }
    }
}

} // verus!
