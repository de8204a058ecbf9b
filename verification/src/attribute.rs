//! The attributes of a command that is run as one step of a test plan.

use vstd::prelude::*;
use std::time::Duration;

verus! {

/// Command attributes.
#[derive(Clone, Debug)]
pub struct Attribute {
    /// Command name.
    pub name: String,
    /// False where the command does not count as a test.
    pub test: bool,
    /// Whether a failure of the command ends the whole plan.
    pub terminate: bool,
    /// Whether to show what the command prints.
    pub show_output: Option<bool>,
    /// The time that the command may take.
    pub timeout: Option<Duration>,
}

impl Default for Attribute {
    fn default() -> (a: Self)
        ensures
            a.name@ == "default-test-name"@,
            a.test,
            !a.terminate,
            a.show_output is None,
            a.timeout is None,
    {
        Attribute {
            name: "default-test-name".to_string(),
            test: true,
            terminate: false,
            show_output: None,
            timeout: None,
        }
    }
}

impl Attribute {
    /// Name the test.
    pub fn name(self, name: String) -> (a: Self)
        ensures
            a == (Attribute { name, ..self }),
    {
        Attribute { name, ..self }
    }

    /// False where the command does not count as a test.
    pub fn test(self, value: bool) -> (a: Self)
        ensures
            a == (Attribute { test: value, ..self }),
    {
        Attribute { test: value, ..self }
    }

    /// Whether a failure of the command ends the whole plan.
    pub fn terminate(self, value: bool) -> (a: Self)
        ensures
            a == (Attribute { terminate: value, ..self }),
    {
        Attribute { terminate: value, ..self }
    }

    /// Whether to show what the command prints.
    pub fn show_output(self, value: Option<bool>) -> (a: Self)
        ensures
            a == (Attribute { show_output: value, ..self }),
    {
        Attribute { show_output: value, ..self }
    }

    /// Set the time that the command may take.
    pub fn timeout(self, value: Option<Duration>) -> (a: Self)
        ensures
            a == (Attribute { timeout: value, ..self }),
    {
        Attribute { timeout: value, ..self }
    }
}

} // verus!
