//! Commands that a response can send to a component on screen.
use vstd::prelude::*;
use vstd::string::*;

verus! {

/// A command to a media component.
#[derive(Debug, Clone, PartialEq, Eq)]
pub struct ControlMedia {
    pub command_type: String,
    pub component_id: String,
    pub command: String,
    pub value: Option<i32>,
}

impl ControlMedia {
    /// The command `command` for the component `component_id`, with its
    /// optional value. The command type is always `ControlMedia`.
    pub fn new(component_id: String, command: String, value: Option<i32>) -> (made: ControlMedia)
        ensures
            made.command_type@ == "ControlMedia"@,
            made.component_id == component_id,
            made.command == command,
            made.value == value,
    {
        ControlMedia { command_type: "ControlMedia".to_owned(), component_id, command, value }
    }
}

} // verus!
