//! Unit actions: what the user can ask systemd to do with the selected unit,
//! and the manager request that each becomes.
use vstd::prelude::*;
use crate::text::{join3, owned};
use crate::units::SystemdUnit;

verus! {

broadcast use vstd::string::group_string_axioms;

/// What can be done to a unit.
#[derive(Debug, Clone, Copy, PartialEq, Eq, Structural)]
pub enum UnitAction {
    Start,
    Stop,
    Restart,
    Reload,
}

/// Why an action could not be carried out.
#[derive(Debug, Clone, Copy, PartialEq, Eq, Structural)]
pub enum ActionError {
    NoSelection,
}

/// The word for an action in status messages.
pub open spec fn action_label(a: UnitAction) -> Seq<char> {
    match a {
        UnitAction::Start => "start"@,
        UnitAction::Stop => "stop"@,
        UnitAction::Restart => "restart"@,
        UnitAction::Reload => "reload"@,
    }
}

/// The systemd manager method that carries out an action.
pub open spec fn action_method(a: UnitAction) -> Seq<char> {
    match a {
        UnitAction::Start => "StartUnit"@,
        UnitAction::Stop => "StopUnit"@,
        UnitAction::Restart => "RestartUnit"@,
        UnitAction::Reload => "ReloadUnit"@,
    }
}

impl UnitAction {
    /// The word for this action in status messages.
    pub fn label(self) -> (r: &'static str)
        ensures
            r@ == action_label(self),
    {
        match self {
            UnitAction::Start => "start",
            UnitAction::Stop => "stop",
            UnitAction::Restart => "restart",
            UnitAction::Reload => "reload",
        }
    }

    /// The manager method that carries out this action.
    pub fn dbus_method(self) -> (r: &'static str)
        ensures
            r@ == action_method(self),
    {
        match self {
            UnitAction::Start => "StartUnit",
            UnitAction::Stop => "StopUnit",
            UnitAction::Restart => "RestartUnit",
            UnitAction::Reload => "ReloadUnit",
        }
    }
}

impl ActionError {
    /// The text of this error.
    pub fn message(self) -> (r: &'static str)
        ensures
            r@ == "no unit selected"@,
    {
        "no unit selected"
    }
}

/// A call to make on the systemd manager: method, unit name and job mode.
pub struct UnitRequest {
    pub method: String,
    pub unit_name: String,
    pub mode: String,
}

/// Plans an action on the selected unit: the manager method of the action on
/// the unit's name in "replace" mode, or `NoSelection` when no unit is selected.
pub fn plan_unit_action(unit: Option<&SystemdUnit>, action: UnitAction) -> (r: Result<
    UnitRequest,
    ActionError,
>)
    ensures
        unit is None <==> r == Err::<UnitRequest, ActionError>(ActionError::NoSelection),
        match (unit, r) {
            (Some(u), Ok(req)) => {
                &&& req.method@ == action_method(action)
                &&& req.unit_name@ == u.name@
                &&& req.mode@ == "replace"@
            },
            (None, Err(e)) => e == ActionError::NoSelection,
            _ => false,
        },
{
    match unit {
        None => Err(ActionError::NoSelection),
        Some(u) => Ok(
            UnitRequest {
                method: owned(action.dbus_method()),
                unit_name: u.name.clone(),
                mode: owned("replace"),
            },
        ),
    }
}

/// The context given to a failed manager call: "<Method> failed for <unit>".
pub fn call_failure_context(action: UnitAction, unit_name: &str) -> (r: String)
    ensures
        r@ == action_method(action) + " failed for "@ + unit_name@,
{
    join3(action.dbus_method(), " failed for ", unit_name)
}

} // verus!
