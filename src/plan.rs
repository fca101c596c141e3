use vstd::prelude::*;
use crate::framework::Framework;

verus! {

/// What the user asked for.
#[derive(Debug, Clone, Copy, PartialEq, Eq, Structural)]
pub enum Action {
    Run,
    List,
    Update,
    Help,
}

/// The action to perform: the one given, or `Run` when none was.
pub fn action_or_default(given: Option<Action>) -> (r: Action)
    ensures
        r == (match given {
            Some(a) => a,
            None => Action::Run,
        }),
{
    match given {
        Some(a) => a,
        None => Action::Run,
    }
}

/// One shell command to start for a descriptor. With `capture` its output
/// is collected and shown as text; without, it streams to the terminal and
/// its exit status is reported.
#[derive(Debug, Clone, PartialEq, Eq)]
pub struct Invocation {
    pub framework: String,
    pub command: String,
    pub capture: bool,
}

/// The command that `action` runs for `f`.
pub open spec fn invocation_for(action: Action, f: Framework) -> Invocation {
    if action is List {
        Invocation { framework: f.name, command: f.list_cmd, capture: true }
    } else {
        Invocation { framework: f.name, command: f.run_cmd, capture: false }
    }
}

/// The commands that `action` starts, one after another, over the usable
/// descriptors: for `List` each listing command, captured; for `Run` each
/// run command, streamed. Every descriptor gets its turn in registry order,
/// whatever an earlier one did. `Update` and `Help` start none.
pub fn plan_invocations(action: Action, available: &Vec<Framework>) -> (r: Vec<Invocation>)
    ensures
        (action is Update || action is Help) ==> r@.len() == 0,
        (action is Run || action is List) ==> r@.len() == available@.len() && forall|i: int|
            0 <= i < available@.len() ==> r@[i] == invocation_for(action, #[trigger] available@[i]),
{
    let mut r: Vec<Invocation> = Vec::new();
    if action == Action::Update || action == Action::Help {
        return r;
    }
    let mut i: usize = 0;
    while i < available.len()
        invariant
            action is Run || action is List,
            i <= available@.len(),
            r@.len() == i,
            forall|j: int| 0 <= j < i ==> r@[j] == invocation_for(action, #[trigger] available@[j]),
        decreases available@.len() - i,
    {
        let f = &available[i];
        let command = if action == Action::List {
            f.list_cmd.clone()
        } else {
            f.run_cmd.clone()
        };
        r.push(Invocation { framework: f.name.clone(), command, capture: action == Action::List });
        i += 1;
    }
    r
}

} // verus!
