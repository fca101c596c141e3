use vstd::prelude::*;

verus! {

/// One test framework: a name and the two shell commands that list and run
/// its tests.
#[derive(Debug, Clone, PartialEq, Eq)]
pub struct Framework {
    pub name: String,
    pub list_cmd: String,
    pub run_cmd: String,
}

/// The characters of an optional string.
pub open spec fn opt_view(o: Option<String>) -> Option<Seq<char>> {
    match o {
        Some(s) => Some(s@),
        None => None,
    }
}

/// The characters of a descriptor's three fields: name, list command, run
/// command.
pub open spec fn fields_of(f: Framework) -> (Seq<char>, Seq<char>, Seq<char>) {
    (f.name@, f.list_cmd@, f.run_cmd@)
}

impl Framework {
    pub fn new(name: String, list_cmd: String, run_cmd: String) -> (r: Framework)
        ensures
            r.name == name,
            r.list_cmd == list_cmd,
            r.run_cmd == run_cmd,
    {
        Framework { name, list_cmd, run_cmd }
    }

    /// A copy equal to `self` in every field.
    pub fn duplicate(&self) -> (r: Framework)
        ensures
            r == *self,
    {
        Framework {
            name: self.name.clone(),
            list_cmd: self.list_cmd.clone(),
            run_cmd: self.run_cmd.clone(),
        }
    }
}

} // verus!
