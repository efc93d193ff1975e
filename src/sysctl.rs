use vstd::prelude::*;

verus! {

/// The category a parameter is listed under.
#[derive(Clone, Copy, Debug, PartialEq, Eq, Structural)]
pub enum Section {
    Abi,
    Fs,
    Kernel,
    Net,
    Sunrpc,
    User,
    Vm,
    Unknown,
}

/// One named runtime setting, with its documentation.
#[derive(Clone, Debug)]
pub struct Parameter {
    /// Dotted name, unique among the parameters of a session.
    pub name: String,
    /// Current value.
    pub value: String,
    /// Text that documents the parameter, where some was found.
    pub description: Option<String>,
    /// Category used for grouping.
    pub section: Section,
    /// File the documentation came from.
    pub docs_path: String,
    /// Title of the paragraph the documentation came from.
    pub docs_title: String,
}

/// The parameters that a session browses and edits.
pub struct Sysctl {
    pub parameters: Vec<Parameter>,
}

impl Sysctl {
    /// The position of the first parameter with the given name.
    pub fn get_parameter(&self, name: &String) -> (r: Option<usize>)
        ensures
            r matches Some(i) ==> i < self.parameters.len() && self.parameters[i as int].name@
                == name@ && forall|k: int| 0 <= k < i ==> self.parameters[k].name@ != name@,
            r is None ==> forall|k: int|
                0 <= k < self.parameters.len() ==> self.parameters[k].name@ != name@,
    {
        let mut i: usize = 0;
        while i < self.parameters.len()
            invariant
                0 <= i <= self.parameters.len(),
                forall|k: int| 0 <= k < i ==> self.parameters[k].name@ != name@,
            decreases self.parameters.len() - i,
        {
            if self.parameters[i].name == *name {
                return Some(i);
            }
            i = i + 1;
        }
        None
    }
}

} // verus!
