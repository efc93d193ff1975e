use crate::sysctl::{Parameter, Sysctl};
use crate::text::{chars_of, string_of, sub_chars};
use vstd::prelude::*;

verus! {

/// What a command-line argument asks for.
#[derive(Clone, Debug)]
pub enum Request {
    /// Show the parameter at this position.
    Display(usize),
    /// Write `value` to the parameter at `index`.
    Update { index: usize, value: String },
    /// No parameter has the name given.
    Unknown,
}

/// The position of the first `=` in `t`, if any.
pub open spec fn first_eq(t: Seq<char>, from: int) -> int
    decreases t.len() - from,
{
    if from >= t.len() {
        t.len() as int
    } else if t[from] == '=' {
        from
    } else {
        first_eq(t, from + 1)
    }
}

/// The name of an argument: what stands before its first `=`.
pub open spec fn arg_name(t: Seq<char>) -> Seq<char> {
    t.subrange(0, first_eq(t, 0))
}

/// The value of an argument `name=value`: what stands between its first and
/// second `=`; none where it has no `=`.
pub open spec fn arg_value(t: Seq<char>) -> Option<Seq<char>> {
    let e = first_eq(t, 0);
    if e >= t.len() {
        None
    } else {
        Some(t.subrange(e + 1, first_eq(t, e + 1)))
    }
}

proof fn lemma_first_eq_bounds(t: Seq<char>, from: int)
    requires
        0 <= from,
    ensures
        from <= t.len() ==> from <= first_eq(t, from) <= t.len(),
        from > t.len() ==> first_eq(t, from) == t.len(),
    decreases t.len() - from,
{
    if from < t.len() && t[from] != '=' {
        lemma_first_eq_bounds(t, from + 1);
    }
}

/// The position of the first `=` at or after `from`.
fn find_eq(t: &Vec<char>, from: usize) -> (r: usize)
    requires
        from <= t.len(),
    ensures
        r == first_eq(t@, from as int),
{
    let mut i: usize = from;
    while i < t.len() && t[i] != '='
        invariant
            from <= i <= t.len(),
            first_eq(t@, i as int) == first_eq(t@, from as int),
        decreases t.len() - i,
    {
        i = i + 1;
    }
    i
}

/// Splits an argument `name=value` into its name and value, or gives the
/// name alone where there is no `=`.
pub fn split_argument(arg: &str) -> (r: (String, Option<String>))
    ensures
        r.0@ == arg_name(arg@),
        match r.1 {
            Some(v) => arg_value(arg@) == Some(v@),
            None => arg_value(arg@) is None,
        },
{
    let t = chars_of(arg);
    proof {
        lemma_first_eq_bounds(t@, 0);
    }
    let e = find_eq(&t, 0);
    let name = string_of(&sub_chars(&t, 0, e));
    if e >= t.len() {
        (name, None)
    } else {
        proof {
            lemma_first_eq_bounds(t@, e + 1);
        }
        let e2 = find_eq(&t, e + 1);
        (name, Some(string_of(&sub_chars(&t, e + 1, e2))))
    }
}

/// The command-line front end: shows parameters and applies `name=value`
/// arguments.
pub struct App {
    pub sysctl: Sysctl,
}

/// The line that shows a parameter's value.
pub open spec fn value_line(p: Parameter) -> Seq<char> {
    p.name@ + " = "@ + p.value@
}

impl App {
    pub fn new(sysctl: Sysctl) -> (r: App)
        ensures
            r.sysctl.parameters@ == sysctl.parameters@,
    {
        App { sysctl }
    }

    /// One `name = value` line per parameter, in order.
    pub fn display_parameters(&self) -> (r: Vec<String>)
        ensures
            r.len() == self.sysctl.parameters.len(),
            forall|i: int| 0 <= i < r.len() ==> #[trigger] r[i]@ == value_line(self.sysctl.parameters[i]),
    {
        let ps = &self.sysctl.parameters;
        let mut r: Vec<String> = Vec::new();
        let mut i: usize = 0;
        while i < ps.len()
            invariant
                0 <= i <= ps.len(),
                r.len() == i,
                forall|k: int| 0 <= k < i ==> #[trigger] r[k]@ == value_line(ps[k]),
            decreases ps.len() - i,
        {
            let p = &ps[i];
            let mut line = p.name.clone();
            line.append(" = ");
            line.append(p.value.as_str());
            r.push(line);
            i = i + 1;
        }
        r
    }

    /// The documentation of the named parameter: its title and its
    /// description; `None` where no parameter has that name.
    pub fn display_documentation(&self, param_name: &String) -> (r: Option<(String, Option<String>)>)
        ensures
            r is None <==> forall|k: int|
                0 <= k < self.sysctl.parameters.len() ==> self.sysctl.parameters[k].name@
                    != param_name@,
            r matches Some((title, description)) ==> exists|k: int|
                0 <= k < self.sysctl.parameters.len() && #[trigger] self.sysctl.parameters[k].name@
                    == param_name@ && title@ == self.sysctl.parameters[k].docs_title@ && match description {
                    Some(d) => self.sysctl.parameters[k].description matches Some(e) && d@ == e@,
                    None => self.sysctl.parameters[k].description is None,
                },
    {
        match self.sysctl.get_parameter(param_name) {
            Some(k) => {
                let p = &self.sysctl.parameters[k];
                let description = match &p.description {
                    Some(d) => Some(d.clone()),
                    None => None,
                };
                Some((p.docs_title.clone(), description))
            },
            None => None,
        }
    }

    /// What an argument asks for: `name=value` an update of the named
    /// parameter, `name` alone a display of it.
    pub fn process_parameter(&self, param_name: &str) -> (r: Request)
        ensures
            r is Unknown <==> forall|k: int|
                0 <= k < self.sysctl.parameters.len() ==> self.sysctl.parameters[k].name@
                    != arg_name(param_name@),
            r matches Request::Display(k) ==> k < self.sysctl.parameters.len()
                && self.sysctl.parameters[k as int].name@ == arg_name(param_name@) && arg_value(
                param_name@,
            ) is None,
            r matches Request::Update { index, value } ==> index < self.sysctl.parameters.len()
                && self.sysctl.parameters[index as int].name@ == arg_name(param_name@) && arg_value(
                param_name@,
            ) == Some(value@),
    {
        let (name, value) = split_argument(param_name);
        match self.sysctl.get_parameter(&name) {
            Some(k) => match value {
                Some(v) => Request::Update { index: k, value: v },
                None => Request::Display(k),
            },
            None => Request::Unknown,
        }
    }
}

} // verus!
