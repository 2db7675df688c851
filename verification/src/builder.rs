//! Building a command description field by field.
//!
//! The builder collects the fields one at a time; building succeeds exactly
//! when every required field was given, and otherwise names the first
//! missing one, in field order.

use vstd::prelude::*;
use vstd::string::StringExecFns;

verus! {

/// An external command: what to run, with which arguments and environment,
/// and optionally from which directory.
pub struct Command {
    pub executable: String,
    pub args: Vec<String>,
    pub env: Vec<String>,
    pub current_dir: Option<String>,
}

/// The fields of a [`Command`], each possibly not given yet. The directory
/// is optional in the command itself, so it may stay ungiven.
pub struct CommandBuilder {
    executable: Option<String>,
    args: Option<Vec<String>>,
    env: Option<Vec<String>>,
    current_dir: Option<String>,
}

/// The texts of a list of strings.
pub open spec fn views_of(v: Seq<String>) -> Seq<Seq<char>> {
    v.map_values(|s: String| s@)
}

/// A fresh list holding the same texts.
fn clone_strings(v: &Vec<String>) -> (r: Vec<String>)
    ensures
        views_of(r@) == views_of(v@),
{
    let mut r: Vec<String> = Vec::new();
    let mut i: usize = 0;
    while i < v.len()
        invariant
            i <= v.len(),
            r@.len() == i,
            forall|j: int| 0 <= j < i ==> r@[j]@ == v@[j]@,
        decreases v.len() - i,
    {
        r.push(v[i].clone());
        i = i + 1;
    }
    proof {
        assert(views_of(r@) =~= views_of(v@));
    }
    r
}

impl Command {
    /// A builder with no field given yet.
    pub fn builder() -> (b: CommandBuilder)
        ensures
            b.executable_given() is None,
            b.args_given() is None,
            b.env_given() is None,
            b.current_dir_given() is None,
    {
        CommandBuilder { executable: None, args: None, env: None, current_dir: None }
    }
}

impl CommandBuilder {
    /// The executable, if given.
    pub closed spec fn executable_given(&self) -> Option<Seq<char>> {
        match self.executable {
            Some(ref e) => Some(e@),
            None => None,
        }
    }

    /// The argument list, if given.
    pub closed spec fn args_given(&self) -> Option<Seq<Seq<char>>> {
        match self.args {
            Some(ref a) => Some(views_of(a@)),
            None => None,
        }
    }

    /// The environment list, if given.
    pub closed spec fn env_given(&self) -> Option<Seq<Seq<char>>> {
        match self.env {
            Some(ref e) => Some(views_of(e@)),
            None => None,
        }
    }

    /// The working directory, if given.
    pub closed spec fn current_dir_given(&self) -> Option<Seq<char>> {
        match self.current_dir {
            Some(ref d) => Some(d@),
            None => None,
        }
    }

    /// Gives the executable.
    pub fn executable(&mut self, executable: String)
        ensures
            final(self).executable_given() == Some(executable@),
            final(self).args_given() == old(self).args_given(),
            final(self).env_given() == old(self).env_given(),
            final(self).current_dir_given() == old(self).current_dir_given(),
    {
        self.executable = Some(executable);
    }

    /// Gives the whole argument list.
    pub fn args(&mut self, args: Vec<String>)
        ensures
            final(self).args_given() == Some(views_of(args@)),
            final(self).executable_given() == old(self).executable_given(),
            final(self).env_given() == old(self).env_given(),
            final(self).current_dir_given() == old(self).current_dir_given(),
    {
        self.args = Some(args);
    }

    /// Gives the whole environment list.
    pub fn env(&mut self, env: Vec<String>)
        ensures
            final(self).env_given() == Some(views_of(env@)),
            final(self).executable_given() == old(self).executable_given(),
            final(self).args_given() == old(self).args_given(),
            final(self).current_dir_given() == old(self).current_dir_given(),
    {
        self.env = Some(env);
    }

    /// Gives the working directory.
    pub fn current_dir(&mut self, current_dir: String)
        ensures
            final(self).current_dir_given() == Some(current_dir@),
            final(self).executable_given() == old(self).executable_given(),
            final(self).args_given() == old(self).args_given(),
            final(self).env_given() == old(self).env_given(),
    {
        self.current_dir = Some(current_dir);
    }

    /// The command, when the executable, the arguments and the environment
    /// were all given; otherwise the first missing one of them, named in
    /// that order. The directory is carried over as given or not.
    pub fn build(&self) -> (r: Result<Command, String>)
        ensures
            r is Ok <==> {
                &&& self.executable_given() is Some
                &&& self.args_given() is Some
                &&& self.env_given() is Some
            },
            r matches Ok(c) ==> {
                &&& Some(c.executable@) == self.executable_given()
                &&& Some(views_of(c.args@)) == self.args_given()
                &&& Some(views_of(c.env@)) == self.env_given()
                &&& match (c.current_dir, self.current_dir_given()) {
                    (Some(d), Some(given)) => d@ == given,
                    (None, None) => true,
                    _ => false,
                }
            },
            r matches Err(m) ==> m@ == if self.executable_given() is None {
                "executable is not set"@
            } else if self.args_given() is None {
                "args is not set"@
            } else {
                "env is not set"@
            },
    {
        let executable = match &self.executable {
            Some(e) => e.clone(),
            None => {
                return Err(String::from_str("executable is not set"));
            },
        };
        let args = match &self.args {
            Some(a) => clone_strings(a),
            None => {
                return Err(String::from_str("args is not set"));
            },
        };
        let env = match &self.env {
            Some(e) => clone_strings(e),
            None => {
                return Err(String::from_str("env is not set"));
            },
        };
        let current_dir = match &self.current_dir {
            Some(d) => Some(d.clone()),
            None => None,
        };
        Ok(Command { executable, args, env, current_dir })
    }
}

} // verus!
