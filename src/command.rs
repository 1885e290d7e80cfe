//! The example record `Command` and the builder synthesized for it:
//! `executable` is plain, `args` is repeated with the append setter `arg`,
//! `env` is a plain `Vec<String>`, `current_dir` is already optional.
use vstd::prelude::*;
use crate::builder::FieldNotSet;

verus! {

/// Its `Debug` text reads
/// `Command { executable: "cargo", args: ["build"], env: [], current_dir: None }`.
#[derive(Debug)]
pub struct Command {
    pub executable: String,
    pub args: Vec<String>,
    pub env: Vec<String>,
    pub current_dir: Option<String>,
}

#[derive(Debug)]
pub struct CommandBuilder {
    pub executable: Option<String>,
    pub args: Vec<String>,
    pub env: Option<Vec<String>>,
    pub current_dir: Option<String>,
}

impl Command {
    /// A builder with every slot unset and no arguments.
    pub fn builder() -> (r: CommandBuilder)
        ensures
            r.executable is None,
            r.args@.len() == 0,
            r.env is None,
            r.current_dir is None,
    {
        CommandBuilder { executable: None, args: Vec::new(), env: None, current_dir: None }
    }
}

fn clone_strings(v: &Vec<String>) -> (r: Vec<String>)
    ensures
        r@ == v@,
{
    let mut r: Vec<String> = Vec::new();
    let mut i: usize = 0;
    while i < v.len()
        invariant
            i <= v@.len(),
            r@ == v@.subrange(0, i as int),
        decreases v.len() - i,
    {
        r.push(v[i].clone());
        i = i + 1;
        assert(r@ =~= v@.subrange(0, i as int));
    }
    assert(v@.subrange(0, v@.len() as int) =~= v@);
    r
}

impl CommandBuilder {
    /// Sets `executable`; returns the builder for chaining.
    pub fn executable(&mut self, executable: String) -> (r: &mut Self)
        ensures
            *r == (CommandBuilder { executable: Some(executable), ..*old(self) }),
            *final(self) == *final(r),
    {
        self.executable = Some(executable);
        self
    }

    /// Replaces the whole argument list.
    pub fn args(&mut self, args: Vec<String>) -> (r: &mut Self)
        ensures
            *r == (CommandBuilder { args, ..*old(self) }),
            *final(self) == *final(r),
    {
        self.args = args;
        self
    }

    /// Appends one argument.
    pub fn arg(&mut self, arg: String) -> (r: &mut Self)
        ensures
            r.args@ == old(self).args@.push(arg),
            r.executable == old(self).executable,
            r.env == old(self).env,
            r.current_dir == old(self).current_dir,
            *final(self) == *final(r),
    {
        self.args.push(arg);
        self
    }

    /// Sets `env`.
    pub fn env(&mut self, env: Vec<String>) -> (r: &mut Self)
        ensures
            *r == (CommandBuilder { env: Some(env), ..*old(self) }),
            *final(self) == *final(r),
    {
        self.env = Some(env);
        self
    }

    /// Sets `current_dir`.
    pub fn current_dir(&mut self, current_dir: String) -> (r: &mut Self)
        ensures
            *r == (CommandBuilder { current_dir: Some(current_dir), ..*old(self) }),
            *final(self) == *final(r),
    {
        self.current_dir = Some(current_dir);
        self
    }

    /// Assembles the `Command`; fails naming the first unset required
    /// field (`executable`, then `env`). `args` defaults to empty and
    /// `current_dir` to absent. The builder is left unchanged.
    pub fn build(&self) -> (r: Result<Command, FieldNotSet>)
        ensures
            self.executable is None ==> (r matches Err(e) && e.field@ == "executable"@),
            self.executable is Some && self.env is None ==> (r matches Err(e) && e.field@
                == "env"@),
            self.executable is Some && self.env is Some ==> (r matches Ok(c) && c.executable
                == self.executable.unwrap() && c.args@ == self.args@ && c.env@
                == self.env.unwrap()@ && c.current_dir == self.current_dir),
    {
        let executable = match &self.executable {
            Some(e) => e.clone(),
            None => {
                return Err(FieldNotSet { field: String::from_str("executable") });
            },
        };
        let env = match &self.env {
            Some(e) => clone_strings(e),
            None => {
                return Err(FieldNotSet { field: String::from_str("env") });
            },
        };
        let current_dir = match &self.current_dir {
            Some(d) => Some(d.clone()),
            None => None,
        };
        Ok(Command { executable, args: clone_strings(&self.args), env, current_dir })
    }
}

} // verus!
