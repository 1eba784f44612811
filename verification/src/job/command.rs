//! An immutable description of a program and its arguments.

use vstd::prelude::*;

verus! {

/// The mathematical value of a [`Command`]: a program name and an ordered
/// sequence of argument strings.
pub struct CommandView {
    pub name: Seq<char>,
    pub args: Seq<Seq<char>>,
}

/// A program name and its arguments.  Immutable; cheaply cloned.
#[derive(Debug)]
pub struct Command {
    name: &'static str,
    args: Vec<String>,
}

impl View for Command {
    type V = CommandView;

    closed spec fn view(&self) -> CommandView {
        CommandView { name: self.name@, args: self.args.deep_view() }
    }
}

impl Command {
    pub fn new(name: &'static str, args: Vec<String>) -> (c: Command)
        ensures
            c@.name == name@,
            c@.args == args.deep_view(),
    {
        Command { name, args }
    }

    pub fn name(&self) -> (r: &'static str)
        ensures
            r@ == self@.name,
    {
        self.name
    }

    pub fn args(&self) -> (r: Vec<String>)
        ensures
            r.deep_view() == self@.args,
    {
        let r = self.args.clone();
        proof {
            assert(r.deep_view() =~= self.args.deep_view());
        }
        r
    }
}

impl Clone for Command {
    fn clone(&self) -> (c: Command)
        ensures
            c@ == self@,
    {
        let c = Command { name: self.name, args: self.args.clone() };
        proof {
            assert(c.args.deep_view() =~= self.args.deep_view());
            assert(c@ =~= self@);
        }
        c
    }
}

} // verus!
