//! A launcher that keeps a record of what it launched.

use vstd::prelude::*;
use crate::command::Invocation;

verus! {

/// Carries out commands through a function of the caller and keeps, for the
/// proofs, a record of every call: the command that was handed over and what
/// came back.  The function is reached through [`Launcher::launch`] only, so
/// the record tells how often, and with what, it was called.
pub struct Launcher<R, F> {
    function: F,
    record: Ghost<Seq<(Invocation, R)>>,
}

impl<R, F: Fn(Invocation) -> R> Launcher<R, F> {
    /// The function that carries out the commands.
    pub closed spec fn function(&self) -> F {
        self.function
    }

    /// The calls made so far, in order: each command with what came back.
    pub closed spec fn calls(&self) -> Seq<(Invocation, R)> {
        self.record@
    }

    /// A launcher that has launched nothing yet.
    pub fn new(function: F) -> (launcher: Self)
        ensures
            launcher.function() == function,
            launcher.calls() == Seq::<(Invocation, R)>::empty(),
    {
        Launcher { function, record: Ghost(Seq::empty()) }
    }

    /// Hands `command` to the function, once, and puts the call on record.
    pub fn launch(&mut self, command: Invocation) -> (observed: R)
        requires
            call_requires(old(self).function(), (command,)),
        ensures
            final(self).function() == old(self).function(),
            final(self).calls() == old(self).calls().push((command, observed)),
            call_ensures(old(self).function(), (command,), observed),
    {
        let observed = (self.function)(command);
        proof {
            self.record@ = self.record@.push((command, observed));
        }
        observed
    }
}

} // verus!
