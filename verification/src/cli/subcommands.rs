//! Finding the action of a subcommand by its name.

use vstd::prelude::*;
use crate::cli::error::CliError;
use crate::cli::error::CliErrorView;
use crate::text::str_eq;
use crate::text::texts;

verus! {

/// Where in `names` the command `command` stands, if it is there.
pub open spec fn slot_of(names: Seq<Seq<char>>, command: Seq<char>) -> Option<int> {
    if names.contains(command) {
        Some(names.index_of(command))
    } else {
        None
    }
}

/// The names of the subcommands of one parent command. Each name stands for
/// the slot in which the caller keeps the action of that subcommand.
#[derive(Debug, Clone, PartialEq, Eq)]
pub struct CommandIndex {
    names: Vec<String>,
}

impl View for CommandIndex {
    type V = Seq<Seq<char>>;

    closed spec fn view(&self) -> Seq<Seq<char>> {
        texts(self.names@)
    }
}

impl CommandIndex {
    /// Whether every name stands in the index once.
    pub open spec fn wf(&self) -> bool {
        self@.no_duplicates()
    }

    /// An index without names.
    pub fn new() -> (index: Self)
        ensures
            index.wf(),
            index@ == Seq::<Seq<char>>::empty(),
    {
        let index = CommandIndex { names: Vec::new() };
        assert(index@ =~= Seq::<Seq<char>>::empty());
        index
    }

    /// How many names the index holds.
    pub fn len(&self) -> (n: usize)
        ensures
            n == self@.len(),
    {
        self.names.len()
    }

    /// The slot of `command`, if the index holds the name.
    pub fn lookup(&self, command: &str) -> (slot: Option<usize>)
        ensures
            match slot {
                Some(i) => i < self@.len() && self@[i as int] == command@,
                None => !self@.contains(command@),
            },
            self.wf() ==> match slot {
                Some(i) => slot_of(self@, command@) == Some(i as int),
                None => slot_of(self@, command@) is None,
            },
    {
        let mut i: usize = 0;
        while i < self.names.len()
            invariant
                i <= self.names.len(),
                forall|k: int| 0 <= k < i ==> self@[k] != command@,
            decreases self.names.len() - i,
        {
            assert(self@[i as int] == self.names@[i as int]@);
            if str_eq(self.names[i].as_str(), command) {
                proof {
                    if self.wf() {
                        let j = self@.index_of(command@);
                        assert(self@.contains(command@));
                        assert(self@[j] == command@);
                    }
                }
                return Some(i);
            }
            i += 1;
        }
        None
    }

    /// Gives `command` a slot and returns it: the slot that the name has
    /// already, or a new one after the last.
    pub fn register(&mut self, command: &str) -> (slot: usize)
        requires
            old(self).wf(),
        ensures
            final(self).wf(),
            slot_of(final(self)@, command@) == Some(slot as int),
            match slot_of(old(self)@, command@) {
                Some(i) => slot == i && final(self)@ == old(self)@,
                None => slot == old(self)@.len() && final(self)@ == old(self)@.push(command@),
            },
    {
        match self.lookup(command) {
            Some(slot) => slot,
            None => {
                let slot = self.names.len();
                self.names.push(command.to_owned());
                assert(self@ =~= old(self)@.push(command@));
                assert(self@[slot as int] == command@);
                assert(self@.contains(command@));
                assert(self@.no_duplicates());
                let ghost j = self@.index_of(command@);
                assert(self@[j] == command@);
                slot
            },
        }
    }

    /// Decides which action a command line runs: the one in the slot of the
    /// subcommand. A command line without arguments, or with a subcommand
    /// that has no slot, is an error.
    pub fn dispatch(&self, subcommand: Option<&str>) -> (slot: Result<usize, CliError>)
        requires
            self.wf(),
        ensures
            match subcommand {
                None => slot is Err && slot->Err_0@ == CliErrorView::RequiresArgs,
                Some(name) => match slot_of(self@, name@) {
                    Some(i) => slot == Ok::<usize, CliError>(i as usize) && i < self@.len(),
                    None => slot is Err && slot->Err_0@ == CliErrorView::InvalidSubcommand,
                },
            },
    {
        let name = match subcommand {
            Some(name) => name,
            None => {
                return Err(CliError::RequiresArgs);
            },
        };
        match self.lookup(name) {
            Some(slot) => Ok(slot),
            None => Err(CliError::InvalidSubcommand),
        }
    }
}

} // verus!
