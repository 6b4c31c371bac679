//! The state that the host functions share, and the faults that stop them.

use crate::arena::Arena;
use vstd::prelude::*;
use vstd::string::*;

verus! {

/// Text waiting to be printed.
pub struct Console {
    out: String,
    err: String,
}

/// What a [`Console`] amounts to: the text for standard output and for standard
/// error.
#[verifier::ext_equal]
pub struct ConsoleView {
    pub out: Seq<char>,
    pub err: Seq<char>,
}

impl ConsoleView {
    /// The console with `text` added to standard output.
    pub open spec fn said(self, text: Seq<char>) -> ConsoleView {
        ConsoleView { out: self.out + text, err: self.err }
    }

    /// The console with `text` added to standard error.
    pub open spec fn complained(self, text: Seq<char>) -> ConsoleView {
        ConsoleView { out: self.out, err: self.err + text }
    }
}

impl View for Console {
    type V = ConsoleView;

    closed spec fn view(&self) -> ConsoleView {
        ConsoleView { out: self.out@, err: self.err@ }
    }
}

impl Console {
    /// A console with nothing to print.
    pub fn new() -> (r: Console)
        ensures
            r@.out == Seq::<char>::empty(),
            r@.err == Seq::<char>::empty(),
    {
        Console { out: String::new(), err: String::new() }
    }

    /// Adds `text` to standard output.
    pub fn say(&mut self, text: &str)
        ensures
            final(self)@ == old(self)@.said(text@),
    {
        self.out.append(text);
    }

    /// Adds `text` to standard error.
    pub fn complain(&mut self, text: &str)
        ensures
            final(self)@ == old(self)@.complained(text@),
    {
        self.err.append(text);
    }

    /// Takes the text for standard output away, to be printed.
    pub fn take_out(&mut self) -> (r: String)
        ensures
            r@ == old(self)@.out,
            final(self)@.out == Seq::<char>::empty(),
            final(self)@.err == old(self)@.err,
    {
        let r = self.out.clone();
        self.out = String::new();
        r
    }

    /// Takes the text for standard error away, to be printed.
    pub fn take_err(&mut self) -> (r: String)
        ensures
            r@ == old(self)@.err,
            final(self)@.err == Seq::<char>::empty(),
            final(self)@.out == old(self)@.out,
    {
        let r = self.err.clone();
        self.err = String::new();
        r
    }
}

/// Why a host function cannot finish at all.
#[derive(Clone, Copy, Debug, PartialEq, Eq, Structural)]
pub enum Fault {
    /// An address or a range leaves the numbers that can hold it.
    AddressOverflow,
    /// A list does not fit into the guest's memory, grown or not.
    OutOfMemory,
}

/// Everything that outlives a single call of a host function.
pub struct Host {
    pub arena: Arena,
    pub console: Console,
}

impl Host {
    /// The host before the guest has run.
    pub fn new() -> (r: Host)
        ensures
            r.arena@ == crate::arena::ArenaView::fresh(),
            r.console@ == (ConsoleView { out: Seq::empty(), err: Seq::empty() }),
    {
        Host { arena: Arena::new(), console: Console::new() }
    }
}

} // verus!
