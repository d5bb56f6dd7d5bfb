//! Command line argument handling for a custom cargo command.
//!
//! Running `cargo <foo>` looks for an executable named *cargo-<foo>* and calls it with
//! *<foo>* as its second command line argument, while argument parsers expect the
//! first argument to be the executable's name and the real arguments to follow it.
//! [`CargoExtensionCliParser`] closes that gap: it yields `"cargo uwp"` in place of the
//! executable's name, skips the second argument, and then yields the rest.

use vstd::prelude::*;
use crate::os::{copy_units, os_string, os_units, units_view};

verus! {

/// The program name under which the command presents itself, as code units.
pub open spec fn program_name() -> Seq<u16> {
    os_units("cargo uwp"@)
}

/// The view of an optional operating-system string.
pub open spec fn option_units_view(o: Option<Vec<u16>>) -> Option<Seq<u16>> {
    match o {
        Some(s) => Some(s@),
        None => None,
    }
}


/// The item that the call which moves the position to `index` produces.
pub open spec fn item_at(args: Seq<Seq<u16>>, index: int) -> Option<Seq<u16>> {
    if index == 1 {
        Some(program_name())
    } else if 0 <= index < args.len() {
        Some(args[index])
    } else {
        None
    }
}

/// Everything a fresh parser produces before it first reports the end: the program
/// name, then every argument after the first two.
pub open spec fn yielded(args: Seq<Seq<u16>>) -> Seq<Seq<u16>> {
    if args.len() <= 2 {
        seq![program_name()]
    } else {
        seq![program_name()] + args.subrange(2, args.len() as int)
    }
}

/// A structure holding command line arguments, handing them out one at a time in the
/// form an argument parser expects of a program called `cargo uwp`. Each argument is held
/// as the code units of its operating-system string, so it passes through unchanged.
pub struct CargoExtensionCliParser {
    args: Vec<Vec<u16>>,
    current_index: usize,
}

impl CargoExtensionCliParser {
    /// The arguments the parser was made with.
    pub closed spec fn arguments(&self) -> Seq<Seq<u16>> {
        units_view(self.args@)
    }

    /// How many items have been asked for so far.
    pub closed spec fn position(&self) -> nat {
        self.current_index as nat
    }

    /// Constructs a parser over the given command line arguments, the executable's
    /// name first.
    pub fn new(args: Vec<Vec<u16>>) -> (parser: Self)
        ensures
            parser.arguments() == units_view(args@),
            parser.position() == 0,
    {
        CargoExtensionCliParser { args, current_index: 0 }
    }

    /// Produces the next command line argument: the string `"cargo uwp"` first, then
    /// the arguments after the second one, then `None`.
    pub fn next(&mut self) -> (item: Option<Vec<u16>>)
        requires
            old(self).position() < usize::MAX,
        ensures
            final(self).arguments() == old(self).arguments(),
            final(self).position() == old(self).position() + 1,
            option_units_view(item) == item_at(old(self).arguments(), old(self).position() + 1int),
    {
        self.current_index = self.current_index + 1;
        if self.current_index == 1 {
            Some(os_string("cargo uwp"))
        } else if self.current_index < self.args.len() {
            Some(copy_units(&self.args[self.current_index]))
        } else {
            None
        }
    }
}

/// The items of a fresh parser, asked for one after another, are exactly the program
/// name followed by the arguments after the second one; every later request gives
/// `None`.
pub proof fn lemma_parser_yields_program_name_then_arguments(args: Seq<Seq<u16>>, k: int)
    requires
        k >= 1,
    ensures
        k - 1 < yielded(args).len() ==> item_at(args, k) == Some(yielded(args)[k - 1]),
        k - 1 >= yielded(args).len() ==> item_at(args, k) is None,
{
}

/// Once the parser has reported the end, it keeps reporting it.
pub proof fn lemma_parser_is_fused(args: Seq<Seq<u16>>, k: int)
    requires
        k >= 1,
        item_at(args, k) is None,
    ensures
        item_at(args, k + 1) is None,
{
}

} // verus!
