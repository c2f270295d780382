//! The argument cursor: a one-shot, forward-only view of the argument
//! stream of a single property announcement.
//!
//! At the foreign boundary the arguments of one announcement arrive as a
//! variadic list; the values actually carried are signed integers, unsigned
//! integers, strings and arrays of strings. The cursor holds those values in
//! announcement order, already captured as owned bytes, and hands each out
//! exactly once: extraction is irreversible and there is no positional or
//! repeatable access. A cursor is built for one decoder invocation and
//! discarded with it.

use vstd::prelude::*;

verus! {

/// One argument of a property announcement, as captured from the foreign
/// call: a signed integer, an unsigned integer, the bytes a string pointer
/// points at (without the terminator), or the byte strings an array of
/// string pointers points at.
#[derive(Debug, PartialEq, Eq)]
pub enum ArgValue {
    Int(i32),
    Uint(u32),
    Str(Vec<u8>),
    StrArray(Vec<Vec<u8>>),
}

/// The integer carried by an `Int` argument.
pub open spec fn int_of(a: ArgValue) -> i32 {
    match a {
        ArgValue::Int(v) => v,
        _ => arbitrary(),
    }
}

/// The count carried by a `Uint` argument.
pub open spec fn uint_of(a: ArgValue) -> u32 {
    match a {
        ArgValue::Uint(v) => v,
        _ => arbitrary(),
    }
}

/// The bytes carried by a `Str` argument.
pub open spec fn str_of(a: ArgValue) -> Seq<u8> {
    match a {
        ArgValue::Str(b) => b@,
        _ => arbitrary(),
    }
}

/// The byte strings carried by a `StrArray` argument, in source order.
pub open spec fn arr_of(a: ArgValue) -> Seq<Seq<u8>> {
    match a {
        ArgValue::StrArray(v) => v@.map(|i: int, b: Vec<u8>| b@),
        _ => arbitrary(),
    }
}

/// The cursor over one announcement's argument stream. Its view is the
/// sequence of arguments not yet extracted; each `next_*` call consumes the
/// front of that sequence.
#[derive(Debug)]
pub struct ArgCursor {
    args: Vec<ArgValue>,
}

impl View for ArgCursor {
    type V = Seq<ArgValue>;

    closed spec fn view(&self) -> Seq<ArgValue> {
        self.args@
    }
}

impl ArgCursor {
    /// Builds the cursor over one announcement's arguments, front first.
    pub fn new(args: Vec<ArgValue>) -> (c: Self)
        ensures
            c@ == args@,
    {
        ArgCursor { args }
    }

    /// How many arguments are still unextracted.
    pub fn remaining(&self) -> (n: usize)
        ensures
            n == self@.len(),
    {
        self.args.len()
    }

    /// Extracts the next argument as a signed integer, consuming it.
    pub fn next_int(&mut self) -> (r: i32)
        requires
            old(self)@.len() > 0,
            old(self)@[0] is Int,
        ensures
            final(self)@ == old(self)@.drop_first(),
            r == int_of(old(self)@[0]),
    {
        let front = self.args.remove(0);
        match front {
            ArgValue::Int(v) => v,
            _ => unreached(),
        }
    }

    /// Extracts the next argument as an unsigned integer, consuming it.
    pub fn next_uint(&mut self) -> (r: u32)
        requires
            old(self)@.len() > 0,
            old(self)@[0] is Uint,
        ensures
            final(self)@ == old(self)@.drop_first(),
            r == uint_of(old(self)@[0]),
    {
        let front = self.args.remove(0);
        match front {
            ArgValue::Uint(v) => v,
            _ => unreached(),
        }
    }

    /// Extracts the next argument as the bytes of one string, consuming it.
    pub fn next_str(&mut self) -> (r: Vec<u8>)
        requires
            old(self)@.len() > 0,
            old(self)@[0] is Str,
        ensures
            final(self)@ == old(self)@.drop_first(),
            r@ == str_of(old(self)@[0]),
    {
        let front = self.args.remove(0);
        match front {
            ArgValue::Str(b) => b,
            _ => unreached(),
        }
    }

    /// Extracts the next argument as an array of byte strings, consuming it.
    pub fn next_str_array(&mut self) -> (r: Vec<Vec<u8>>)
        requires
            old(self)@.len() > 0,
            old(self)@[0] is StrArray,
        ensures
            final(self)@ == old(self)@.drop_first(),
            r@.map(|i: int, b: Vec<u8>| b@) == arr_of(old(self)@[0]),
    {
        let front = self.args.remove(0);
        match front {
            ArgValue::StrArray(v) => v,
            _ => unreached(),
        }
    }
}

} // verus!
