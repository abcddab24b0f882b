//! The writer: it turns a module into Metal text.

use crate::decimal;
use crate::emission::Emission;
use crate::error::{Error, Stop};
use crate::ir::{Module, TypeHandle};
use crate::keyword;
use crate::keyword::Level;
use crate::options::{Options, TranslationInfo};
use vstd::prelude::*;

mod blocks;
mod constants;
mod expressions;
mod functions;
mod types;

verus! {

/// Writes modules as Metal text at the end of a string.
///
/// The view of a writer is the text that it holds.
#[derive(Debug)]
pub struct Writer {
    out: String,
}

impl View for Writer {
    type V = Seq<char>;

    closed spec fn view(&self) -> Seq<char> {
        self.out@
    }
}

impl Writer {
    /// Creates a new `Writer` instance.
    pub fn new(out: String) -> (writer: Writer)
        ensures
            writer@ == out@,
    {
        Writer { out }
    }

    /// Finishes writing and returns the output.
    pub fn finish(self) -> (out: String)
        ensures
            out@ == self@,
    {
        self.out
    }

    /// Appends the text of `module`, and returns the names of its entry points.
    ///
    /// Where this fails, what was appended before the failure stays.
    pub fn write(&mut self, module: &Module, options: &Options) -> (result: Result<
        TranslationInfo,
        Error,
    >)
        requires
            module.is_writable(*options),
        ensures
            final(self)@ == old(self)@ + module.module_text(*options).text,
            match result {
                Ok(info) => module.module_text(*options).fault is None && info.names()
                    == module.entry_point_names(),
                Err(error) => module.module_text(*options).fault == Some(error@),
            },
    {
        self.try_write(module, options).unwrap()
    }

    /// Appends the text of `module`, and returns the names of its entry points, or nothing where
    /// the text comes to something that does not exist, or that is part of itself.
    ///
    /// Where this fails or returns nothing, what was appended before stays.
    pub fn try_write(&mut self, module: &Module, options: &Options) -> (result: Option<
        Result<TranslationInfo, Error>,
    >)
        ensures
            final(self)@ == old(self)@ + module.module_text(*options).text,
            match result {
                Some(Ok(info)) => module.module_text(*options).fault is None && info.names()
                    == module.entry_point_names(),
                Some(Err(error)) => module.module_text(*options).fault == Some(error@)
                    && module.is_writable(*options),
                None => !module.is_writable(*options),
            },
    {
        proof {
            reveal(Emission::made);
        }
        match self.put_module(module, options) {
            Ok(()) => Some(Ok(functions::collect_names(module))),
            Err(Stop::Error(error)) => Some(Err(error)),
            Err(Stop::Undefined) => None,
        }
    }

    /// Appends the text of `module`.
    fn put_module(&mut self, module: &Module, options: &Options) -> (outcome: Result<(), Stop>)
        ensures
            module.module_text(*options).made(old(self)@, final(self)@, outcome),
    {
        broadcast use crate::emission::group_made;

        self.put("#include <metal_stdlib>\n");
        self.put("#include <simd/simd.h>\n");
        self.put("\n");
        self.write_type_defs(module)?;
        self.write_functions(module, options)
    }

    /// Appends `text`.
    fn put(&mut self, text: &str)
        ensures
            final(self)@ == old(self)@ + text@,
            Emission::text(text@).made(old(self)@, final(self)@, Ok(())),
    {
        proof {
            reveal(Emission::made);
        }
        self.out.append(text);
    }

    /// Stops on `error`.
    fn fail(&self, error: Error) -> (outcome: Result<(), Stop>)
        ensures
            outcome is Err,
            Emission::failure(error@).made(self@, self@, outcome),
    {
        proof {
            reveal(Emission::made);
            assert(self@ =~= self@ + Seq::<char>::empty());
        }
        Err(Stop::Error(error))
    }

    /// Stops on something that does not exist, or that is part of itself.
    fn miss(&self) -> (outcome: Result<(), Stop>)
        ensures
            outcome is Err,
            Emission::undefined().made(self@, self@, outcome),
    {
        proof {
            reveal(Emission::made);
            assert(self@ =~= self@ + Seq::<char>::empty());
        }
        Err(Stop::Undefined)
    }

    /// Appends the name of a type.
    fn put_type(&mut self, handle: TypeHandle, module: &Module) -> (outcome: Result<(), Stop>)
        ensures
            module.type_text(handle).made(old(self)@, final(self)@, outcome),
    {
        if handle >= module.types.len() {
            return self.miss();
        }
        self.put(module.types[handle].name.as_str());
        Ok(())
    }

    /// Appends `n` in decimal.
    fn put_unsigned(&mut self, n: u64)
        ensures
            Emission::text(decimal::decimal(n as nat)).made(old(self)@, final(self)@, Ok(())),
    {
        proof {
            reveal(Emission::made);
        }
        decimal::push_unsigned(&mut self.out, n);
    }

    /// Appends `i` in decimal.
    fn put_signed(&mut self, i: i64)
        ensures
            Emission::text(decimal::signed_decimal(i as int)).made(
                old(self)@,
                final(self)@,
                Ok(()),
            ),
    {
        proof {
            reveal(Emission::made);
        }
        decimal::push_signed(&mut self.out, i);
    }

    /// Appends the indentation of a line at `level`.
    fn put_level(&mut self, level: Level)
        ensures
            Emission::text(keyword::indentation(level.depth())).made(
                old(self)@,
                final(self)@,
                Ok(()),
            ),
    {
        proof {
            reveal(Emission::made);
        }
        level.fmt(&mut self.out);
    }
}

} // verus!
