//! The options that the command line gives.

use crate::colors::{shell_named, ShellType};
use crate::text::{chars_of, parse_number, parsed_number, slice_text, string_of};
use vstd::prelude::*;

verus! {

/// The options of one invocation.
#[derive(Debug)]
pub struct CommandLineOptions {
    /// The shell for which the prompt is drawn.
    pub shell: ShellType,
    /// The exit code of the command that ran last.
    pub error_code: u8,
}

/// What is wrong with the command line.
#[derive(Debug)]
pub enum ArgError {
    /// The exit code is no number from 0 to 255; it holds the argument.
    BadErrorCode(String),
    /// The shell is not known; it holds the argument.
    UnknownShell(String),
}

/// The mathematical content of an `ArgError`.
pub enum ArgFault {
    BadErrorCode(Seq<char>),
    UnknownShell(Seq<char>),
}

impl View for ArgError {
    type V = ArgFault;

    open spec fn view(&self) -> ArgFault {
        match self {
            ArgError::BadErrorCode(s) => ArgFault::BadErrorCode(s@),
            ArgError::UnknownShell(s) => ArgFault::UnknownShell(s@),
        }
    }
}

/// The largest exit code.
pub const MAX_ERROR_CODE: u64 = 255;

/// The options that the arguments give: the exit code is 0 where there is
/// none and must else be a number from 0 to 255; the shell is unknown where
/// there is none and must else be known.
pub open spec fn options_of(shell: Option<Seq<char>>, error_code: Option<Seq<char>>) -> Result<
    (ShellType, nat),
    ArgFault,
> {
    let code = match error_code {
        Some(text) => parsed_number(text, MAX_ERROR_CODE as nat),
        None => Some(0nat),
    };
    let kind = match shell {
        Some(name) => shell_named(name),
        None => Some(ShellType::Unknown),
    };
    if code is None {
        Err(ArgFault::BadErrorCode(error_code.unwrap()))
    } else if kind is None {
        Err(ArgFault::UnknownShell(shell.unwrap()))
    } else {
        Ok((kind.unwrap(), code.unwrap()))
    }
}

/// The options that the arguments give.
pub fn parse(shell: Option<&str>, error_code: Option<&str>) -> (r: Result<
    CommandLineOptions,
    ArgError,
>)
    ensures
        match r {
            Ok(opts) => options_of(slice_text(shell), slice_text(error_code)) == Ok::<
                (ShellType, nat),
                ArgFault,
            >((opts.shell, opts.error_code as nat)),
            Err(e) => options_of(slice_text(shell), slice_text(error_code)) == Err::<
                (ShellType, nat),
                ArgFault,
            >(e@),
        },
{
    let error_code: u8 = match error_code {
        Some(text) => match parse_number(&chars_of(text), MAX_ERROR_CODE) {
            Some(n) => n as u8,
            None => {
                return Err(ArgError::BadErrorCode(string_of(&chars_of(text))));
            },
        },
        None => 0,
    };
    let shell = match shell {
        Some(name) => match ShellType::parse(name) {
            Some(shell) => shell,
            None => {
                return Err(ArgError::UnknownShell(string_of(&chars_of(name))));
            },
        },
        None => ShellType::Unknown,
    };
    Ok(CommandLineOptions { shell, error_code })
}

} // verus!
