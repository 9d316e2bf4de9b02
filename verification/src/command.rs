//! The command line grammar: `render <scene_file> frame [<frame>]`,
//! `render <scene_file> animation <start_frame> <frames>`, and
//! `editor <scene_file>`.

use vstd::prelude::*;
use vstd::string::*;

use crate::render::RenderType;
use crate::text::{decimal_digits, decimal_value, is_u32_decimal, str_eq};

verus! {

/// Declares `std::fmt::Error` as the error half of `from_args`' result;
/// no value of it is ever made here.
#[verifier::external_type_specification]
#[verifier::external_body]
pub struct ExFmtError(std::fmt::Error);

/// A parsed invocation: render a scene, or edit one.
pub enum Command {
    Render(String, RenderType),
    Editor(String),
}

/// The first reason a command line is turned away, in the order the
/// front end checks it.
#[derive(Debug, Clone, Copy, PartialEq, Eq)]
pub enum CommandError {
    NoCommand,
    UnknownCommand,
    MissingRenderArgs,
    UnknownRenderType,
    BadFrameNumber,
    WrongAnimationArgCount,
    BadAnimationNumber,
    WrongEditorArgCount,
}

/// The first problem with a command line, or `None` when it fits the
/// grammar.
pub open spec fn spec_args_problem(args: Seq<String>) -> Option<CommandError> {
    if args.len() < 2 {
        Some(CommandError::NoCommand)
    } else if args[1]@ == "render"@ {
        if args.len() < 4 {
            Some(CommandError::MissingRenderArgs)
        } else if args[3]@ == "frame"@ {
            if args.len() == 5 && !is_u32_decimal(args[4]@) {
                Some(CommandError::BadFrameNumber)
            } else {
                None
            }
        } else if args[3]@ == "animation"@ {
            if args.len() != 6 {
                Some(CommandError::WrongAnimationArgCount)
            } else if !is_u32_decimal(args[4]@) || !is_u32_decimal(args[5]@) {
                Some(CommandError::BadAnimationNumber)
            } else {
                None
            }
        } else {
            Some(CommandError::UnknownRenderType)
        }
    } else if args[1]@ == "editor"@ {
        if args.len() == 3 {
            None
        } else {
            Some(CommandError::WrongEditorArgCount)
        }
    } else {
        Some(CommandError::UnknownCommand)
    }
}

/// Check a command line against the grammar, reporting the first
/// problem in the order the front end aborts on them; a clean result is
/// exactly what `Command::from_args` requires.
pub fn validate_args(args: &Vec<String>) -> (r: Option<CommandError>)
    ensures
        r == spec_args_problem(args@),
        r is None <==> args_well_formed(args@),
{
    proof {
        reveal_strlit("render");
        reveal_strlit("editor");
        reveal_strlit("frame");
        reveal_strlit("animation");
        assert("render"@[0] != "editor"@[0]);
        assert("frame"@.len() != "animation"@.len());
    }
    if args.len() < 2 {
        return Some(CommandError::NoCommand);
    }
    if str_eq((&args[1]).as_str(), "render") {
        if args.len() < 4 {
            Some(CommandError::MissingRenderArgs)
        } else if str_eq((&args[3]).as_str(), "frame") {
            if args.len() == 5 && crate::text::parse_u32((&args[4]).as_str()).is_none() {
                Some(CommandError::BadFrameNumber)
            } else {
                None
            }
        } else if str_eq((&args[3]).as_str(), "animation") {
            if args.len() != 6 {
                Some(CommandError::WrongAnimationArgCount)
            } else if crate::text::parse_u32((&args[4]).as_str()).is_none() || crate::text::parse_u32(
                (&args[5]).as_str(),
            ).is_none() {
                Some(CommandError::BadAnimationNumber)
            } else {
                None
            }
        } else {
            Some(CommandError::UnknownRenderType)
        }
    } else if str_eq((&args[1]).as_str(), "editor") {
        if args.len() == 3 {
            None
        } else {
            Some(CommandError::WrongEditorArgCount)
        }
    } else {
        Some(CommandError::UnknownCommand)
    }
}

/// The arguments name a command this grammar accepts; anything else
/// makes the original front end abort with a message.
pub open spec fn args_well_formed(args: Seq<String>) -> bool {
    &&& args.len() >= 2
    &&& args[1]@ == "render"@ || args[1]@ == "editor"@
    &&& args[1]@ == "render"@ ==> {
        &&& args.len() >= 4
        &&& args[3]@ == "frame"@ || args[3]@ == "animation"@
        &&& args[3]@ == "frame"@ && args.len() == 5 ==> is_u32_decimal(args[4]@)
        &&& args[3]@ == "animation"@ ==> args.len() == 6 && is_u32_decimal(args[4]@)
            && is_u32_decimal(args[5]@)
    }
    &&& args[1]@ == "editor"@ ==> args.len() == 3
}

impl Command {
    /// Parse the process arguments (program name first). Accepts exactly
    /// the grammar above: a missing frame index means frame `0`.
    pub fn from_args(args: Vec<String>) -> (r: Result<Command, std::fmt::Error>)
        requires
            args_well_formed(args@),
        ensures
            r is Ok,
            args@[1]@ == "editor"@ ==> (r matches Ok(Command::Editor(file)) && file@
                == args@[2]@),
            args@[1]@ == "render"@ && args@[3]@ == "frame"@ && args@.len() == 5 ==> (r matches Ok(
                Command::Render(file, RenderType::SingleFrame(frame)),
            ) && file@ == args@[2]@ && frame == decimal_value(decimal_digits(args@[4]@))),
            args@[1]@ == "render"@ && args@[3]@ == "frame"@ && args@.len() != 5 ==> (r matches Ok(
                Command::Render(file, RenderType::SingleFrame(frame)),
            ) && file@ == args@[2]@ && frame == 0),
            args@[1]@ == "render"@ && args@[3]@ == "animation"@ ==> (r matches Ok(
                Command::Render(file, RenderType::Animation(start, count)),
            ) && file@ == args@[2]@ && start == decimal_value(decimal_digits(args@[4]@)) && count
                == decimal_value(decimal_digits(args@[5]@))),
    {
        proof {
            reveal_strlit("frame");
            reveal_strlit("animation");
            assert("frame"@.len() != "animation"@.len());
        }
        if str_eq((&args[1]).as_str(), "render") {
            let scene_file = (&args[2]).clone();
            if str_eq((&args[3]).as_str(), "frame") {
                let frame: u32 = if args.len() == 5 {
                    match crate::text::parse_u32((&args[4]).as_str()) {
                        Some(value) => value,
                        None => {
                            proof {
                                assert(false);  // the grammar admits only a numeric frame
                            }
                            0
                        },
                    }
                } else {
                    0
                };
                Ok(Command::Render(scene_file, RenderType::SingleFrame(frame)))
            } else {
                let start_frame: u32 = match crate::text::parse_u32((&args[4]).as_str()) {
                    Some(value) => value,
                    None => {
                        proof {
                            assert(false);  // the grammar admits only a numeric start frame
                        }
                        0
                    },
                };
                let frames: u32 = match crate::text::parse_u32((&args[5]).as_str()) {
                    Some(value) => value,
                    None => {
                        proof {
                            assert(false);  // the grammar admits only a numeric frame count
                        }
                        0
                    },
                };
                Ok(Command::Render(scene_file, RenderType::Animation(start_frame, frames)))
            }
        } else {
            let scene_file = (&args[2]).clone();
            Ok(Command::Editor(scene_file))
        }
    }
}

} // verus!
