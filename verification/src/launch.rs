//! The file that the operating system asked the application to open.
//!
//! The process's arguments are read once, at startup, into a
//! `LaunchArgument`. It never changes afterwards, so every query of it gives
//! the same answer.

use vstd::prelude::*;
use vstd::string::*;
use crate::json::{encode_json_string, json_string_literal};
use crate::text::optional_text;

verus! {

/// The path among a process's arguments: the second argument, the first being
/// the executable.
pub open spec fn launch_path(args: Seq<String>) -> Option<Seq<char>> {
    if args.len() > 1 {
        Some(args[1]@)
    } else {
        None
    }
}

/// The statement that hands a JSON string literal to the front-end.
pub open spec fn script_text(literal: Seq<char>) -> Seq<char> {
    "window.__OPENED_FILE__ = "@ + literal + ";"@
}

/// The launch argument of a process: present or absent, fixed at startup.
#[derive(Debug)]
pub struct LaunchArgument {
    path: Option<String>,
}

impl View for LaunchArgument {
    type V = Option<Seq<char>>;

    closed spec fn view(&self) -> Option<Seq<char>> {
        optional_text(self.path)
    }
}

impl LaunchArgument {
    /// Picks the launch argument out of the process's arguments.
    pub fn capture(args: &Vec<String>) -> (r: LaunchArgument)
        ensures
            r@ == launch_path(args@),
    {
        if args.len() > 1 {
            LaunchArgument { path: Some(args[1].clone()) }
        } else {
            LaunchArgument { path: None }
        }
    }
}

/// The path that the application was launched with, if there was one.
pub fn get_file_opened_with(launch: &LaunchArgument) -> (r: Option<String>)
    ensures
        optional_text(r) == launch@,
{
    match &launch.path {
        Some(path) => Some(path.clone()),
        None => None,
    }
}

/// The statement that assigns `literal` to the front-end's global.
pub fn opened_file_script(literal: &str) -> (r: String)
    ensures
        r@ == script_text(literal@),
{
    let mut script = String::from_str("window.__OPENED_FILE__ = ");
    script.append(literal);
    script.append(";");
    script
}

/// The script to run in the front-end at startup: none without a launch
/// argument; otherwise the assignment of the argument's JSON string literal
/// to the front-end's global.
pub fn startup_script(launch: &LaunchArgument) -> (r: Option<String>)
    ensures
        match launch@ {
            Some(path) => r matches Some(script) && script@ == script_text(
                json_string_literal(path),
            ),
            None => r is None,
        },
{
    match &launch.path {
        Some(path) => match encode_json_string(path.as_str()) {
            Ok(literal) => Some(opened_file_script(literal.as_str())),
            Err(_) => None,
        },
        None => None,
    }
}

/// Two queries of one launch argument agree: whatever
/// `get_file_opened_with` returned first, it returns again.
pub proof fn opened_with_is_stable(
    launch: LaunchArgument,
    first: Option<String>,
    second: Option<String>,
)
    requires
        optional_text(first) == launch@,
        optional_text(second) == launch@,
    ensures
        optional_text(first) == optional_text(second),
        first is None <==> second is None,
{
}

/// A process started with no argument beyond its own name has no launch
/// argument.
pub proof fn no_argument_no_launch_path(args: Seq<String>)
    requires
        args.len() <= 1,
    ensures
        launch_path(args) is None,
{
}

} // verus!
