//! The three things a run can do, and how a run is told which.

use vstd::prelude::*;
use crate::cfunc::{CFunction, FunctionView};
use crate::error::{GlueError, GlueErrorView};
use crate::text::str_eq;

verus! {

/// What a run does.
#[derive(Clone, Copy, Debug, PartialEq, Eq, Structural)]
pub enum RunningMode {
    /// Read a C source and print the diagnostic program.
    ParseC,
    /// Read an intermediate document and write one Java file per function.
    GenerateJava,
    /// Read an intermediate document and write one C file per function.
    GenerateC,
}

/// The mode that a name selects, or the reason why it selects none.
pub open spec fn selected_mode(name: Option<Seq<char>>) -> Result<RunningMode, GlueErrorView> {
    match name {
        None => Err(GlueErrorView::MissingRunningMode),
        Some(name) => if name == "parse_c"@ {
            Ok(RunningMode::ParseC)
        } else if name == "generate_java"@ {
            Ok(RunningMode::GenerateJava)
        } else if name == "generate_c"@ {
            Ok(RunningMode::GenerateC)
        } else {
            Err(GlueErrorView::InvalidRunningMode("Invalid running mode"@))
        },
    }
}

/// The name of the file that a function's source in a language is written
/// to: the function's name and the language's extension.
pub open spec fn file_name(f: FunctionView, extension: Seq<char>) -> Seq<char> {
    f.name + "."@ + extension
}

impl RunningMode {
    /// Selects the mode by its name on the command line.
    pub fn from_name(name: Option<&str>) -> (mode: Result<RunningMode, GlueError>)
        ensures
            match mode {
                Ok(m) => selected_mode(
                    match name {
                        Some(n) => Some(n@),
                        None => None,
                    },
                ) == Ok::<RunningMode, GlueErrorView>(m),
                Err(e) => selected_mode(
                    match name {
                        Some(n) => Some(n@),
                        None => None,
                    },
                ) == Err::<RunningMode, GlueErrorView>(e@),
            },
    {
        match name {
            None => Err(GlueError::MissingRunningMode),
            Some(name) => {
                if str_eq(name, "parse_c") {
                    Ok(RunningMode::ParseC)
                } else if str_eq(name, "generate_java") {
                    Ok(RunningMode::GenerateJava)
                } else if str_eq(name, "generate_c") {
                    Ok(RunningMode::GenerateC)
                } else {
                    Err(GlueError::InvalidRunningMode("Invalid running mode".to_string()))
                }
            },
        }
    }
}

/// The name of the Java file of a function.
pub fn java_file_name(c_function: &CFunction) -> (name: String)
    ensures
        name@ == file_name(c_function@, "java"@),
{
    let mut name = c_function.name.clone();
    name.append(".");
    name.append("java");
    name
}

/// The name of the C file of a function.
pub fn c_file_name(c_function: &CFunction) -> (name: String)
    ensures
        name@ == file_name(c_function@, "c"@),
{
    let mut name = c_function.name.clone();
    name.append(".");
    name.append("c");
    name
}

} // verus!
