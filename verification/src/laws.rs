//! What holds across the library's functions: the same input gives the
//! same output, and nothing in gives nothing out.

use vstd::prelude::*;
use crate::c_shim::c_file_text;
use crate::cfunc::{function_views, CFunction};
use crate::codec::decoded_text;
use crate::extract::{signatures_of, CaptureIndices};
use crate::java_stub::java_file_text;
use crate::report::c_info_text;

verus! {

/// Two signatures with the same value get the same Java file and the same
/// C file, character for character.
pub proof fn lemma_generation_repeats(first: CFunction, second: CFunction)
    requires
        first@ == second@,
    ensures
        java_file_text(first@) == java_file_text(second@),
        c_file_text(first@) == c_file_text(second@),
{
}

/// Two lists of signatures with the same values get the same diagnostic
/// program, character for character.
pub proof fn lemma_report_repeats(first: Vec<CFunction>, second: Vec<CFunction>)
    requires
        function_views(first@) == function_views(second@),
    ensures
        c_info_text(function_views(first@)) == c_info_text(function_views(second@)),
{
}

/// The same captures over the same source give the same signatures, or the
/// same fault.
pub proof fn lemma_grouping_repeats(
    first_source: Seq<char>,
    second_source: Seq<char>,
    first: Seq<(u32, tree_sitter::Node)>,
    second: Seq<(u32, tree_sitter::Node)>,
    indices: CaptureIndices,
)
    requires
        first_source == second_source,
        first == second,
    ensures
        signatures_of(first_source, first, indices) == signatures_of(
            second_source,
            second,
            indices,
        ),
{
}

/// The same document text describes the same signatures, or none both
/// times.
pub proof fn lemma_reading_repeats(first: Seq<char>, second: Seq<char>)
    requires
        first == second,
    ensures
        decoded_text(first) == decoded_text(second),
{
}

/// The diagnostic program of no function prints the heading of the list
/// and nothing below it.
pub proof fn lemma_empty_report()
    ensures
        c_info_text(Seq::empty()) == "#include <stdio.h>\n"@ + "int main() {\n"@
            + "  printf(\"functions:\\n\");\n"@ + "  return 0;\n"@ + "}\n"@,
{
}

} // verus!
