//! The diagnostic C program that prints the extracted signatures, with the
//! size of every parameter's type left for the C compiler to compute.

use vstd::prelude::*;
use crate::cfunc::{function_views, CFunction, FunctionView};
use crate::cparam::{CParameter, ParameterView};
use crate::text::{append_decimal, concat_upto, decimal_text};

verus! {

/// The statements that print one parameter.
pub open spec fn report_parameter_text(p: ParameterView) -> Seq<char> {
    "  printf(\"      - var_name: "@ + p.var_name + "\\n\");\n"@
        + "  printf(\"        type_name: "@ + p.type_spelling + "\\n\");\n"@
        + "  printf(\"        pointer_depth: "@ + decimal_text(p.pointer_depth) + "\\n\");\n"@
        + "  printf(\"        type_size: %lu\\n\", sizeof("@ + p.declared_type() + "));\n"@
}

/// The statements that print the parameters of a function, by index.
pub open spec fn report_parameter_pieces(ps: Seq<ParameterView>) -> spec_fn(int) -> Seq<char> {
    |k: int| report_parameter_text(ps[k])
}

/// The statements that print one function and its parameters.
pub open spec fn report_function_text(f: FunctionView) -> Seq<char> {
    "  printf(\"  - func_name: "@ + f.name + "\\n\");\n"@ + "  printf(\"    return_type: "@
        + f.return_type + "\\n\");\n"@ + "  printf(\"    parameters:\\n\");\n"@ + concat_upto(
        f.parameters.len(),
        report_parameter_pieces(f.parameters),
    )
}

/// The statements that print the functions of a list, by index.
pub open spec fn report_function_pieces(fs: Seq<FunctionView>) -> spec_fn(int) -> Seq<char> {
    |k: int| report_function_text(fs[k])
}

/// The whole diagnostic program for a list of functions.
pub open spec fn c_info_text(fs: Seq<FunctionView>) -> Seq<char> {
    "#include <stdio.h>\n"@ + "int main() {\n"@ + "  printf(\"functions:\\n\");\n"@ + concat_upto(
        fs.len(),
        report_function_pieces(fs),
    ) + "  return 0;\n"@ + "}\n"@
}

/// Appends the statements that print one parameter.
fn append_parameter(out: &mut String, p: &CParameter)
    ensures
        final(out)@ == old(out)@ + report_parameter_text(p@),
{
    out.append("  printf(\"      - var_name: ");
    out.append(p.var_name.as_str());
    out.append("\\n\");\n");
    out.append("  printf(\"        type_name: ");
    out.append(p.type_spelling.as_str());
    out.append("\\n\");\n");
    out.append("  printf(\"        pointer_depth: ");
    append_decimal(out, p.pointer_depth as u64);
    out.append("\\n\");\n");
    out.append("  printf(\"        type_size: %lu\\n\", sizeof(");
    p.append_declared_type(out);
    out.append("));\n");
}

/// Appends the statements that print one function and its parameters.
fn append_function(out: &mut String, f: &CFunction)
    ensures
        final(out)@ == old(out)@ + report_function_text(f@),
{
    let ghost ps = f@.parameters;
    out.append("  printf(\"  - func_name: ");
    out.append(f.name.as_str());
    out.append("\\n\");\n");
    out.append("  printf(\"    return_type: ");
    out.append(f.return_type.as_str());
    out.append("\\n\");\n");
    out.append("  printf(\"    parameters:\\n\");\n");
    let ghost base = out@;
    let n = f.parameters.len();
    let mut i: usize = 0;
    while i < n
        invariant
            i <= n,
            n == f.parameters.len(),
            ps == f@.parameters,
            out@ == base + concat_upto(i as nat, report_parameter_pieces(ps)),
        decreases n - i,
    {
        append_parameter(out, &f.parameters[i]);
        i = i + 1;
    }
}

/// Generates the diagnostic C program for a list of functions.
pub fn c_info_source(c_functions: &Vec<CFunction>) -> (source: String)
    ensures
        source@ == c_info_text(function_views(c_functions@)),
{
    let ghost fs = function_views(c_functions@);
    let mut s = String::new();
    s.append("#include <stdio.h>\n");
    s.append("int main() {\n");
    s.append("  printf(\"functions:\\n\");\n");
    let ghost base = s@;
    let n = c_functions.len();
    let mut i: usize = 0;
    while i < n
        invariant
            i <= n,
            n == c_functions.len(),
            fs == function_views(c_functions@),
            s@ == base + concat_upto(i as nat, report_function_pieces(fs)),
        decreases n - i,
    {
        append_function(&mut s, &c_functions[i]);
        i = i + 1;
    }
    s.append("  return 0;\n");
    s.append("}\n");
    s
}

} // verus!
