//! The C side of the bridge: one shim per function, exported under the
//! symbol that the Java runtime looks up, forwarding to the bridged C
//! function.

use vstd::prelude::*;
use crate::cfunc::{parameter_views, CFunction, FunctionView};
use crate::cparam::{CParameter, ParameterView};
use crate::java_type::PossibleJavaType;
use crate::text::{append_separator, concat_upto, separator_after};

verus! {

/// Prefix of the local copies that the shim makes of its primitive
/// parameters.
pub const C_LOCAL_PARAM_PREFIX: &'static str = "oc4j_glue_";

/// The entry of the parameter at `index` in the `extern` declaration.
pub open spec fn c_extern_piece(ps: Seq<ParameterView>, index: int) -> Seq<char> {
    ps[index].declared_type() + separator_after(index, ps.len())
}

/// The Java native interface's alias for a category.
pub open spec fn jni_alias(category: PossibleJavaType) -> Seq<char> {
    match category {
        PossibleJavaType::Byte => "jbyte"@,
        PossibleJavaType::Short => "jshort"@,
        PossibleJavaType::Int => "jint"@,
        PossibleJavaType::ByteArray => "jbyteArray"@,
    }
}

/// The entry of a parameter in the bridge function's parameter list, which
/// follows the two parameters that every bridge function has.
pub open spec fn c_bridge_piece(p: ParameterView) -> Seq<char> {
    ", "@ + jni_alias(p.java_type) + " "@ + p.var_name
}

/// The C type of the local copy of a primitive parameter.
pub open spec fn c_local_type(category: PossibleJavaType) -> Seq<char> {
    match category {
        PossibleJavaType::Byte => "char"@,
        PossibleJavaType::Short => "short"@,
        PossibleJavaType::Int => "int"@,
        PossibleJavaType::ByteArray => Seq::empty(),
    }
}

/// The line of the shim's body that copies a primitive parameter into a
/// local variable; for a byte array, the comment that stands in its place.
pub open spec fn c_local_piece(p: ParameterView) -> Seq<char> {
    if p.java_type == PossibleJavaType::ByteArray {
        "// Generatoin code for Byte Array not implemented\n"@
    } else {
        "  "@ + c_local_type(p.java_type) + " "@ + C_LOCAL_PARAM_PREFIX@ + p.var_name + " = "@
            + p.var_name + ";\n"@
    }
}

/// The argument that the shim forwards for a parameter: the local copy of a
/// primitive, or its address where the parameter has exactly one level of
/// indirection; nothing for a byte array.
pub open spec fn c_forwarded(p: ParameterView) -> Seq<char> {
    if p.java_type == PossibleJavaType::ByteArray {
        Seq::empty()
    } else if p.pointer_depth == 1 {
        "&"@ + C_LOCAL_PARAM_PREFIX@ + p.var_name
    } else {
        C_LOCAL_PARAM_PREFIX@ + p.var_name
    }
}

/// The entry of the parameter at `index` in the call of the bridged
/// function.
pub open spec fn c_argument_piece(ps: Seq<ParameterView>, index: int) -> Seq<char> {
    c_forwarded(ps[index]) + separator_after(index, ps.len())
}

/// The entries of the `extern` declaration, by index.
pub open spec fn c_extern_pieces(ps: Seq<ParameterView>) -> spec_fn(int) -> Seq<char> {
    |k: int| c_extern_piece(ps, k)
}

/// The entries of the bridge function's parameter list, by index.
pub open spec fn c_bridge_pieces(ps: Seq<ParameterView>) -> spec_fn(int) -> Seq<char> {
    |k: int| c_bridge_piece(ps[k])
}

/// The lines that copy the parameters, by index.
pub open spec fn c_local_pieces(ps: Seq<ParameterView>) -> spec_fn(int) -> Seq<char> {
    |k: int| c_local_piece(ps[k])
}

/// The arguments of the forwarded call, by index.
pub open spec fn c_argument_pieces(ps: Seq<ParameterView>) -> spec_fn(int) -> Seq<char> {
    |k: int| c_argument_piece(ps, k)
}

/// The include line and the `extern` declaration that restates the
/// signature of the bridged function.
pub open spec fn c_declaration_text(f: FunctionView) -> Seq<char> {
    "#include \""@ + f.name + ".h\"\n"@ + "extern "@ + f.return_type + " "@ + f.name + "("@
        + concat_upto(f.parameters.len(), c_extern_pieces(f.parameters)) + ");\n"@
}

/// The head of the bridge function, exported as `Java_<name>_<name>`.
pub open spec fn c_bridge_head_text(f: FunctionView) -> Seq<char> {
    "JNIEXPORT void JNICALL Java_"@ + f.name + "_"@ + f.name + "\n"@
        + "(JNIEnv *env , jobject object"@ + concat_upto(
        f.parameters.len(),
        c_bridge_pieces(f.parameters),
    ) + ")\n{\n"@
}

/// The body of the bridge function: the local copies, then the call of the
/// bridged function with its arguments in declaration order.
pub open spec fn c_bridge_body_text(f: FunctionView) -> Seq<char> {
    concat_upto(f.parameters.len(), c_local_pieces(f.parameters)) + "  "@ + f.name + "("@
        + concat_upto(f.parameters.len(), c_argument_pieces(f.parameters)) + ");\n"@ + "}\n"@
}

/// The whole C source file generated for a function.
pub open spec fn c_file_text(f: FunctionView) -> Seq<char> {
    c_declaration_text(f) + c_bridge_head_text(f) + c_bridge_body_text(f)
}

/// Appends a parameter's entry in the `extern` declaration.
fn append_extern_piece(out: &mut String, parameters: &Vec<CParameter>, index: usize)
    requires
        index < parameters.len(),
    ensures
        final(out)@ == old(out)@ + c_extern_piece(
            parameter_views(parameters@),
            index as int,
        ),
{
    let p = &parameters[index];
    p.append_declared_type(out);
    append_separator(out, index, parameters.len());
}

/// The Java native interface's alias for a category.
fn jni_alias_of(category: PossibleJavaType) -> (alias: &'static str)
    ensures
        alias@ == jni_alias(category),
{
    match category {
        PossibleJavaType::Byte => "jbyte",
        PossibleJavaType::Short => "jshort",
        PossibleJavaType::Int => "jint",
        PossibleJavaType::ByteArray => "jbyteArray",
    }
}

/// Appends a parameter's entry in the bridge function's parameter list.
fn append_bridge_piece(out: &mut String, p: &CParameter)
    ensures
        final(out)@ == old(out)@ + c_bridge_piece(p@),
{
    out.append(", ");
    out.append(jni_alias_of(p.java_type));
    out.append(" ");
    out.append(p.var_name.as_str());
}

/// The C type of the local copy of a primitive parameter.
fn c_local_type_of(category: PossibleJavaType) -> (spelling: &'static str)
    requires
        category != PossibleJavaType::ByteArray,
    ensures
        spelling@ == c_local_type(category),
{
    match category {
        PossibleJavaType::Byte => "char",
        PossibleJavaType::Short => "short",
        _ => "int",
    }
}

/// Appends the line that copies a parameter into a local variable.
fn append_local_piece(out: &mut String, p: &CParameter)
    ensures
        final(out)@ == old(out)@ + c_local_piece(p@),
{
    match p.java_type {
        PossibleJavaType::ByteArray => {
            out.append("// Generatoin code for Byte Array not implemented\n");
        },
        _ => {
            out.append("  ");
            out.append(c_local_type_of(p.java_type));
            out.append(" ");
            out.append(C_LOCAL_PARAM_PREFIX);
            out.append(p.var_name.as_str());
            out.append(" = ");
            out.append(p.var_name.as_str());
            out.append(";\n");
        },
    }
}

/// Appends the argument forwarded for a parameter.
fn append_forwarded(out: &mut String, p: &CParameter)
    ensures
        final(out)@ == old(out)@ + c_forwarded(p@),
{
    match p.java_type {
        PossibleJavaType::ByteArray => {},
        _ => {
            if p.pointer_depth == 1 {
                out.append("&");
            }
            out.append(C_LOCAL_PARAM_PREFIX);
            out.append(p.var_name.as_str());
        },
    }
}

/// Appends a parameter's entry in the call of the bridged function.
fn append_argument_piece(out: &mut String, parameters: &Vec<CParameter>, index: usize)
    requires
        index < parameters.len(),
    ensures
        final(out)@ == old(out)@ + c_argument_piece(
            parameter_views(parameters@),
            index as int,
        ),
{
    append_forwarded(out, &parameters[index]);
    append_separator(out, index, parameters.len());
}

/// Appends the include line and the `extern` declaration.
fn append_declaration(out: &mut String, c_function: &CFunction)
    ensures
        final(out)@ == old(out)@ + c_declaration_text(c_function@),
{
    let ghost ps = c_function@.parameters;
    out.append("#include \"");
    out.append(c_function.name.as_str());
    out.append(".h\"\n");
    out.append("extern ");
    out.append(c_function.return_type.as_str());
    out.append(" ");
    out.append(c_function.name.as_str());
    out.append("(");
    let ghost base = out@;
    let n = c_function.parameters.len();
    let mut i: usize = 0;
    while i < n
        invariant
            i <= n,
            n == c_function.parameters.len(),
            ps == c_function@.parameters,
            out@ == base + concat_upto(i as nat, c_extern_pieces(ps)),
        decreases n - i,
    {
        append_extern_piece(out, &c_function.parameters, i);
        i = i + 1;
    }
    out.append(");\n");
}

/// Appends the head of the bridge function.
fn append_bridge_head(out: &mut String, c_function: &CFunction)
    ensures
        final(out)@ == old(out)@ + c_bridge_head_text(c_function@),
{
    let ghost ps = c_function@.parameters;
    out.append("JNIEXPORT void JNICALL Java_");
    out.append(c_function.name.as_str());
    out.append("_");
    out.append(c_function.name.as_str());
    out.append("\n");
    out.append("(JNIEnv *env , jobject object");
    let ghost base = out@;
    let n = c_function.parameters.len();
    let mut i: usize = 0;
    while i < n
        invariant
            i <= n,
            n == c_function.parameters.len(),
            ps == c_function@.parameters,
            out@ == base + concat_upto(i as nat, c_bridge_pieces(ps)),
        decreases n - i,
    {
        append_bridge_piece(out, &c_function.parameters[i]);
        i = i + 1;
    }
    out.append(")\n{\n");
}

/// Appends the body of the bridge function.
fn append_bridge_body(out: &mut String, c_function: &CFunction)
    ensures
        final(out)@ == old(out)@ + c_bridge_body_text(c_function@),
{
    let ghost ps = c_function@.parameters;
    let n = c_function.parameters.len();
    let mut i: usize = 0;
    while i < n
        invariant
            i <= n,
            n == c_function.parameters.len(),
            ps == c_function@.parameters,
            out@ == old(out)@ + concat_upto(i as nat, c_local_pieces(ps)),
        decreases n - i,
    {
        append_local_piece(out, &c_function.parameters[i]);
        i = i + 1;
    }
    out.append("  ");
    out.append(c_function.name.as_str());
    out.append("(");
    let ghost base = out@;
    let mut j: usize = 0;
    while j < n
        invariant
            j <= n,
            n == c_function.parameters.len(),
            ps == c_function@.parameters,
            out@ == base + concat_upto(j as nat, c_argument_pieces(ps)),
        decreases n - j,
    {
        append_argument_piece(out, &c_function.parameters, j);
        j = j + 1;
    }
    out.append(");\n");
    out.append("}\n");
}

/// Generates the C source file of the shim for one function.
pub fn get_c_file_content(c_function: &CFunction) -> (content: String)
    ensures
        content@ == c_file_text(c_function@),
{
    let mut s = String::new();
    append_declaration(&mut s, c_function);
    append_bridge_head(&mut s, c_function);
    append_bridge_body(&mut s, c_function);
    s
}

} // verus!
