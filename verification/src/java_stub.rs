//! The Java side of the bridge: one class per function, declaring the
//! native method and the entry method that the runtime calls.

use vstd::prelude::*;
use crate::cfunc::{parameter_views, CFunction, FunctionView};
use crate::cparam::{CParameter, ParameterView};
use crate::java_type::PossibleJavaType;
use crate::text::{
    append_decimal, append_separator, concat_upto, decimal_text, separator_after,
};

verus! {

/// The entry of the parameter at `index` in the native method's
/// declaration: its Java type and its name.
pub open spec fn java_declared_piece(ps: Seq<ParameterView>, index: int) -> Seq<char> {
    ps[index].java_type.java_name() + " "@ + ps[index].var_name + separator_after(
        index,
        ps.len(),
    )
}

/// The line that materializes the byte buffer of the parameter at `index`
/// from its storage handle; nothing for a primitive.
pub open spec fn java_buffer_piece(ps: Seq<ParameterView>, index: int) -> Seq<char> {
    if ps[index].java_type == PossibleJavaType::ByteArray {
        "    byte[] "@ + ps[index].var_name + " = storageToByteArray(argStorages["@
            + decimal_text(index as nat) + "], "@ + decimal_text(ps[index].type_size) + ");\n"@
    } else {
        Seq::empty()
    }
}

/// The name of the method that reads a primitive of the given category from
/// a storage handle.
pub open spec fn java_reader(category: PossibleJavaType) -> Seq<char> {
    match category {
        PossibleJavaType::Byte => "storageToByte"@,
        PossibleJavaType::Short => "storageToShort"@,
        PossibleJavaType::Int => "storageToInt"@,
        PossibleJavaType::ByteArray => Seq::empty(),
    }
}

/// The value passed to the native method for the parameter at `index`: the
/// materialized buffer of a byte array, the value read from the storage
/// handle for a primitive.
pub open spec fn java_passed(ps: Seq<ParameterView>, index: int) -> Seq<char> {
    if ps[index].java_type == PossibleJavaType::ByteArray {
        ps[index].var_name
    } else {
        java_reader(ps[index].java_type) + "(argStorages["@ + decimal_text(index as nat) + "])"@
    }
}

/// The entry of the parameter at `index` in the call of the native method.
pub open spec fn java_argument_piece(ps: Seq<ParameterView>, index: int) -> Seq<char> {
    java_passed(ps, index) + separator_after(index, ps.len())
}

/// The line that writes the buffer of the parameter at `index` back into
/// its storage handle; nothing for a primitive.
pub open spec fn java_write_back_piece(ps: Seq<ParameterView>, index: int) -> Seq<char> {
    if ps[index].java_type == PossibleJavaType::ByteArray {
        "    bytesToStorage(argStorages["@ + decimal_text(index as nat) + "], "@
            + ps[index].var_name + ");\n"@
    } else {
        Seq::empty()
    }
}

/// The entries of the native method's declaration, by index.
pub open spec fn java_declared_pieces(ps: Seq<ParameterView>) -> spec_fn(int) -> Seq<char> {
    |k: int| java_declared_piece(ps, k)
}

/// The lines that materialize the buffers, by index.
pub open spec fn java_buffer_pieces(ps: Seq<ParameterView>) -> spec_fn(int) -> Seq<char> {
    |k: int| java_buffer_piece(ps, k)
}

/// The arguments of the native call, by index.
pub open spec fn java_argument_pieces(ps: Seq<ParameterView>) -> spec_fn(int) -> Seq<char> {
    |k: int| java_argument_piece(ps, k)
}

/// The lines that write the buffers back, by index.
pub open spec fn java_write_back_pieces(ps: Seq<ParameterView>) -> spec_fn(int) -> Seq<char> {
    |k: int| java_write_back_piece(ps, k)
}

/// The head of the class: the import, the class named after the function,
/// the native method and the static initializer that loads the library of
/// the same name.
pub open spec fn java_class_head_text(f: FunctionView) -> Seq<char> {
    "import jp.osscons.opensourcecobol.libcobj.data.CobolDataStorage;\n"@ + "public class "@
        + f.name + " extends CobolRunnableCGlue {\n"@ + "  public native void "@ + f.name + "("@
        + concat_upto(f.parameters.len(), java_declared_pieces(f.parameters)) + ");\n"@
        + "  static { System.loadLibrary(\""@ + f.name + "\"); }\n"@
}

/// The entry method: the buffers are materialized, the native method is
/// called, and the buffers are written back.
pub open spec fn java_run_method_text(f: FunctionView) -> Seq<char> {
    "  @Override\n"@ + "  public int run(CobolDataStorage... argStorages) {\n"@ + concat_upto(
        f.parameters.len(),
        java_buffer_pieces(f.parameters),
    ) + "    "@ + f.name + "("@ + concat_upto(
        f.parameters.len(),
        java_argument_pieces(f.parameters),
    ) + ");\n"@ + concat_upto(f.parameters.len(), java_write_back_pieces(f.parameters))
        + "    return 0;\n"@ + "  }\n"@ + "}\n"@
}

/// The whole Java source file generated for a function.
pub open spec fn java_file_text(f: FunctionView) -> Seq<char> {
    java_class_head_text(f) + java_run_method_text(f)
}

/// Appends a parameter's entry in the native method's declaration.
fn append_declared_piece(out: &mut String, parameters: &Vec<CParameter>, index: usize)
    requires
        index < parameters.len(),
    ensures
        final(out)@ == old(out)@ + java_declared_piece(parameter_views(parameters@), index as int),
{
    let p = &parameters[index];
    let java_type = p.java_type.to_string();
    out.append(java_type.as_str());
    out.append(" ");
    out.append(p.var_name.as_str());
    append_separator(out, index, parameters.len());
}

/// Appends the line that materializes a parameter's buffer.
fn append_buffer_piece(out: &mut String, parameters: &Vec<CParameter>, index: usize)
    requires
        index < parameters.len(),
    ensures
        final(out)@ == old(out)@ + java_buffer_piece(parameter_views(parameters@), index as int),
{
    let p = &parameters[index];
    match p.java_type {
        PossibleJavaType::ByteArray => {
            out.append("    byte[] ");
            out.append(p.var_name.as_str());
            out.append(" = storageToByteArray(argStorages[");
            append_decimal(out, index as u64);
            out.append("], ");
            append_decimal(out, p.type_size as u64);
            out.append(");\n");
        },
        _ => {},
    }
}

/// The name of the method that reads a primitive from a storage handle.
fn java_reader_of(category: PossibleJavaType) -> (reader: &'static str)
    requires
        category != PossibleJavaType::ByteArray,
    ensures
        reader@ == java_reader(category),
{
    match category {
        PossibleJavaType::Byte => "storageToByte",
        PossibleJavaType::Short => "storageToShort",
        _ => "storageToInt",
    }
}

/// Appends a parameter's entry in the call of the native method.
fn append_argument_piece(out: &mut String, parameters: &Vec<CParameter>, index: usize)
    requires
        index < parameters.len(),
    ensures
        final(out)@ == old(out)@ + java_argument_piece(parameter_views(parameters@), index as int),
{
    let p = &parameters[index];
    match p.java_type {
        PossibleJavaType::ByteArray => {
            out.append(p.var_name.as_str());
        },
        _ => {
            out.append(java_reader_of(p.java_type));
            out.append("(argStorages[");
            append_decimal(out, index as u64);
            out.append("])");
        },
    }
    append_separator(out, index, parameters.len());
}

/// Appends the line that writes a parameter's buffer back.
fn append_write_back_piece(out: &mut String, parameters: &Vec<CParameter>, index: usize)
    requires
        index < parameters.len(),
    ensures
        final(out)@ == old(out)@ + java_write_back_piece(
            parameter_views(parameters@),
            index as int,
        ),
{
    let p = &parameters[index];
    match p.java_type {
        PossibleJavaType::ByteArray => {
            out.append("    bytesToStorage(argStorages[");
            append_decimal(out, index as u64);
            out.append("], ");
            out.append(p.var_name.as_str());
            out.append(");\n");
        },
        _ => {},
    }
}

/// Appends the head of the class.
fn append_class_head(out: &mut String, c_function: &CFunction)
    ensures
        final(out)@ == old(out)@ + java_class_head_text(c_function@),
{
    let ghost ps = c_function@.parameters;
    out.append("import jp.osscons.opensourcecobol.libcobj.data.CobolDataStorage;\n");
    out.append("public class ");
    out.append(c_function.name.as_str());
    out.append(" extends CobolRunnableCGlue {\n");
    out.append("  public native void ");
    out.append(c_function.name.as_str());
    out.append("(");
    let ghost base = out@;
    let n = c_function.parameters.len();
    let mut i: usize = 0;
    while i < n
        invariant
            i <= n,
            n == c_function.parameters.len(),
            ps == c_function@.parameters,
            out@ == base + concat_upto(i as nat, java_declared_pieces(ps)),
        decreases n - i,
    {
        append_declared_piece(out, &c_function.parameters, i);
        i = i + 1;
    }
    out.append(");\n");
    out.append("  static { System.loadLibrary(\"");
    out.append(c_function.name.as_str());
    out.append("\"); }\n");
}

/// Appends the buffer lines, the native call and the write-back lines.
fn append_run_steps(out: &mut String, c_function: &CFunction)
    ensures
        final(out)@ == old(out)@ + concat_upto(
            c_function@.parameters.len(),
            java_buffer_pieces(c_function@.parameters),
        ) + "    "@ + c_function@.name + "("@ + concat_upto(
            c_function@.parameters.len(),
            java_argument_pieces(c_function@.parameters),
        ) + ");\n"@ + concat_upto(
            c_function@.parameters.len(),
            java_write_back_pieces(c_function@.parameters),
        ),
{
    let ghost ps = c_function@.parameters;
    let n = c_function.parameters.len();
    let mut i: usize = 0;
    while i < n
        invariant
            i <= n,
            n == c_function.parameters.len(),
            ps == c_function@.parameters,
            out@ == old(out)@ + concat_upto(i as nat, java_buffer_pieces(ps)),
        decreases n - i,
    {
        append_buffer_piece(out, &c_function.parameters, i);
        i = i + 1;
    }
    out.append("    ");
    out.append(c_function.name.as_str());
    out.append("(");
    let ghost called = out@;
    let mut j: usize = 0;
    while j < n
        invariant
            j <= n,
            n == c_function.parameters.len(),
            ps == c_function@.parameters,
            out@ == called + concat_upto(j as nat, java_argument_pieces(ps)),
        decreases n - j,
    {
        append_argument_piece(out, &c_function.parameters, j);
        j = j + 1;
    }
    out.append(");\n");
    let ghost returned = out@;
    let mut k: usize = 0;
    while k < n
        invariant
            k <= n,
            n == c_function.parameters.len(),
            ps == c_function@.parameters,
            out@ == returned + concat_upto(k as nat, java_write_back_pieces(ps)),
        decreases n - k,
    {
        append_write_back_piece(out, &c_function.parameters, k);
        k = k + 1;
    }
}

/// Appends the entry method and closes the class.
fn append_run_method(out: &mut String, c_function: &CFunction)
    ensures
        final(out)@ == old(out)@ + java_run_method_text(c_function@),
{
    out.append("  @Override\n");
    out.append("  public int run(CobolDataStorage... argStorages) {\n");
    append_run_steps(out, c_function);
    out.append("    return 0;\n");
    out.append("  }\n");
    out.append("}\n");
}

/// Generates the Java source file of the class for one function.
pub fn get_java_file_content(c_function: &CFunction) -> (content: String)
    ensures
        content@ == java_file_text(c_function@),
{
    let mut s = String::new();
    append_class_head(&mut s, c_function);
    append_run_method(&mut s, c_function);
    s
}

} // verus!
