//! The intermediate document: signatures written as a YAML value and read
//! back from one. The category of a parameter is never written; reading
//! derives it from the type again.

use vstd::prelude::*;
use crate::cfunc::{function_views, parameter_views, CFunction, FunctionView};
use crate::cparam::{CParameter, ParameterView};
use crate::document::{
    load_documents, yaml_as_i64, yaml_as_str, yaml_as_vec, yaml_documents, yaml_entry,
    yaml_from_entries, yaml_from_integer, yaml_from_items, yaml_from_text, yaml_get, yaml_integer,
    yaml_items, yaml_text,
};
use crate::error::{GlueError, GlueErrorView};
use crate::extract::extracted_functions;

verus! {

/// The count that an integer of a document stands for: none for a missing
/// or negative number and for one beyond 32 bits.
pub open spec fn decoded_count(number: Option<i64>) -> Option<u32> {
    match number {
        Some(n) => if 0 <= n <= u32::MAX {
            Some(n as u32)
        } else {
            None
        },
        None => None,
    }
}

/// The parameter that a document entry describes: it needs the two names
/// as strings and the two counts as integers.
pub open spec fn decoded_parameter(entry: yaml_rust::Yaml) -> Option<ParameterView> {
    match (
        yaml_text(yaml_entry(entry, "var_name"@)),
        yaml_text(yaml_entry(entry, "type_name"@)),
        decoded_count(yaml_integer(yaml_entry(entry, "pointer_depth"@))),
        decoded_count(yaml_integer(yaml_entry(entry, "type_size"@))),
    ) {
        (Some(var_name), Some(type_spelling), Some(pointer_depth), Some(type_size)) => Some(
            ParameterView::make(var_name, type_spelling, pointer_depth as nat, type_size as nat),
        ),
        _ => None,
    }
}

/// The parameters that the first `count` entries of a list describe, in
/// order; none where one of them describes no parameter.
pub open spec fn decoded_parameters(entries: Seq<yaml_rust::Yaml>, count: nat) -> Option<
    Seq<ParameterView>,
>
    decreases count,
{
    if count == 0 {
        Some(Seq::empty())
    } else {
        match (
            decoded_parameters(entries, (count - 1) as nat),
            decoded_parameter(entries[count - 1]),
        ) {
            (Some(before), Some(p)) => Some(before.push(p)),
            _ => None,
        }
    }
}

/// The signature that a document entry describes: it needs the name and
/// the return type as strings and the parameters as a list.
pub open spec fn decoded_function(entry: yaml_rust::Yaml) -> Option<FunctionView> {
    match (
        yaml_text(yaml_entry(entry, "func_name"@)),
        yaml_text(yaml_entry(entry, "return_type"@)),
        yaml_items(yaml_entry(entry, "parameters"@)),
    ) {
        (Some(name), Some(return_type), Some(entries)) => match decoded_parameters(
            entries,
            entries.len(),
        ) {
            Some(parameters) => Some(FunctionView { return_type, name, parameters }),
            None => None,
        },
        _ => None,
    }
}

/// The signatures that the first `count` entries of a list describe, in
/// order; none where one of them describes no signature.
pub open spec fn decoded_functions(entries: Seq<yaml_rust::Yaml>, count: nat) -> Option<
    Seq<FunctionView>,
>
    decreases count,
{
    if count == 0 {
        Some(Seq::empty())
    } else {
        match (
            decoded_functions(entries, (count - 1) as nat),
            decoded_function(entries[count - 1]),
        ) {
            (Some(before), Some(f)) => Some(before.push(f)),
            _ => None,
        }
    }
}

/// The signatures that a document describes: the list under its key
/// `functions`.
pub open spec fn decoded_document(document: yaml_rust::Yaml) -> Option<Seq<FunctionView>> {
    match yaml_items(yaml_entry(document, "functions"@)) {
        Some(entries) => decoded_functions(entries, entries.len()),
        None => None,
    }
}

/// Whether an outcome is the expected one, value for value.
pub open spec fn decoded_as(found: Option<Vec<CFunction>>, expected: Option<Seq<FunctionView>>)
    -> bool {
    match found {
        Some(functions) => expected == Some(function_views(functions@)),
        None => expected is None,
    }
}

/// Reads the count under a key of a document entry.
fn read_count(entry: &yaml_rust::Yaml, key: &str) -> (count: Option<u32>)
    ensures
        count == decoded_count(yaml_integer(yaml_entry(*entry, key@))),
{
    match yaml_as_i64(yaml_get(entry, key)) {
        None => None,
        Some(number) => {
            if number < 0 || number > 0xffff_ffff {
                None
            } else {
                Some(number as u32)
            }
        },
    }
}

/// Reads the parameter that a document entry describes.
fn read_parameter(entry: &yaml_rust::Yaml) -> (found: Option<CParameter>)
    ensures
        match found {
            Some(p) => decoded_parameter(*entry) == Some(p@),
            None => decoded_parameter(*entry) is None,
        },
{
    let var_name = match yaml_as_str(yaml_get(entry, "var_name")) {
        Some(text) => text,
        None => {
            return None;
        },
    };
    let type_spelling = match yaml_as_str(yaml_get(entry, "type_name")) {
        Some(text) => text,
        None => {
            return None;
        },
    };
    let pointer_depth = match read_count(entry, "pointer_depth") {
        Some(count) => count,
        None => {
            return None;
        },
    };
    let type_size = match read_count(entry, "type_size") {
        Some(count) => count,
        None => {
            return None;
        },
    };
    Some(CParameter::new(var_name, type_spelling, pointer_depth, type_size))
}

/// A list that holds an entry without a parameter describes none.
pub proof fn lemma_parameters_gap_stays(entries: Seq<yaml_rust::Yaml>, count: nat, more: nat)
    requires
        count <= more,
        decoded_parameters(entries, count) is None,
    ensures
        decoded_parameters(entries, more) is None,
    decreases more,
{
    if count < more {
        lemma_parameters_gap_stays(entries, count, (more - 1) as nat);
    }
}

/// A list that holds an entry without a signature describes none.
pub proof fn lemma_functions_gap_stays(entries: Seq<yaml_rust::Yaml>, count: nat, more: nat)
    requires
        count <= more,
        decoded_functions(entries, count) is None,
    ensures
        decoded_functions(entries, more) is None,
    decreases more,
{
    if count < more {
        lemma_functions_gap_stays(entries, count, (more - 1) as nat);
    }
}

/// Reads the signature that a document entry describes.
fn read_function(entry: &yaml_rust::Yaml) -> (found: Option<CFunction>)
    ensures
        match found {
            Some(f) => decoded_function(*entry) == Some(f@),
            None => decoded_function(*entry) is None,
        },
{
    let name = match yaml_as_str(yaml_get(entry, "func_name")) {
        Some(text) => text,
        None => {
            return None;
        },
    };
    let return_type = match yaml_as_str(yaml_get(entry, "return_type")) {
        Some(text) => text,
        None => {
            return None;
        },
    };
    let entries = match yaml_as_vec(yaml_get(entry, "parameters")) {
        Some(items) => items,
        None => {
            return None;
        },
    };
    let mut parameters: Vec<CParameter> = Vec::new();
    let count = entries.len();
    let mut i: usize = 0;
    while i < count
        invariant
            i <= count,
            count == entries@.len(),
            yaml_items(yaml_entry(*entry, "parameters"@)) == Some(entries@),
            decoded_parameters(entries@, i as nat) == Some(parameter_views(parameters@)),
        decreases count - i,
    {
        match read_parameter(&entries[i]) {
            None => {
                proof {
                    lemma_parameters_gap_stays(entries@, (i + 1) as nat, count as nat);
                }
                return None;
            },
            Some(p) => {
                parameters.push(p);
            },
        }
        i = i + 1;
    }
    Some(CFunction { return_type: return_type.to_string(), name: name.to_string(), parameters })
}

/// The parameters read off a list have the categories of their types.
pub proof fn lemma_decoded_parameters_sound(entries: Seq<yaml_rust::Yaml>, count: nat)
    ensures
        decoded_parameters(entries, count) matches Some(ps) ==> forall|j: int|
            0 <= j < ps.len() ==> (#[trigger] ps[j]).well_formed() && ps[j].representable(),
    decreases count,
{
    if count > 0 {
        lemma_decoded_parameters_sound(entries, (count - 1) as nat);
    }
}

/// The signatures read off a list have the categories of their types.
pub proof fn lemma_decoded_functions_sound(entries: Seq<yaml_rust::Yaml>, count: nat)
    ensures
        decoded_functions(entries, count) matches Some(fs) ==> round_trips(fs),
    decreases count,
{
    if count > 0 {
        lemma_decoded_functions_sound(entries, (count - 1) as nat);
        if let Some(listed) = yaml_items(yaml_entry(entries[count - 1], "parameters"@)) {
            lemma_decoded_parameters_sound(listed, listed.len());
        }
    }
}

/// Whatever a document describes, the signatures read from it have the
/// categories of their types, and can be written and read again unchanged.
pub proof fn lemma_decoded_round_trips(document: yaml_rust::Yaml)
    ensures
        decoded_document(document) matches Some(fs) ==> round_trips(fs),
{
    if let Some(entries) = yaml_items(yaml_entry(document, "functions"@)) {
        lemma_decoded_functions_sound(entries, entries.len());
    }
}

/// Reads the signatures that an intermediate document describes, in the
/// order of the document. Gives none where the document has no list under
/// `functions`, where an entry lacks one of its keys, and where a count is
/// no integer of 32 bits.
pub fn yml_to_c_function(yml: &yaml_rust::Yaml) -> (found: Option<Vec<CFunction>>)
    ensures
        decoded_as(found, decoded_document(*yml)),
        found matches Some(functions) ==> round_trips(function_views(functions@)),
{
    proof {
        lemma_decoded_round_trips(*yml);
    }
    let entries = match yaml_as_vec(yaml_get(yml, "functions")) {
        Some(items) => items,
        None => {
            return None;
        },
    };
    let mut c_functions: Vec<CFunction> = Vec::new();
    let count = entries.len();
    let mut i: usize = 0;
    while i < count
        invariant
            i <= count,
            count == entries@.len(),
            yaml_items(yaml_entry(*yml, "functions"@)) == Some(entries@),
            decoded_functions(entries@, i as nat) == Some(function_views(c_functions@)),
        decreases count - i,
    {
        match read_function(&entries[i]) {
            None => {
                proof {
                    lemma_functions_gap_stays(entries@, (i + 1) as nat, count as nat);
                }
                return None;
            },
            Some(f) => {
                c_functions.push(f);
            },
        }
        i = i + 1;
    }
    Some(c_functions)
}

/// Whether a document entry describes the given parameter.
pub open spec fn encodes_parameter(entry: yaml_rust::Yaml, p: ParameterView) -> bool {
    &&& yaml_text(yaml_entry(entry, "var_name"@)) == Some(p.var_name)
    &&& yaml_text(yaml_entry(entry, "type_name"@)) == Some(p.type_spelling)
    &&& yaml_integer(yaml_entry(entry, "pointer_depth"@)) == Some(p.pointer_depth as i64)
    &&& yaml_integer(yaml_entry(entry, "type_size"@)) == Some(p.type_size as i64)
}

/// Whether the entries of a list describe the given parameters, one each
/// and in order.
pub open spec fn encodes_parameters(entries: Seq<yaml_rust::Yaml>, ps: Seq<ParameterView>) -> bool {
    &&& entries.len() == ps.len()
    &&& forall|j: int| 0 <= j < ps.len() ==> encodes_parameter(#[trigger] entries[j], ps[j])
}

/// Whether a document entry describes the given signature.
pub open spec fn encodes_function(entry: yaml_rust::Yaml, f: FunctionView) -> bool {
    &&& yaml_text(yaml_entry(entry, "func_name"@)) == Some(f.name)
    &&& yaml_text(yaml_entry(entry, "return_type"@)) == Some(f.return_type)
    &&& yaml_items(yaml_entry(entry, "parameters"@)) matches Some(entries)
        && encodes_parameters(entries, f.parameters)
}

/// Whether the entries of a list describe the given signatures, one each
/// and in order.
pub open spec fn encodes_functions(entries: Seq<yaml_rust::Yaml>, fs: Seq<FunctionView>) -> bool {
    &&& entries.len() == fs.len()
    &&& forall|i: int| 0 <= i < fs.len() ==> encodes_function(#[trigger] entries[i], fs[i])
}

/// Whether a document describes the given signatures: under its key
/// `functions` it holds one entry for each, in order.
pub open spec fn encodes(document: yaml_rust::Yaml, fs: Seq<FunctionView>) -> bool {
    yaml_items(yaml_entry(document, "functions"@)) matches Some(entries) && encodes_functions(
        entries,
        fs,
    )
}

/// Every signature's categories are derived from its types, and its
/// counts fit their 32 bits.
pub open spec fn round_trips(fs: Seq<FunctionView>) -> bool {
    forall|i: int| 0 <= i < fs.len() ==> (#[trigger] fs[i]).well_formed() && fs[i].representable()
}

/// Writes a parameter as a document entry.
fn parameter_to_yml(p: &CParameter) -> (entry: yaml_rust::Yaml)
    ensures
        encodes_parameter(entry, p@),
{
    let mut entries: Vec<(String, yaml_rust::Yaml)> = Vec::new();
    entries.push(("var_name".to_string(), yaml_from_text(p.var_name.as_str())));
    entries.push(("type_name".to_string(), yaml_from_text(p.type_spelling.as_str())));
    entries.push(("pointer_depth".to_string(), yaml_from_integer(p.pointer_depth as i64)));
    entries.push(("type_size".to_string(), yaml_from_integer(p.type_size as i64)));
    proof {
        reveal_strlit("var_name");
        reveal_strlit("type_name");
        reveal_strlit("pointer_depth");
        reveal_strlit("type_size");
        assert("type_name"@[5] != "type_size"@[5]);
        assert(entries@[0].0@ == "var_name"@);
        assert(entries@[1].0@ == "type_name"@);
        assert(entries@[2].0@ == "pointer_depth"@);
        assert(entries@[3].0@ == "type_size"@);
    }
    yaml_from_entries(entries)
}

/// Writes a signature as a document entry.
fn function_to_yml(f: &CFunction) -> (entry: yaml_rust::Yaml)
    ensures
        encodes_function(entry, f@),
{
    let mut items: Vec<yaml_rust::Yaml> = Vec::new();
    let count = f.parameters.len();
    let mut j: usize = 0;
    while j < count
        invariant
            j <= count,
            count == f.parameters@.len(),
            items@.len() == j,
            forall|k: int|
                0 <= k < j ==> encodes_parameter(#[trigger] items@[k], f.parameters@[k]@),
        decreases count - j,
    {
        items.push(parameter_to_yml(&f.parameters[j]));
        j = j + 1;
    }
    let mut entries: Vec<(String, yaml_rust::Yaml)> = Vec::new();
    entries.push(("func_name".to_string(), yaml_from_text(f.name.as_str())));
    entries.push(("return_type".to_string(), yaml_from_text(f.return_type.as_str())));
    entries.push(("parameters".to_string(), yaml_from_items(items)));
    proof {
        reveal_strlit("func_name");
        reveal_strlit("return_type");
        reveal_strlit("parameters");
        assert(entries@[0].0@ == "func_name"@);
        assert(entries@[1].0@ == "return_type"@);
        assert(entries@[2].0@ == "parameters"@);
    }
    yaml_from_entries(entries)
}

/// Writes signatures as an intermediate document: a table with the list of
/// the signatures under `functions`, each a table of its name, its return
/// type and the list of its parameters.
pub fn c_functions_to_yml(c_functions: &Vec<CFunction>) -> (yml: yaml_rust::Yaml)
    ensures
        encodes(yml, function_views(c_functions@)),
{
    let mut items: Vec<yaml_rust::Yaml> = Vec::new();
    let count = c_functions.len();
    let mut i: usize = 0;
    while i < count
        invariant
            i <= count,
            count == c_functions@.len(),
            items@.len() == i,
            forall|k: int| 0 <= k < i ==> encodes_function(#[trigger] items@[k], c_functions@[k]@),
        decreases count - i,
    {
        items.push(function_to_yml(&c_functions[i]));
        i = i + 1;
    }
    let mut entries: Vec<(String, yaml_rust::Yaml)> = Vec::new();
    entries.push(("functions".to_string(), yaml_from_items(items)));
    assert(entries@[0].0@ == "functions"@);
    yaml_from_entries(entries)
}

/// Reading the entries that describe a list of parameters gives the
/// parameters back.
pub proof fn lemma_parameters_round_trip(
    entries: Seq<yaml_rust::Yaml>,
    ps: Seq<ParameterView>,
    count: nat,
)
    requires
        encodes_parameters(entries, ps),
        count <= ps.len(),
        forall|j: int|
            0 <= j < ps.len() ==> (#[trigger] ps[j]).well_formed() && ps[j].representable(),
    ensures
        decoded_parameters(entries, count) == Some(ps.take(count as int)),
    decreases count,
{
    if count == 0 {
    } else {
        lemma_parameters_round_trip(entries, ps, (count - 1) as nat);
        let p = ps[count - 1];
    }
}

/// Reading the entries that describe a list of signatures gives the
/// signatures back.
pub proof fn lemma_functions_round_trip(
    entries: Seq<yaml_rust::Yaml>,
    fs: Seq<FunctionView>,
    count: nat,
)
    requires
        encodes_functions(entries, fs),
        count <= fs.len(),
        round_trips(fs),
    ensures
        decoded_functions(entries, count) == Some(fs.take(count as int)),
    decreases count,
{
    if count == 0 {
    } else {
        lemma_functions_round_trip(entries, fs, (count - 1) as nat);
        let f = fs[count - 1];
        let listed = yaml_items(yaml_entry(entries[count - 1], "parameters"@))->Some_0;
        lemma_parameters_round_trip(listed, f.parameters, f.parameters.len());
        assert(f.parameters.take(f.parameters.len() as int) =~= f.parameters);
    }
}

/// Reading a document that describes a list of signatures gives the list
/// back, field for field, a signature without parameters included. It
/// holds of every list whose categories are derived from the types, as
/// those of every list that was extracted or read are.
pub proof fn lemma_round_trip(document: yaml_rust::Yaml, fs: Seq<FunctionView>)
    requires
        encodes(document, fs),
        round_trips(fs),
    ensures
        decoded_document(document) == Some(fs),
{
    let entries = yaml_items(yaml_entry(document, "functions"@))->Some_0;
    lemma_functions_round_trip(entries, fs, fs.len());
}

/// Every list of signatures that extraction hands out is one that a
/// document gives back unchanged.
pub proof fn lemma_extracted_round_trips(fs: Seq<FunctionView>)
    requires
        extracted_functions(fs),
    ensures
        round_trips(fs),
{
    assert forall|i: int| 0 <= i < fs.len() implies (#[trigger] fs[i]).well_formed()
        && fs[i].representable() by {
        let f = fs[i];
        assert forall|j: int| 0 <= j < f.parameters.len() implies (#[trigger] f.parameters[j])
            .well_formed() && f.parameters[j].representable() by {}
    }
}

/// The signatures that the text of an intermediate document describes: the
/// text has to be well-formed YAML, and its first document has to
/// describe signatures.
pub open spec fn decoded_text(text: Seq<char>) -> Option<Seq<FunctionView>> {
    match yaml_documents(text) {
        Some(documents) => if documents.len() == 0 {
            None
        } else {
            decoded_document(documents[0])
        },
        None => None,
    }
}

/// Reads the signatures that the text of an intermediate document
/// describes. `yml_file_path` names the document in the error, which is
/// the same for a text that is no YAML, a text without a document, and a
/// document that [`yml_to_c_function`] cannot read.
pub fn c_functions_from_yml_text(yml_content: &str, yml_file_path: &str) -> (found: Result<
    Vec<CFunction>,
    GlueError,
>)
    ensures
        match found {
            Ok(functions) => decoded_text(yml_content@) == Some(function_views(functions@)),
            Err(e) => decoded_text(yml_content@) is None && e@ == GlueErrorView::InvalidYamlFormat(
                yml_file_path@,
            ),
        },
{
    let yml_docs = match load_documents(yml_content) {
        Some(documents) => documents,
        None => {
            return Err(GlueError::InvalidYamlFormat(yml_file_path.to_string()));
        },
    };
    if yml_docs.len() == 0 {
        return Err(GlueError::InvalidYamlFormat(yml_file_path.to_string()));
    }
    match yml_to_c_function(&yml_docs[0]) {
        Some(c_functions) => Ok(c_functions),
        None => Err(GlueError::InvalidYamlFormat(yml_file_path.to_string())),
    }
}

} // verus!
