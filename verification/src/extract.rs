//! From a parsed C source to function signatures: the captures of the
//! declaration query are grouped into one record per declaration, and the
//! parameters are read off the syntax tree.

use vstd::prelude::*;
use crate::cfunc::{function_views, parameter_views, CFunction, FunctionView};
use crate::cparam::{
    declarator_chain, lemma_chain_depth_bounded, node_text, pointer_depth_and_var_name, CParameter,
    ParameterView,
};
use crate::error::ExtractError;
use crate::syntax::{
    c_language, capture_index_for_name, child_count_of, child_of, compile_query, field_of,
    kind_of, node_child, node_child_by_field_name, node_child_count, node_kind, node_span,
    parse_source, query_captures, root_node, span_of,
};
use crate::text::{byte_range_text, str_eq};

verus! {

/// The query that matches a declaration of a function: a type, then a
/// function declarator made of a declarator and a parameter list.
pub const DECLARATION_QUERY: &'static str = "(declaration
    type: (_) @return_type
    declarator: (function_declarator
        declarator: (_) @declarator
        parameters:
            (parameter_list
                (parameter_declaration
                    type: (_)
                    declarator: (_)
                )*
            ) @parameters
    )
)";

/// What a capture of the declaration query stands for.
#[derive(Clone, Copy, Debug, PartialEq, Eq, Structural)]
pub enum CaptureKind {
    /// The return type; it starts a new record.
    ReturnType,
    /// The declarator that names the function.
    Declarator,
    /// The parameter list.
    Parameters,
}

/// The indices under which the query reports its three captures.
#[derive(Clone, Copy, Debug, PartialEq, Eq, Structural)]
pub struct CaptureIndices {
    pub return_type: u32,
    pub declarator: u32,
    pub parameters: u32,
}

impl CaptureIndices {
    /// What a capture index stands for; `None` for an index that is none
    /// of the three.
    pub open spec fn kind(self, index: u32) -> Option<CaptureKind> {
        if index == self.return_type {
            Some(CaptureKind::ReturnType)
        } else if index == self.declarator {
            Some(CaptureKind::Declarator)
        } else if index == self.parameters {
            Some(CaptureKind::Parameters)
        } else {
            None
        }
    }

    /// What a capture index stands for.
    pub fn kind_of_index(&self, index: u32) -> (kind: Option<CaptureKind>)
        ensures
            kind == self.kind(index),
    {
        if index == self.return_type {
            Some(CaptureKind::ReturnType)
        } else if index == self.declarator {
            Some(CaptureKind::Declarator)
        } else if index == self.parameters {
            Some(CaptureKind::Parameters)
        } else {
            None
        }
    }
}

/// The parameter that a `parameter_declaration` node declares. The node
/// needs a `type` and a `declarator` field; more than one level of
/// indirection is refused; the size is left at zero.
pub open spec fn parameter_of(source: Seq<char>, node: tree_sitter::Node) -> Result<
    ParameterView,
    ExtractError,
> {
    match field_of(node, "type"@) {
        None => Err(ExtractError::Malformed { offset: span_of(node).0 }),
        Some(type_node) => match field_of(node, "declarator"@) {
            None => Err(ExtractError::Malformed { offset: span_of(node).0 }),
            Some(var_node) => match node_text(source, type_node) {
                None => Err(ExtractError::Malformed { offset: span_of(type_node).0 }),
                Some(type_text) => match pointer_depth_and_var_name(source, var_node) {
                    Err(e) => Err(e),
                    Ok((depth, name)) => if depth > 1 {
                        Err(ExtractError::MultiLevelIndirection)
                    } else {
                        Ok(ParameterView::make(name, type_text, depth as nat, 0))
                    },
                },
            },
        },
    }
}

/// The parameters declared by the first `count` children of a parameter
/// list, in order. A child that the node does not hand out is a fault of
/// the list; children of other kinds (brackets, commas) are passed over.
/// The first failure is the result.
pub open spec fn parameters_of(source: Seq<char>, list: tree_sitter::Node, count: nat) -> Result<
    Seq<ParameterView>,
    ExtractError,
>
    decreases count,
{
    if count == 0 {
        Ok(Seq::empty())
    } else {
        match parameters_of(source, list, (count - 1) as nat) {
            Err(e) => Err(e),
            Ok(before) => match child_of(list, (count - 1) as usize) {
                None => Err(ExtractError::Malformed { offset: span_of(list).0 }),
                Some(child) => if kind_of(child) == "parameter_declaration"@ {
                    match parameter_of(source, child) {
                        Err(e) => Err(e),
                        Ok(p) => Ok(before.push(p)),
                    }
                } else {
                    Ok(before)
                },
            },
        }
    }
}

/// The record of the declaration that is being read.
pub struct PendingView {
    pub return_type: Seq<char>,
    pub offset: usize,
    pub name: Option<Seq<char>>,
    pub parameters: Option<Seq<ParameterView>>,
}

/// The state carried through the captures: the finished records and the
/// one in progress.
pub struct GroupingView {
    pub done: Seq<FunctionView>,
    pub pending: Option<PendingView>,
}

/// The finished record of a declaration: it needs a name and a parameter
/// list.
pub open spec fn finished(pending: PendingView) -> Result<FunctionView, ExtractError> {
    match (pending.name, pending.parameters) {
        (Some(name), Some(parameters)) => Ok(
            FunctionView { return_type: pending.return_type, name, parameters },
        ),
        _ => Err(ExtractError::Malformed { offset: pending.offset }),
    }
}

/// The finished records once the record in progress, if any, is closed.
pub open spec fn flushed(state: GroupingView) -> Result<Seq<FunctionView>, ExtractError> {
    match state.pending {
        None => Ok(state.done),
        Some(pending) => match finished(pending) {
            Err(e) => Err(e),
            Ok(f) => Ok(state.done.push(f)),
        },
    }
}

/// The state after one more capture. A return type closes the record in
/// progress and starts a new one; a declarator names the record in
/// progress; a parameter list adds its parameters to it. A declarator or a
/// parameter list without a record in progress, a capture whose span is no
/// text of the source, and an empty name are faults of the declaration.
pub open spec fn after_capture(
    source: Seq<char>,
    state: GroupingView,
    kind: CaptureKind,
    node: tree_sitter::Node,
) -> Result<GroupingView, ExtractError> {
    match node_text(source, node) {
        None => Err(ExtractError::Malformed { offset: span_of(node).0 }),
        Some(text) => match kind {
            CaptureKind::ReturnType => match flushed(state) {
                Err(e) => Err(e),
                Ok(done) => Ok(
                    GroupingView {
                        done,
                        pending: Some(
                            PendingView {
                                return_type: text,
                                offset: span_of(node).0,
                                name: None,
                                parameters: None,
                            },
                        ),
                    },
                ),
            },
            CaptureKind::Declarator => match state.pending {
                None => Err(ExtractError::Malformed { offset: span_of(node).0 }),
                Some(pending) => if text.len() == 0 {
                    Err(ExtractError::Malformed { offset: span_of(node).0 })
                } else {
                    Ok(
                        GroupingView {
                            done: state.done,
                            pending: Some(PendingView { name: Some(text), ..pending }),
                        },
                    )
                },
            },
            CaptureKind::Parameters => match state.pending {
                None => Err(ExtractError::Malformed { offset: span_of(node).0 }),
                Some(pending) => match parameters_of(source, node, child_count_of(node) as nat) {
                    Err(e) => Err(e),
                    Ok(found) => Ok(
                        GroupingView {
                            done: state.done,
                            pending: Some(
                                PendingView {
                                    parameters: Some(
                                        match pending.parameters {
                                            Some(earlier) => earlier + found,
                                            None => found,
                                        },
                                    ),
                                    ..pending
                                },
                            ),
                        },
                    ),
                },
            },
        },
    }
}

/// The state after the first `count` captures, starting from nothing.
/// Captures under other indices than the three are passed over.
pub open spec fn grouped(
    source: Seq<char>,
    captures: Seq<(u32, tree_sitter::Node)>,
    indices: CaptureIndices,
    count: nat,
) -> Result<GroupingView, ExtractError>
    decreases count,
{
    if count == 0 {
        Ok(GroupingView { done: Seq::empty(), pending: None })
    } else {
        match grouped(source, captures, indices, (count - 1) as nat) {
            Err(e) => Err(e),
            Ok(state) => match indices.kind(captures[count - 1].0) {
                None => Ok(state),
                Some(kind) => after_capture(source, state, kind, captures[count - 1].1),
            },
        }
    }
}

/// The signatures that a stream of captures declares, in the order of the
/// declarations, or the first fault met.
pub open spec fn signatures_of(
    source: Seq<char>,
    captures: Seq<(u32, tree_sitter::Node)>,
    indices: CaptureIndices,
) -> Result<Seq<FunctionView>, ExtractError> {
    match grouped(source, captures, indices, captures.len()) {
        Err(e) => Err(e),
        Ok(state) => flushed(state),
    }
}

/// Whether an outcome is the expected one, value for value.
pub open spec fn functions_match(
    found: Result<Vec<CFunction>, ExtractError>,
    expected: Result<Seq<FunctionView>, ExtractError>,
) -> bool {
    match found {
        Ok(functions) => expected == Ok::<Seq<FunctionView>, ExtractError>(
            function_views(functions@),
        ),
        Err(e) => expected == Err::<Seq<FunctionView>, ExtractError>(e),
    }
}

/// The record of the declaration that is being read.
struct Pending {
    return_type: String,
    offset: usize,
    name: Option<String>,
    parameters: Option<Vec<CParameter>>,
}

/// The finished records and the one in progress.
struct Grouping {
    done: Vec<CFunction>,
    pending: Option<Pending>,
}

impl View for Pending {
    type V = PendingView;

    closed spec fn view(&self) -> PendingView {
        PendingView {
            return_type: self.return_type@,
            offset: self.offset,
            name: match self.name {
                Some(name) => Some(name@),
                None => None,
            },
            parameters: match self.parameters {
                Some(parameters) => Some(parameter_views(parameters@)),
                None => None,
            },
        }
    }
}

impl View for Grouping {
    type V = GroupingView;

    closed spec fn view(&self) -> GroupingView {
        GroupingView {
            done: function_views(self.done@),
            pending: match self.pending {
                Some(pending) => Some(pending@),
                None => None,
            },
        }
    }
}

/// Reads the parameter that a `parameter_declaration` node declares.
fn read_parameter(source: &str, node: tree_sitter::Node) -> (found: Result<
    CParameter,
    ExtractError,
>)
    ensures
        match found {
            Ok(p) => parameter_of(source@, node) == Ok::<ParameterView, ExtractError>(p@),
            Err(e) => parameter_of(source@, node) == Err::<ParameterView, ExtractError>(e),
        },
{
    let (node_start, _) = node_span(node);
    let type_node = match node_child_by_field_name(node, "type") {
        Some(n) => n,
        None => {
            return Err(ExtractError::Malformed { offset: node_start });
        },
    };
    let var_node = match node_child_by_field_name(node, "declarator") {
        Some(n) => n,
        None => {
            return Err(ExtractError::Malformed { offset: node_start });
        },
    };
    let (type_start, type_end) = node_span(type_node);
    let type_text = match byte_range_text(source, type_start, type_end) {
        Some(t) => t,
        None => {
            return Err(ExtractError::Malformed { offset: type_start });
        },
    };
    match CParameter::get_pointer_depth_and_var_name(source, var_node) {
        Err(e) => Err(e),
        Ok((pointer_depth, var_name)) => {
            if pointer_depth > 1 {
                Err(ExtractError::MultiLevelIndirection)
            } else {
                Ok(CParameter::new(var_name.as_str(), type_text, pointer_depth, 0))
            }
        },
    }
}

/// Reads the parameters that a parameter list declares and adds them to
/// `into`, in order.
fn read_parameters(source: &str, list: tree_sitter::Node, into: &mut Vec<CParameter>) -> (found:
    Result<(), ExtractError>)
    ensures
        match found {
            Ok(_) => parameters_of(source@, list, child_count_of(list) as nat) matches Ok(added)
                && parameter_views(final(into)@) == parameter_views(old(into)@) + added,
            Err(e) => parameters_of(source@, list, child_count_of(list) as nat) == Err::<
                Seq<ParameterView>,
                ExtractError,
            >(e),
        },
{
    let count = node_child_count(list);
    let ghost before = parameter_views(into@);
    let mut index: usize = 0;
    while index < count
        invariant
            index <= count,
            count == child_count_of(list),
            before == parameter_views(old(into)@),
            parameters_of(source@, list, index as nat) matches Ok(added) && parameter_views(into@)
                == before + added,
        decreases count - index,
    {
        let child = match node_child(list, index) {
            Some(n) => n,
            None => {
                let (list_start, _) = node_span(list);
                proof {
                    lemma_parameters_fault_stays(
                        source@,
                        list,
                        (index + 1) as nat,
                        count as nat,
                    );
                }
                return Err(ExtractError::Malformed { offset: list_start });
            },
        };
        if str_eq(node_kind(child), "parameter_declaration") {
            match read_parameter(source, child) {
                Err(e) => {
                    proof {
                        lemma_parameters_fault_stays(
                            source@,
                            list,
                            (index + 1) as nat,
                            count as nat,
                        );
                    }
                    return Err(e);
                },
                Ok(p) => {
                    let ghost earlier = parameter_views(into@);
                    let ghost added = parameters_of(source@, list, index as nat)->Ok_0;
                    into.push(p);
                    assert(earlier.push(p@) =~= before + added.push(p@));
                },
            }
        }
        index = index + 1;
    }
    Ok(())
}

/// A fault among the first children of a parameter list is the outcome for
/// the whole list.
pub proof fn lemma_parameters_fault_stays(
    source: Seq<char>,
    list: tree_sitter::Node,
    count: nat,
    more: nat,
)
    requires
        count <= more,
        parameters_of(source, list, count) is Err,
    ensures
        parameters_of(source, list, more) == parameters_of(source, list, count),
    decreases more,
{
    if count < more {
        lemma_parameters_fault_stays(source, list, count, (more - 1) as nat);
    }
}

/// Closes a record.
fn finish(pending: Pending) -> (found: Result<CFunction, ExtractError>)
    ensures
        match found {
            Ok(f) => finished(pending@) == Ok::<FunctionView, ExtractError>(f@),
            Err(e) => finished(pending@) == Err::<FunctionView, ExtractError>(e),
        },
{
    let Pending { return_type, offset, name, parameters } = pending;
    match name {
        None => Err(ExtractError::Malformed { offset }),
        Some(name) => match parameters {
            None => Err(ExtractError::Malformed { offset }),
            Some(parameters) => Ok(CFunction { return_type, name, parameters }),
        },
    }
}

/// Closes the record in progress, if any, and hands out the finished
/// records.
fn flush(state: Grouping) -> (found: Result<Vec<CFunction>, ExtractError>)
    ensures
        functions_match(found, flushed(state@)),
{
    let Grouping { done, pending } = state;
    match pending {
        None => Ok(done),
        Some(pending) => match finish(pending) {
            Err(e) => Err(e),
            Ok(f) => {
                let mut done = done;
                let ghost earlier = function_views(done@);
                done.push(f);
                assert(function_views(done@) =~= earlier.push(f@));
                Ok(done)
            },
        },
    }
}

/// Takes one capture into the state.
fn take_capture(source: &str, state: Grouping, kind: CaptureKind, node: tree_sitter::Node) -> (next:
    Result<Grouping, ExtractError>)
    ensures
        match next {
            Ok(s) => after_capture(source@, state@, kind, node) == Ok::<
                GroupingView,
                ExtractError,
            >(s@),
            Err(e) => after_capture(source@, state@, kind, node) == Err::<
                GroupingView,
                ExtractError,
            >(e),
        },
{
    let (start_byte, end_byte) = node_span(node);
    let text = match byte_range_text(source, start_byte, end_byte) {
        Some(t) => t,
        None => {
            return Err(ExtractError::Malformed { offset: start_byte });
        },
    };
    match kind {
        CaptureKind::ReturnType => match flush(state) {
            Err(e) => Err(e),
            Ok(done) => Ok(
                Grouping {
                    done,
                    pending: Some(
                        Pending {
                            return_type: text.to_string(),
                            offset: start_byte,
                            name: None,
                            parameters: None,
                        },
                    ),
                },
            ),
        },
        CaptureKind::Declarator => {
            let Grouping { done, pending } = state;
            match pending {
                None => Err(ExtractError::Malformed { offset: start_byte }),
                Some(pending) => {
                    if text.is_empty() {
                        Err(ExtractError::Malformed { offset: start_byte })
                    } else {
                        let Pending { return_type, offset, name: _, parameters } = pending;
                        Ok(
                            Grouping {
                                done,
                                pending: Some(
                                    Pending {
                                        return_type,
                                        offset,
                                        name: Some(text.to_string()),
                                        parameters,
                                    },
                                ),
                            },
                        )
                    }
                },
            }
        },
        CaptureKind::Parameters => {
            let Grouping { done, pending } = state;
            match pending {
                None => Err(ExtractError::Malformed { offset: start_byte }),
                Some(pending) => {
                    let Pending { return_type, offset, name, parameters } = pending;
                    let mut list = match parameters {
                        Some(earlier) => earlier,
                        None => Vec::new(),
                    };
                    match read_parameters(source, node, &mut list) {
                        Err(e) => Err(e),
                        Ok(_) => Ok(
                            Grouping {
                                done,
                                pending: Some(
                                    Pending { return_type, offset, name, parameters: Some(list) },
                                ),
                            },
                        ),
                    }
                },
            }
        },
    }
}

/// A fault among the first captures is the outcome for the whole stream.
pub proof fn lemma_grouping_fault_stays(
    source: Seq<char>,
    captures: Seq<(u32, tree_sitter::Node)>,
    indices: CaptureIndices,
    count: nat,
    more: nat,
)
    requires
        count <= more,
        grouped(source, captures, indices, count) is Err,
    ensures
        grouped(source, captures, indices, more) == grouped(source, captures, indices, count),
    decreases more,
{
    if count < more {
        lemma_grouping_fault_stays(source, captures, indices, count, (more - 1) as nat);
    }
}

/// Groups the captures of the declaration query into signatures, one per
/// return-type capture, in the order in which the captures come.
pub fn signatures_from_captures<'a>(
    source: &str,
    captures: &Vec<(u32, tree_sitter::Node<'a>)>,
    indices: &CaptureIndices,
) -> (found: Result<Vec<CFunction>, ExtractError>)
    ensures
        functions_match(found, signatures_of(source@, captures@, *indices)),
        found matches Ok(functions) ==> extracted_functions(function_views(functions@))
            && functions@.len() == return_type_count(captures@, *indices, captures@.len()),
{
    proof {
        lemma_signatures_extracted(source@, captures@, *indices);
    }
    let mut state = Grouping { done: Vec::new(), pending: None };
    assert(state@.done =~= Seq::<FunctionView>::empty());
    let count = captures.len();
    let mut i: usize = 0;
    while i < count
        invariant
            i <= count,
            count == captures@.len(),
            grouped(source@, captures@, *indices, i as nat) == Ok::<GroupingView, ExtractError>(
                state@,
            ),
        decreases count - i,
    {
        let index = captures[i].0;
        let node = captures[i].1;
        match indices.kind_of_index(index) {
            None => {},
            Some(kind) => {
                match take_capture(source, state, kind, node) {
                    Ok(next) => {
                        state = next;
                    },
                    Err(e) => {
                        proof {
                            lemma_grouping_fault_stays(
                                source@,
                                captures@,
                                *indices,
                                (i + 1) as nat,
                                count as nat,
                            );
                        }
                        return Err(e);
                    },
                }
            },
        }
        i = i + 1;
    }
    flush(state)
}

/// What holds of every parameter that extraction hands out: at most one
/// level of indirection, no size yet, and the category of its type.
pub open spec fn extracted_parameter(p: ParameterView) -> bool {
    p.pointer_depth <= 1 && p.type_size == 0 && p.well_formed()
}

/// Every parameter of a list is as extraction hands it out.
pub open spec fn extracted_parameters(ps: Seq<ParameterView>) -> bool {
    forall|j: int| 0 <= j < ps.len() ==> extracted_parameter(#[trigger] ps[j])
}

/// What holds of every signature that extraction hands out: a name, and
/// parameters as extraction hands them out.
pub open spec fn extracted_function(f: FunctionView) -> bool {
    f.name.len() > 0 && extracted_parameters(f.parameters)
}

/// Every signature of a list is as extraction hands it out.
pub open spec fn extracted_functions(fs: Seq<FunctionView>) -> bool {
    forall|i: int| 0 <= i < fs.len() ==> extracted_function(#[trigger] fs[i])
}

/// What holds of the state between two captures.
pub open spec fn extracted_state(state: GroupingView) -> bool {
    &&& extracted_functions(state.done)
    &&& state.pending matches Some(pending) ==> {
        &&& pending.name matches Some(name) ==> name.len() > 0
        &&& pending.parameters matches Some(ps) ==> extracted_parameters(ps)
    }
}

/// The number of return-type captures among the first `count` captures.
pub open spec fn return_type_count(
    captures: Seq<(u32, tree_sitter::Node)>,
    indices: CaptureIndices,
    count: nat,
) -> nat
    decreases count,
{
    if count == 0 {
        0
    } else {
        return_type_count(captures, indices, (count - 1) as nat) + if indices.kind(
            captures[count - 1].0,
        ) == Some(CaptureKind::ReturnType) {
            1nat
        } else {
            0nat
        }
    }
}

/// The number of records of a state, the one in progress included.
pub open spec fn record_count(state: GroupingView) -> nat {
    state.done.len() + if state.pending is Some {
        1nat
    } else {
        0nat
    }
}

/// A parameter that is read has at most one level of indirection, no size,
/// and the category of its type.
pub proof fn lemma_parameter_extracted(source: Seq<char>, node: tree_sitter::Node)
    ensures
        parameter_of(source, node) matches Ok(p) ==> extracted_parameter(p),
{
}

/// The parameters read off a list are all as extraction hands them out.
pub proof fn lemma_parameters_extracted(source: Seq<char>, list: tree_sitter::Node, count: nat)
    ensures
        parameters_of(source, list, count) matches Ok(ps) ==> extracted_parameters(ps),
    decreases count,
{
    if count > 0 {
        lemma_parameters_extracted(source, list, (count - 1) as nat);
        if let Some(child) = child_of(list, (count - 1) as usize) {
        }
    }
}

/// One capture keeps the state as extraction has it, and adds a record
/// exactly where it is a return type.
pub proof fn lemma_capture_keeps_state(
    source: Seq<char>,
    state: GroupingView,
    kind: CaptureKind,
    node: tree_sitter::Node,
)
    requires
        extracted_state(state),
    ensures
        after_capture(source, state, kind, node) matches Ok(next) ==> extracted_state(next)
            && record_count(next) == record_count(state) + if kind == CaptureKind::ReturnType {
            1nat
        } else {
            0nat
        },
{
    if let Ok(next) = after_capture(source, state, kind, node) {
        match kind {
            CaptureKind::ReturnType => {},
            CaptureKind::Declarator => {},
            CaptureKind::Parameters => {
                lemma_parameters_extracted(source, node, child_count_of(node) as nat);
            },
        }
    }
}

/// The state after any number of captures is as extraction has it, with
/// one record per return-type capture.
pub proof fn lemma_grouped_state(
    source: Seq<char>,
    captures: Seq<(u32, tree_sitter::Node)>,
    indices: CaptureIndices,
    count: nat,
)
    ensures
        grouped(source, captures, indices, count) matches Ok(state) ==> extracted_state(state)
            && record_count(state) == return_type_count(captures, indices, count),
    decreases count,
{
    if count > 0 {
        lemma_grouped_state(source, captures, indices, (count - 1) as nat);
        if let Ok(state) = grouped(source, captures, indices, (count - 1) as nat) {
            if let Some(kind) = indices.kind(captures[count - 1].0) {
                lemma_capture_keeps_state(source, state, kind, captures[count - 1].1);
            }
        }
    }
}

/// Every signature that a stream of captures yields has a name, and every
/// parameter of it has at most one level of indirection, no size and the
/// category of its type; and there is one signature for each return-type
/// capture of the stream.
pub proof fn lemma_signatures_extracted(
    source: Seq<char>,
    captures: Seq<(u32, tree_sitter::Node)>,
    indices: CaptureIndices,
)
    ensures
        signatures_of(source, captures, indices) matches Ok(fs) ==> extracted_functions(fs)
            && fs.len() == return_type_count(captures, indices, captures.len()),
{
    lemma_grouped_state(source, captures, indices, captures.len());
}

/// A stream without captures yields no signature, and no fault.
pub proof fn lemma_empty_stream(source: Seq<char>, indices: CaptureIndices)
    ensures
        signatures_of(source, Seq::empty(), indices) == Ok::<Seq<FunctionView>, ExtractError>(
            Seq::empty(),
        ),
{
}

/// Whether the child of a parameter list at `index` declares a parameter
/// with two or more levels of indirection: a parameter declaration whose
/// declarator holds a declarator that holds a declarator.
pub open spec fn deep_pointer_at(list: tree_sitter::Node, index: int) -> bool {
    &&& child_of(list, index as usize) matches Some(declaration)
    &&& kind_of(declaration) == "parameter_declaration"@
    &&& field_of(declaration, "declarator"@) matches Some(declarator)
    &&& !(declarator_chain(declarator, u32::MAX as nat) matches Some((depth, _)) && depth <= 1)
}

/// A parameter with two or more levels of indirection makes the whole
/// extraction fail: where a parameter list among the captures declares
/// one, no signature list comes out, whatever else the stream holds.
pub proof fn lemma_deep_pointer_fails_extraction(
    source: Seq<char>,
    captures: Seq<(u32, tree_sitter::Node)>,
    indices: CaptureIndices,
    at: int,
    child: int,
)
    requires
        0 <= at < captures.len(),
        indices.kind(captures[at].0) == Some(CaptureKind::Parameters),
        0 <= child < child_count_of(captures[at].1),
        deep_pointer_at(captures[at].1, child),
    ensures
        signatures_of(source, captures, indices) is Err,
{
    let list = captures[at].1;
    let declarator = field_of(child_of(list, child as usize)->Some_0, "declarator"@)->Some_0;
    lemma_chain_depth_bounded(declarator, u32::MAX as nat);
    lemma_parameters_fault_stays(
        source,
        list,
        (child + 1) as nat,
        child_count_of(list) as nat,
    );
    lemma_grouping_fault_stays(source, captures, indices, (at + 1) as nat, captures.len());
}

/// Extracts the signatures of the functions that a C source declares, in
/// the order of the declarations. The source is parsed, the declaration
/// query is run over the tree, and the captures are grouped by
/// [`signatures_from_captures`], whose contract says what comes out for
/// each stream of captures. A parser that gives no tree, or one that
/// reaches beyond the source, is a failed parse. Whatever the parser and
/// the query give, the signatures that come out have a name each, and
/// parameters with at most one level of indirection, no size and the
/// category of their type.
pub fn extract_function_declarators(
    c_lang_parser: &mut tree_sitter::Parser,
    source_code: &str,
) -> (found: Result<Vec<CFunction>, ExtractError>)
    ensures
        found matches Ok(functions) ==> extracted_functions(function_views(functions@)),
        found == Err::<Vec<CFunction>, ExtractError>(ExtractError::ParseFailed) || found == Err::<
            Vec<CFunction>,
            ExtractError,
        >(ExtractError::QueryUnavailable) || exists|
            captures: Seq<(u32, tree_sitter::Node)>,
            indices: CaptureIndices,
        | functions_match(found, #[trigger] signatures_of(source_code@, captures, indices)),
{
    let tree = match parse_source(c_lang_parser, source_code) {
        Some(tree) => tree,
        None => {
            return Err(ExtractError::ParseFailed);
        },
    };
    let root = root_node(&tree);
    let (_, root_end) = node_span(root);
    if root_end > source_code.as_bytes().len() {
        return Err(ExtractError::ParseFailed);
    }
    let query = match compile_query(c_language(), DECLARATION_QUERY) {
        Some(query) => query,
        None => {
            return Err(ExtractError::QueryUnavailable);
        },
    };
    let captures = query_captures(&query, root, source_code);
    let return_type = match capture_index_for_name(&query, "return_type") {
        Some(index) => index,
        None => {
            return Err(ExtractError::QueryUnavailable);
        },
    };
    let declarator = match capture_index_for_name(&query, "declarator") {
        Some(index) => index,
        None => {
            return Err(ExtractError::QueryUnavailable);
        },
    };
    let parameters = match capture_index_for_name(&query, "parameters") {
        Some(index) => index,
        None => {
            return Err(ExtractError::QueryUnavailable);
        },
    };
    let indices = CaptureIndices { return_type, declarator, parameters };
    signatures_from_captures(source_code, &captures, &indices)
}

} // verus!
