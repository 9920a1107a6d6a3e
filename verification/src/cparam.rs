//! One parameter of an extracted C function.

use vstd::prelude::*;
use crate::error::ExtractError;
use crate::java_type::{classify, PossibleJavaType};
use crate::syntax::{field_of, node_child_by_field_name, node_span, span_of};
use crate::text::{append_repeated, byte_range_text, repeated, str_eq, text_in_range};

verus! {

/// A parameter of a C function together with the Java category that its
/// type maps to.
#[derive(Clone, Debug)]
pub struct CParameter {
    pub var_name: String,
    pub type_spelling: String,
    pub pointer_depth: u32,
    pub type_size: u32,
    pub java_type: PossibleJavaType,
}

/// The mathematical value of a [`CParameter`].
pub struct ParameterView {
    pub var_name: Seq<char>,
    pub type_spelling: Seq<char>,
    pub pointer_depth: nat,
    pub type_size: nat,
    pub java_type: PossibleJavaType,
}

impl ParameterView {
    /// The parameter that `CParameter::new` builds from the four values.
    pub open spec fn make(
        var_name: Seq<char>,
        type_spelling: Seq<char>,
        pointer_depth: nat,
        type_size: nat,
    ) -> ParameterView {
        ParameterView {
            var_name,
            type_spelling,
            pointer_depth,
            type_size,
            java_type: classify(type_spelling),
        }
    }

    /// The category is the one that the type's spelling maps to.
    pub open spec fn well_formed(self) -> bool {
        self.java_type == classify(self.type_spelling)
    }

    /// The two counts fit the 32 bits that a parameter has for each.
    pub open spec fn representable(self) -> bool {
        self.pointer_depth <= u32::MAX && self.type_size <= u32::MAX
    }

    /// The parameter's type as C writes it: the spelling followed by one
    /// `*` per level of indirection.
    pub open spec fn declared_type(self) -> Seq<char> {
        self.type_spelling + repeated("*"@, self.pointer_depth)
    }
}

/// The text that a node covers in the source, where its span lies within
/// the source on character boundaries.
pub open spec fn node_text(source: Seq<char>, node: tree_sitter::Node) -> Option<Seq<char>> {
    text_in_range(source, span_of(node).0 as int, span_of(node).1 as int)
}

/// Follows the nested `declarator` fields below a node, at most `fuel` of
/// them: the number of steps taken and the node reached, which has no such
/// field; `None` where the chain is longer than `fuel`.
pub open spec fn declarator_chain(node: tree_sitter::Node, fuel: nat) -> Option<
    (nat, tree_sitter::Node),
>
    decreases fuel,
{
    match field_of(node, "declarator"@) {
        None => Some((0nat, node)),
        Some(inner) => if fuel == 0 {
            None
        } else {
            match declarator_chain(inner, (fuel - 1) as nat) {
                Some((depth, terminal)) => Some((depth + 1, terminal)),
                None => None,
            }
        },
    }
}

/// A chain's outcome, moved `steps` levels further down.
pub open spec fn deepened(chain: Option<(nat, tree_sitter::Node)>, steps: nat) -> Option<
    (nat, tree_sitter::Node),
> {
    match chain {
        Some((depth, terminal)) => Some((depth + steps, terminal)),
        None => None,
    }
}

/// The pointer depth and the variable name of a parameter's declarator:
/// each nested declarator is one level of indirection, and the innermost
/// node's text is the name.
pub open spec fn pointer_depth_and_var_name(source: Seq<char>, node: tree_sitter::Node) -> Result<
    (u32, Seq<char>),
    ExtractError,
> {
    match declarator_chain(node, u32::MAX as nat) {
        None => Err(ExtractError::MultiLevelIndirection),
        Some((depth, terminal)) => match node_text(source, terminal) {
            None => Err(ExtractError::Malformed { offset: span_of(terminal).0 }),
            Some(name) => Ok((depth as u32, name)),
        },
    }
}

/// A chain that ends within `fuel` steps is no deeper than `fuel`.
pub proof fn lemma_chain_depth_bounded(node: tree_sitter::Node, fuel: nat)
    ensures
        declarator_chain(node, fuel) matches Some((depth, _)) ==> depth <= fuel,
    decreases fuel,
{
    match field_of(node, "declarator"@) {
        None => {},
        Some(inner) => {
            if fuel > 0 {
                lemma_chain_depth_bounded(inner, (fuel - 1) as nat);
            }
        },
    }
}

/// Whether a type spelling is one of the six primitive C types.
pub open spec fn is_primitive_spelling(spelling: Seq<char>) -> bool {
    classify(spelling) != PossibleJavaType::ByteArray
}

impl View for CParameter {
    type V = ParameterView;

    open spec fn view(&self) -> ParameterView {
        ParameterView {
            var_name: self.var_name@,
            type_spelling: self.type_spelling@,
            pointer_depth: self.pointer_depth as nat,
            type_size: self.type_size as nat,
            java_type: self.java_type,
        }
    }
}

impl CParameter {
    /// The category is the one that the type's spelling maps to.
    pub open spec fn well_formed(&self) -> bool {
        self@.well_formed()
    }

    /// Builds a parameter; the category is derived from the type's spelling.
    pub fn new(var_name: &str, type_spelling: &str, pointer_depth: u32, type_size: u32) -> (p: Self)
        ensures
            p@ == ParameterView::make(
                var_name@,
                type_spelling@,
                pointer_depth as nat,
                type_size as nat,
            ),
            p.well_formed(),
    {
        let java_type = Self::convert_to_java_type(type_spelling);
        Self {
            var_name: var_name.to_string(),
            type_spelling: type_spelling.to_string(),
            pointer_depth,
            type_size,
            java_type,
        }
    }

    /// Appends the parameter's type as C writes it.
    pub fn append_declared_type(&self, out: &mut String)
        ensures
            final(out)@ == old(out)@ + self@.declared_type(),
    {
        out.append(self.type_spelling.as_str());
        append_repeated(out, "*", self.pointer_depth);
    }

    /// Reads the pointer depth and the variable name off the declarator of
    /// a parameter. Fails where the innermost node's span is no text of
    /// the source, and where the depth does not fit the counter.
    pub fn get_pointer_depth_and_var_name<'a>(
        source_code: &'a str,
        pointer_node: tree_sitter::Node<'a>,
    ) -> (found: Result<(u32, String), ExtractError>)
        ensures
            match found {
                Ok((depth, name)) => pointer_depth_and_var_name(source_code@, pointer_node) == Ok::<
                    (u32, Seq<char>),
                    ExtractError,
                >((depth, name@)),
                Err(e) => pointer_depth_and_var_name(source_code@, pointer_node) == Err::<
                    (u32, Seq<char>),
                    ExtractError,
                >(e),
            },
    {
        let mut pointer_depth: u32 = 0;
        let mut current_node = pointer_node;
        loop
            invariant
                deepened(
                    declarator_chain(current_node, (u32::MAX - pointer_depth) as nat),
                    pointer_depth as nat,
                ) == declarator_chain(pointer_node, u32::MAX as nat),
            ensures
                declarator_chain(pointer_node, u32::MAX as nat) == Some(
                    (pointer_depth as nat, current_node),
                ),
            decreases u32::MAX - pointer_depth,
        {
            match node_child_by_field_name(current_node, "declarator") {
                None => {
                    break;
                },
                Some(child_node) => {
                    if pointer_depth == u32::MAX {
                        return Err(ExtractError::MultiLevelIndirection);
                    }
                    pointer_depth = pointer_depth + 1;
                    current_node = child_node;
                },
            }
        }
        let (start_byte, end_byte) = node_span(current_node);
        match byte_range_text(source_code, start_byte, end_byte) {
            None => Err(ExtractError::Malformed { offset: start_byte }),
            Some(text) => Ok((pointer_depth, text.to_string())),
        }
    }

    /// Whether the parameter's type is one of `int`, `char`, `short` or
    /// their unsigned forms.
    pub fn is_primitive_type(&self) -> (primitive: bool)
        ensures
            primitive == is_primitive_spelling(self.type_spelling@),
    {
        let spelling = self.type_spelling.as_str();
        let is_int = str_eq(spelling, "int") || str_eq(spelling, "unsigned int");
        let is_char = str_eq(spelling, "char") || str_eq(spelling, "unsigned char");
        let is_short = str_eq(spelling, "short") || str_eq(spelling, "unsigned short");
        is_int || is_char || is_short
    }

    /// Maps a C type spelling to its Java category by exact match.
    pub fn convert_to_java_type(type_spelling: &str) -> (category: PossibleJavaType)
        ensures
            category == classify(type_spelling@),
    {
        if str_eq(type_spelling, "int") || str_eq(type_spelling, "unsigned int") {
            PossibleJavaType::Int
        } else if str_eq(type_spelling, "char") || str_eq(type_spelling, "unsigned char") {
            PossibleJavaType::Byte
        } else if str_eq(type_spelling, "short") || str_eq(type_spelling, "unsigned short") {
            PossibleJavaType::Short
        } else {
            PossibleJavaType::ByteArray
        }
    }
}

} // verus!
