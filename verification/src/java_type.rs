//! The Java-side category assigned to every C parameter type.

use vstd::prelude::*;

verus! {

/// The Java type that carries a C parameter across the native-call boundary.
#[derive(Clone, Copy, Debug, PartialEq, Eq, Structural)]
pub enum PossibleJavaType {
    Byte,
    Short,
    Int,
    ByteArray,
}

/// The category of a C type spelling: an exact match against six spellings,
/// and the opaque byte buffer for everything else.
pub open spec fn classify(spelling: Seq<char>) -> PossibleJavaType {
    if spelling == "int"@ || spelling == "unsigned int"@ {
        PossibleJavaType::Int
    } else if spelling == "char"@ || spelling == "unsigned char"@ {
        PossibleJavaType::Byte
    } else if spelling == "short"@ || spelling == "unsigned short"@ {
        PossibleJavaType::Short
    } else {
        PossibleJavaType::ByteArray
    }
}

/// The table of categories, row by row: each of the six spellings has its
/// category, and every other text, the empty one and the pointer spellings
/// included, is a byte array.
pub proof fn lemma_classification_total(spelling: Seq<char>)
    ensures
        classify(spelling) == PossibleJavaType::Int <==> spelling == "int"@ || spelling
            == "unsigned int"@,
        classify(spelling) == PossibleJavaType::Byte <==> spelling == "char"@ || spelling
            == "unsigned char"@,
        classify(spelling) == PossibleJavaType::Short <==> spelling == "short"@ || spelling
            == "unsigned short"@,
        classify(spelling) == PossibleJavaType::ByteArray <==> !(spelling == "int"@ || spelling
            == "unsigned int"@ || spelling == "char"@ || spelling == "unsigned char"@ || spelling
            == "short"@ || spelling == "unsigned short"@),
        classify(Seq::empty()) == PossibleJavaType::ByteArray,
        spelling.len() > 0 && spelling.last() == '*' ==> classify(spelling)
            == PossibleJavaType::ByteArray,
{
    reveal_strlit("int");
    reveal_strlit("unsigned int");
    reveal_strlit("char");
    reveal_strlit("unsigned char");
    reveal_strlit("short");
    reveal_strlit("unsigned short");
    assert("unsigned int"@.last() == 't' && "unsigned short"@.last() == 't');
    assert("unsigned char"@.last() == 'r' && "char"@.last() == 'r');
    assert("int"@.last() == 't' && "short"@.last() == 't');
}

impl PossibleJavaType {
    /// The Java spelling of the category.
    pub open spec fn java_name(self) -> Seq<char> {
        match self {
            PossibleJavaType::Byte => "byte"@,
            PossibleJavaType::Short => "short"@,
            PossibleJavaType::Int => "int"@,
            PossibleJavaType::ByteArray => "byte[]"@,
        }
    }

    /// The Java spelling of the category, as it appears in generated sources.
    pub fn to_string(&self) -> (text: String)
        ensures
            text@ == self.java_name(),
    {
        match self {
            PossibleJavaType::Byte => "byte".to_string(),
            PossibleJavaType::Short => "short".to_string(),
            PossibleJavaType::Int => "int".to_string(),
            PossibleJavaType::ByteArray => "byte[]".to_string(),
        }
    }
}

} // verus!
