use glue_gen::cparam::CParameter;
use glue_gen::error::{ExtractError, GlueError};
use glue_gen::java_type::PossibleJavaType;
use glue_gen::mode::RunningMode;

#[test]
fn java_names_of_the_categories() {
    assert_eq!(PossibleJavaType::Byte.to_string(), "byte");
    assert_eq!(PossibleJavaType::Short.to_string(), "short");
    assert_eq!(PossibleJavaType::Int.to_string(), "int");
    assert_eq!(PossibleJavaType::ByteArray.to_string(), "byte[]");
}

#[test]
fn classification_table() {
    assert_eq!(CParameter::convert_to_java_type("int"), PossibleJavaType::Int);
    assert_eq!(CParameter::convert_to_java_type("unsigned int"), PossibleJavaType::Int);
    assert_eq!(CParameter::convert_to_java_type("char"), PossibleJavaType::Byte);
    assert_eq!(CParameter::convert_to_java_type("unsigned char"), PossibleJavaType::Byte);
    assert_eq!(CParameter::convert_to_java_type("short"), PossibleJavaType::Short);
    assert_eq!(CParameter::convert_to_java_type("unsigned short"), PossibleJavaType::Short);
}

#[test]
fn everything_else_is_a_byte_array() {
    let others = [
        "", "int*", "char *", "Int", "INT", " int", "int ", "long", "struct s", "unsigned",
        "signed char", "shor",
    ];
    for spelling in others {
        assert_eq!(CParameter::convert_to_java_type(spelling), PossibleJavaType::ByteArray);
    }
}

#[test]
fn new_parameter_derives_its_category() {
    let p = CParameter::new("count", "unsigned short", 1, 2);
    assert_eq!(p.var_name, "count");
    assert_eq!(p.type_spelling, "unsigned short");
    assert_eq!(p.pointer_depth, 1);
    assert_eq!(p.type_size, 2);
    assert_eq!(p.java_type, PossibleJavaType::Short);
    let q = p.clone();
    assert_eq!(q.var_name, "count");
    assert_eq!(q.java_type, PossibleJavaType::Short);
}

#[test]
fn primitive_types() {
    for spelling in ["int", "unsigned int", "char", "unsigned char", "short", "unsigned short"] {
        assert!(CParameter::new("x", spelling, 0, 0).is_primitive_type());
    }
    for spelling in ["", "long", "int*", "struct s", "Char"] {
        assert!(!CParameter::new("x", spelling, 0, 0).is_primitive_type());
    }
}

#[test]
fn running_modes_by_name() {
    assert_eq!(RunningMode::from_name(Some("parse_c")), Ok(RunningMode::ParseC));
    assert_eq!(RunningMode::from_name(Some("generate_java")), Ok(RunningMode::GenerateJava));
    assert_eq!(RunningMode::from_name(Some("generate_c")), Ok(RunningMode::GenerateC));
    assert_eq!(
        RunningMode::from_name(Some("parse")),
        Err(GlueError::InvalidRunningMode("Invalid running mode".to_string()))
    );
    assert_eq!(RunningMode::from_name(None), Err(GlueError::MissingRunningMode));
}

#[test]
fn error_messages() {
    assert_eq!(
        GlueError::InvalidCommandlineArguments.to_string(),
        "Invalid commandline arguments"
    );
    assert_eq!(
        GlueError::InvalidRunningMode("x".to_string()).to_string(),
        "Invalid running mode: x"
    );
    assert_eq!(GlueError::MissingRunningMode.to_string(), "Missing running mode");
    assert_eq!(GlueError::MissingFilePath.to_string(), "Missing file path");
    assert_eq!(
        GlueError::UnableToReadFile("a.c".to_string()).to_string(),
        "Unable to read file: a.c"
    );
    assert_eq!(
        GlueError::InvalidYamlFormat("a.yml".to_string()).to_string(),
        "Invalid yaml format: a.yml"
    );
    assert_eq!(GlueError::InvalidCFormat("a.c".to_string()).to_string(), "Invalid C format: a.c");
    assert_eq!(
        GlueError::UnableToWriteFile("f.java".to_string()).to_string(),
        "Unable to write file: f.java"
    );
    assert_eq!(
        GlueError::Other("Error loading C grammar".to_string()).to_string(),
        "Error loading C grammar"
    );
}

#[test]
fn extraction_errors_in_words() {
    assert_eq!(
        ExtractError::MultiLevelIndirection.to_string(),
        "declaration unsupported: multi-level indirection"
    );
    assert_eq!(
        ExtractError::Malformed { offset: 1280 }.to_string(),
        "malformed declaration at byte 1280"
    );
    assert_eq!(
        ExtractError::Malformed { offset: 0 }.to_string(),
        "malformed declaration at byte 0"
    );
    assert_eq!(ExtractError::ParseFailed.to_string(), "source not parsed");
    assert_eq!(ExtractError::QueryUnavailable.to_string(), "declaration query unavailable");
    assert_eq!(
        ExtractError::MultiLevelIndirection.in_file("lib.h"),
        GlueError::InvalidCFormat("lib.h".to_string())
    );
}
