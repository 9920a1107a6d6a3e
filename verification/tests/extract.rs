use glue_gen::error::ExtractError;
use glue_gen::extract::extract_function_declarators;
use glue_gen::java_type::PossibleJavaType;

fn c_parser() -> tree_sitter::Parser {
    let mut parser = tree_sitter::Parser::new();
    parser.set_language(tree_sitter_c::language()).unwrap();
    parser
}

#[test]
fn one_declaration_gives_one_signature() {
    let mut parser = c_parser();
    let found = extract_function_declarators(&mut parser, "int add(int a, int b);").unwrap();
    assert_eq!(found.len(), 1);
    assert_eq!(found[0].return_type, "int");
    assert_eq!(found[0].name, "add");
    assert_eq!(found[0].parameters.len(), 2);
    assert_eq!(found[0].parameters[0].var_name, "a");
    assert_eq!(found[0].parameters[0].type_spelling, "int");
    assert_eq!(found[0].parameters[0].pointer_depth, 0);
    assert_eq!(found[0].parameters[0].type_size, 0);
    assert_eq!(found[0].parameters[0].java_type, PossibleJavaType::Int);
    assert_eq!(found[0].parameters[1].var_name, "b");
    assert_eq!(found[0].parameters[1].type_spelling, "int");
    assert_eq!(found[0].parameters[1].pointer_depth, 0);
}

#[test]
fn two_declarations_give_two_signatures_in_order() {
    let mut parser = c_parser();
    let found =
        extract_function_declarators(&mut parser, "int f(int a); char g(char b, char c);").unwrap();
    assert_eq!(found.len(), 2);
    assert_eq!(found[0].name, "f");
    assert_eq!(found[0].return_type, "int");
    assert_eq!(found[0].parameters.len(), 1);
    assert_eq!(found[1].name, "g");
    assert_eq!(found[1].return_type, "char");
    assert_eq!(found[1].parameters.len(), 2);
    assert_eq!(found[1].parameters[0].var_name, "b");
    assert_eq!(found[1].parameters[1].var_name, "c");
    assert_eq!(found[1].parameters[1].java_type, PossibleJavaType::Byte);
}

#[test]
fn single_pointer_is_kept() {
    let mut parser = c_parser();
    let found = extract_function_declarators(&mut parser, "void set(short *out, struct point p);")
        .unwrap();
    assert_eq!(found.len(), 1);
    assert_eq!(found[0].return_type, "void");
    assert_eq!(found[0].parameters[0].var_name, "out");
    assert_eq!(found[0].parameters[0].type_spelling, "short");
    assert_eq!(found[0].parameters[0].pointer_depth, 1);
    assert_eq!(found[0].parameters[0].java_type, PossibleJavaType::Short);
    assert_eq!(found[0].parameters[1].var_name, "p");
    assert_eq!(found[0].parameters[1].type_spelling, "struct point");
    assert_eq!(found[0].parameters[1].pointer_depth, 0);
    assert_eq!(found[0].parameters[1].java_type, PossibleJavaType::ByteArray);
}

#[test]
fn double_pointer_is_refused() {
    let mut parser = c_parser();
    let found = extract_function_declarators(&mut parser, "int f(int a); int g(char **names);");
    assert_eq!(found.unwrap_err(), ExtractError::MultiLevelIndirection);
}

#[test]
fn parameter_without_a_name_is_malformed() {
    let mut parser = c_parser();
    let found = extract_function_declarators(&mut parser, "int f(int);");
    assert_eq!(found.unwrap_err(), ExtractError::Malformed { offset: 6 });
}

#[test]
fn empty_source_gives_no_signature() {
    let mut parser = c_parser();
    assert!(extract_function_declarators(&mut parser, "").unwrap().is_empty());
    assert!(extract_function_declarators(&mut parser, "int x = 3;\nstruct s { int a; };\n")
        .unwrap()
        .is_empty());
}

#[test]
fn function_without_parameters() {
    let mut parser = c_parser();
    let found = extract_function_declarators(&mut parser, "unsigned int tick();").unwrap();
    assert_eq!(found.len(), 1);
    assert_eq!(found[0].name, "tick");
    assert_eq!(found[0].return_type, "unsigned int");
    assert!(found[0].parameters.is_empty());
}

#[test]
fn parser_without_language_fails() {
    let mut parser = tree_sitter::Parser::new();
    let found = extract_function_declarators(&mut parser, "int f(int a);");
    assert_eq!(found.unwrap_err(), ExtractError::ParseFailed);
}

#[test]
fn text_outside_ascii_is_read_by_bytes() {
    let mut parser = c_parser();
    let source = "/* caf\u{e9} */ int f(char c);";
    let found = extract_function_declarators(&mut parser, source).unwrap();
    assert_eq!(found.len(), 1);
    assert_eq!(found[0].name, "f");
    assert_eq!(found[0].parameters[0].var_name, "c");
}

#[test]
fn extraction_is_repeatable() {
    let source = "int f(int a);\nshort g(unsigned char *b, struct s c);\nvoid h();\n";
    let mut parser = c_parser();
    let first = extract_function_declarators(&mut parser, source).unwrap();
    let second = extract_function_declarators(&mut c_parser(), source).unwrap();
    assert_eq!(format!("{:?}", first), format!("{:?}", second));
    assert_eq!(first.len(), 3);
}

#[test]
fn declarations_among_other_code() {
    let source = "#include <stdio.h>\nstatic int n = 0;\nlong count(char kind[], int *total);\n\
int main(void) { return count(0, 0); }\n";
    let found = extract_function_declarators(&mut c_parser(), source).unwrap();
    assert_eq!(found.len(), 1);
    assert_eq!(found[0].name, "count");
    assert_eq!(found[0].return_type, "long");
    assert_eq!(found[0].parameters[0].var_name, "kind");
    assert_eq!(found[0].parameters[0].pointer_depth, 1);
    assert_eq!(found[0].parameters[1].var_name, "total");
    assert_eq!(found[0].parameters[1].pointer_depth, 1);
    assert_eq!(found[0].parameters[1].java_type, PossibleJavaType::Int);
}

#[test]
fn triple_pointer_is_refused() {
    let found = extract_function_declarators(&mut c_parser(), "void f(int ***deep);");
    assert_eq!(found.unwrap_err(), ExtractError::MultiLevelIndirection);
}
