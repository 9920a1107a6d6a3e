use glue_gen::cfunc::CFunction;
use glue_gen::codec::{c_functions_from_yml_text, c_functions_to_yml, yml_to_c_function};
use glue_gen::cparam::CParameter;
use glue_gen::error::GlueError;
use glue_gen::extract::extract_function_declarators;
use glue_gen::java_type::PossibleJavaType;
use yaml_rust::{Yaml, YamlEmitter, YamlLoader};

fn function(return_type: &str, name: &str, parameters: Vec<CParameter>) -> CFunction {
    let mut f = CFunction::new();
    f.return_type = return_type.to_string();
    f.name = name.to_string();
    f.parameters = parameters;
    f
}

fn same(a: &Vec<CFunction>, b: &Vec<CFunction>) -> bool {
    a.len() == b.len()
        && a.iter().zip(b.iter()).all(|(x, y)| {
            x.name == y.name
                && x.return_type == y.return_type
                && x.parameters.len() == y.parameters.len()
                && x.parameters.iter().zip(y.parameters.iter()).all(|(p, q)| {
                    p.var_name == q.var_name
                        && p.type_spelling == q.type_spelling
                        && p.pointer_depth == q.pointer_depth
                        && p.type_size == q.type_size
                        && p.java_type == q.java_type
                })
        })
}

const DOCUMENT: &str = "functions:
  - func_name: add
    return_type: int
    parameters:
      - var_name: a
        type_name: int
        pointer_depth: 0
        type_size: 4
      - var_name: name
        type_name: struct label
        pointer_depth: 1
        type_size: 8
  - func_name: tick
    return_type: void
    parameters: []
";

#[test]
fn reads_a_document() {
    let found = c_functions_from_yml_text(DOCUMENT, "glue.yml").unwrap();
    assert_eq!(found.len(), 2);
    assert_eq!(found[0].name, "add");
    assert_eq!(found[0].return_type, "int");
    assert_eq!(found[0].parameters.len(), 2);
    assert_eq!(found[0].parameters[0].var_name, "a");
    assert_eq!(found[0].parameters[0].type_spelling, "int");
    assert_eq!(found[0].parameters[0].pointer_depth, 0);
    assert_eq!(found[0].parameters[0].type_size, 4);
    assert_eq!(found[0].parameters[0].java_type, PossibleJavaType::Int);
    assert_eq!(found[0].parameters[1].var_name, "name");
    assert_eq!(found[0].parameters[1].type_spelling, "struct label");
    assert_eq!(found[0].parameters[1].pointer_depth, 1);
    assert_eq!(found[0].parameters[1].type_size, 8);
    assert_eq!(found[0].parameters[1].java_type, PossibleJavaType::ByteArray);
    assert_eq!(found[1].name, "tick");
    assert_eq!(found[1].return_type, "void");
    assert!(found[1].parameters.is_empty());
}

#[test]
fn document_round_trip() {
    let list = vec![
        function(
            "int",
            "add",
            vec![CParameter::new("a", "int", 0, 4), CParameter::new("b", "unsigned char", 1, 1)],
        ),
        function("void", "tick", vec![]),
        function("char", "big", vec![CParameter::new("x", "struct s", 4294967295, 4294967295)]),
    ];
    let document = c_functions_to_yml(&list);
    let back = yml_to_c_function(&document).unwrap();
    assert!(same(&list, &back));
}

#[test]
fn round_trip_of_the_empty_list() {
    let document = c_functions_to_yml(&Vec::new());
    assert!(yml_to_c_function(&document).unwrap().is_empty());
}

#[test]
fn round_trip_through_text() {
    let list = vec![function(
        "short",
        "scale",
        vec![CParameter::new("v", "struct vec", 1, 16), CParameter::new("k", "short", 0, 2)],
    )];
    let document = c_functions_to_yml(&list);
    let mut text = String::new();
    YamlEmitter::new(&mut text).dump(&document).unwrap();
    let back = c_functions_from_yml_text(&text, "out.yml").unwrap();
    assert!(same(&list, &back));
}

#[test]
fn round_trip_of_an_extracted_list() {
    let mut parser = tree_sitter::Parser::new();
    parser.set_language(tree_sitter_c::language()).unwrap();
    let list =
        extract_function_declarators(&mut parser, "int f(int a); char g(char *b, short c);")
            .unwrap();
    let back = yml_to_c_function(&c_functions_to_yml(&list)).unwrap();
    assert!(same(&list, &back));
}

#[test]
fn written_document_has_the_schema() {
    let list = vec![function("int", "id", vec![CParameter::new("x", "int", 0, 4)])];
    let document = c_functions_to_yml(&list);
    let entry = &document["functions"][0];
    assert_eq!(entry["func_name"].as_str(), Some("id"));
    assert_eq!(entry["return_type"].as_str(), Some("int"));
    let parameter = &entry["parameters"][0];
    assert_eq!(parameter["var_name"].as_str(), Some("x"));
    assert_eq!(parameter["type_name"].as_str(), Some("int"));
    assert_eq!(parameter["pointer_depth"].as_i64(), Some(0));
    assert_eq!(parameter["type_size"].as_i64(), Some(4));
    assert_eq!(entry.as_hash().unwrap().len(), 3);
    assert_eq!(parameter.as_hash().unwrap().len(), 4);
}

fn read(text: &str) -> Option<Vec<CFunction>> {
    yml_to_c_function(&YamlLoader::load_from_str(text).unwrap()[0])
}

#[test]
fn document_without_functions_is_refused() {
    assert!(read("other: 1\n").is_none());
    assert!(read("functions: 3\n").is_none());
    assert!(read("- a\n- b\n").is_none());
    assert!(yml_to_c_function(&Yaml::Null).is_none());
}

#[test]
fn entry_without_a_key_is_refused() {
    assert!(read("functions:\n  - return_type: int\n    parameters: []\n").is_none());
    assert!(read("functions:\n  - func_name: f\n    parameters: []\n").is_none());
    assert!(read("functions:\n  - func_name: f\n    return_type: int\n").is_none());
    assert!(read(
        "functions:\n  - func_name: f\n    return_type: int\n    parameters:\n      - var_name: a\n        pointer_depth: 0\n        type_size: 4\n"
    )
    .is_none());
    assert!(read(
        "functions:\n  - func_name: f\n    return_type: int\n    parameters:\n      - type_name: int\n        pointer_depth: 0\n        type_size: 4\n"
    )
    .is_none());
}

#[test]
fn count_that_is_no_integer_is_refused() {
    let head = "functions:\n  - func_name: f\n    return_type: int\n    parameters:\n      - var_name: a\n        type_name: int\n";
    assert!(read(&format!("{}        pointer_depth: 0\n        type_size: 4\n", head)).is_some());
    assert!(read(&format!("{}        pointer_depth: one\n        type_size: 4\n", head)).is_none());
    assert!(read(&format!("{}        pointer_depth: 0\n        type_size: 4.5\n", head)).is_none());
    assert!(read(&format!("{}        pointer_depth: -1\n        type_size: 4\n", head)).is_none());
    assert!(
        read(&format!("{}        pointer_depth: 0\n        type_size: 4294967296\n", head)).is_none()
    );
    assert!(
        read(&format!("{}        pointer_depth: 0\n        type_size: 4294967295\n", head)).is_some()
    );
    assert!(read(&format!("{}        pointer_depth: 0\n", head)).is_none());
}

#[test]
fn category_is_derived_when_reading() {
    let found = read(
        "functions:\n  - func_name: f\n    return_type: int\n    parameters:\n      - var_name: a\n        type_name: unsigned short\n        pointer_depth: 0\n        type_size: 2\n        java_type: Int\n",
    )
    .unwrap();
    assert_eq!(found[0].parameters[0].java_type, PossibleJavaType::Short);
}

#[test]
fn text_that_is_no_document_names_the_file() {
    assert_eq!(
        c_functions_from_yml_text("functions: [", "broken.yml").unwrap_err(),
        GlueError::InvalidYamlFormat("broken.yml".to_string())
    );
    assert_eq!(
        c_functions_from_yml_text("", "empty.yml").unwrap_err(),
        GlueError::InvalidYamlFormat("empty.yml".to_string())
    );
    assert_eq!(
        c_functions_from_yml_text("name: x\n", "other.yml").unwrap_err(),
        GlueError::InvalidYamlFormat("other.yml".to_string())
    );
}
