use glue_gen::cparam::CParameter;
use glue_gen::error::ExtractError;
use glue_gen::extract::{signatures_from_captures, CaptureIndices};
use tree_sitter::{Node, Parser, Tree};

const SOURCE: &str = "int add(int a, char *b);";

const INDICES: CaptureIndices = CaptureIndices { return_type: 0, declarator: 1, parameters: 2 };

fn parse(source: &str) -> Tree {
    let mut parser = Parser::new();
    parser.set_language(tree_sitter_c::language()).unwrap();
    parser.parse(source, None).unwrap()
}

/// The return type, the name and the parameter list of the first
/// declaration of a tree.
fn parts(tree: &Tree) -> (Node<'_>, Node<'_>, Node<'_>) {
    let declaration = tree.root_node().child(0).unwrap();
    let function = declaration.child_by_field_name("declarator").unwrap();
    (
        declaration.child_by_field_name("type").unwrap(),
        function.child_by_field_name("declarator").unwrap(),
        function.child_by_field_name("parameters").unwrap(),
    )
}

#[test]
fn three_captures_make_a_record() {
    let tree = parse(SOURCE);
    let (return_type, name, list) = parts(&tree);
    let captures = vec![(0, return_type), (1, name), (2, list)];
    let found = signatures_from_captures(SOURCE, &captures, &INDICES).unwrap();
    assert_eq!(found.len(), 1);
    assert_eq!(found[0].return_type, "int");
    assert_eq!(found[0].name, "add");
    assert_eq!(found[0].parameters.len(), 2);
    assert_eq!(found[0].parameters[1].var_name, "b");
    assert_eq!(found[0].parameters[1].pointer_depth, 1);
}

#[test]
fn each_return_type_starts_a_record() {
    let tree = parse(SOURCE);
    let (return_type, name, list) = parts(&tree);
    let captures =
        vec![(0, return_type), (1, name), (2, list), (0, return_type), (2, list), (1, name)];
    let found = signatures_from_captures(SOURCE, &captures, &INDICES).unwrap();
    assert_eq!(found.len(), 2);
    assert_eq!(found[0].name, "add");
    assert_eq!(found[1].name, "add");
    assert_eq!(found[1].parameters.len(), 2);
}

#[test]
fn other_captures_are_passed_over() {
    let tree = parse(SOURCE);
    let (return_type, name, list) = parts(&tree);
    let captures = vec![(7, name), (0, return_type), (3, list), (1, name), (9, name), (2, list)];
    let found = signatures_from_captures(SOURCE, &captures, &INDICES).unwrap();
    assert_eq!(found.len(), 1);
    assert_eq!(found[0].parameters.len(), 2);
}

#[test]
fn later_declarator_names_the_record_and_lists_add_up() {
    let tree = parse(SOURCE);
    let (return_type, name, list) = parts(&tree);
    let (first, _, _) = parts(&tree);
    let captures = vec![(0, return_type), (1, first), (1, name), (2, list), (2, list)];
    let found = signatures_from_captures(SOURCE, &captures, &INDICES).unwrap();
    assert_eq!(found.len(), 1);
    assert_eq!(found[0].name, "add");
    let names: Vec<&str> = found[0].parameters.iter().map(|p| p.var_name.as_str()).collect();
    assert_eq!(names, vec!["a", "b", "a", "b"]);
}

#[test]
fn no_capture_gives_no_record() {
    let found = signatures_from_captures(SOURCE, &Vec::new(), &INDICES).unwrap();
    assert!(found.is_empty());
}

#[test]
fn capture_without_a_record_is_malformed() {
    let tree = parse(SOURCE);
    let (_, name, list) = parts(&tree);
    let found = signatures_from_captures(SOURCE, &vec![(1, name)], &INDICES);
    assert_eq!(found.unwrap_err(), ExtractError::Malformed { offset: 4 });
    let found = signatures_from_captures(SOURCE, &vec![(2, list)], &INDICES);
    assert_eq!(found.unwrap_err(), ExtractError::Malformed { offset: 7 });
}

#[test]
fn record_without_name_or_list_is_malformed() {
    let tree = parse(SOURCE);
    let (return_type, name, list) = parts(&tree);
    let found = signatures_from_captures(SOURCE, &vec![(0, return_type)], &INDICES);
    assert_eq!(found.unwrap_err(), ExtractError::Malformed { offset: 0 });
    let found = signatures_from_captures(SOURCE, &vec![(0, return_type), (1, name)], &INDICES);
    assert_eq!(found.unwrap_err(), ExtractError::Malformed { offset: 0 });
    let found = signatures_from_captures(SOURCE, &vec![(0, return_type), (2, list)], &INDICES);
    assert_eq!(found.unwrap_err(), ExtractError::Malformed { offset: 0 });
    let captures = vec![(0, return_type), (1, name), (0, return_type), (1, name), (2, list)];
    let found = signatures_from_captures(SOURCE, &captures, &INDICES);
    assert_eq!(found.unwrap_err(), ExtractError::Malformed { offset: 0 });
}

#[test]
fn span_outside_the_source_is_malformed() {
    let tree = parse(SOURCE);
    let (return_type, name, list) = parts(&tree);
    let captures = vec![(0, return_type), (1, name), (2, list)];
    let found = signatures_from_captures("int ad", &captures, &INDICES);
    assert_eq!(found.unwrap_err(), ExtractError::Malformed { offset: 4 });
    let found = signatures_from_captures("in\u{e9}", &captures, &INDICES);
    assert_eq!(found.unwrap_err(), ExtractError::Malformed { offset: 0 });
}

#[test]
fn depth_and_name_of_a_declarator() {
    let source = "void f(int plain, int *one, int **two, int **three[]);";
    let tree = parse(source);
    let (_, _, list) = parts(&tree);
    let mut cursor = list.walk();
    let found: Vec<(u32, String)> = list
        .children(&mut cursor)
        .filter(|child| child.kind() == "parameter_declaration")
        .map(|child| child.child_by_field_name("declarator").unwrap())
        .map(|node| CParameter::get_pointer_depth_and_var_name(source, node).unwrap())
        .collect();
    let expected = vec![
        (0, "plain".to_string()),
        (1, "one".to_string()),
        (2, "two".to_string()),
        (3, "three".to_string()),
    ];
    assert_eq!(found, expected);
}

#[test]
fn name_outside_the_source_is_malformed() {
    let source = "void f(int *value);";
    let tree = parse(source);
    let (_, _, list) = parts(&tree);
    let declarator = list.child(1).unwrap().child_by_field_name("declarator").unwrap();
    let found = CParameter::get_pointer_depth_and_var_name("void f(int *v", declarator);
    assert_eq!(found.unwrap_err(), ExtractError::Malformed { offset: 12 });
}
