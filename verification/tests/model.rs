use std::collections::HashSet;
use std::iter::FromIterator;

use umlgen::entity::Entity;
use umlgen::entity::EntityType;
use umlgen::entity::has_dependency;
use umlgen::entity::make_dependencies;
use umlgen::parser::LangParser;
use umlgen::plantuml::PlantUml;
use umlgen::plantuml::plantuml_encode;
use umlgen::rust_parser::RustParser;
use umlgen::uml::UmlInterface;
use umlgen::uml::UmlMethod;
use umlgen::uml::UmlParameter;
use umlgen::uml::UmlVisibility;

#[test]
fn test_make_dependencies() {
    let type_text = "String";
    let expected: HashSet<String> = HashSet::from_iter(vec!["String".to_string()]);
    assert_eq!(HashSet::from_iter(make_dependencies(type_text)), expected);

    let type_text = "HashSet<String>";
    let expected: HashSet<String> =
        HashSet::from_iter(vec!["HashSet".to_string(), "String".to_string()]);
    assert_eq!(HashSet::from_iter(make_dependencies(type_text)), expected);

    let type_text = "HashMap<Id, String>";
    let expected: HashSet<String> = HashSet::from_iter(vec![
        "HashMap".to_string(),
        "Id".to_string(),
        "String".to_string(),
    ]);
    assert_eq!(HashSet::from_iter(make_dependencies(type_text)), expected);
}

#[test]
fn make_dependencies_trims_and_drops_empty_fragments() {
    assert_eq!(make_dependencies("String"), vec!["String".to_string()]);
    assert_eq!(
        make_dependencies("HashMap<Id, String>"),
        vec!["HashMap".to_string(), "Id".to_string(), "String".to_string()]
    );
    assert!(make_dependencies("").is_empty());
    assert!(make_dependencies("<>,").is_empty());
    assert_eq!(
        make_dependencies("  Vec < Box<T> > "),
        vec![
            "Vec".to_string(),
            "Box".to_string(),
            "T".to_string(),
            "".to_string(),
            "".to_string(),
        ]
    );
}

#[test]
fn has_dependency_checks_candidates_against_names() {
    let source = vec!["Id".to_string(), "Device".to_string()];
    assert!(has_dependency("HashMap<Id, String>", &source));
    assert!(has_dependency("Device", &source));
    assert!(!has_dependency("HashMap<Key, String>", &source));
    assert!(!has_dependency("", &source));
}

#[test]
fn entity_new_builds_the_node() {
    let child = Entity::new(EntityType::Field("display".to_string()), "Display", vec![]);
    assert_eq!(child.name, "Display");
    assert!(matches!(&child.entity_type, EntityType::Field(n) if n == "display"));
    let parent = Entity::new(EntityType::Struct, "Device", vec![child]);
    assert_eq!(parent.name, "Device");
    assert_eq!(parent.fields.len(), 1);
}

#[test]
fn entity_render_lists_field_children() {
    let e = Entity::new(
        EntityType::Struct,
        "Device",
        vec![
            Entity::new(EntityType::Field("display".to_string()), "Display", vec![]),
            Entity::new(EntityType::Field("port".to_string()), "i32", vec![]),
        ],
    );
    assert_eq!(
        e.render(),
        "class \"Device\" {\n    + display: Display\n    + port: i32\n"
    );
    let en = Entity::new(EntityType::Enum, "Day", vec![]);
    assert_eq!(en.render(), "enum \"Day\" {\n");
}

#[test]
fn entity_render_dependencies_emits_known_edges() {
    let e = Entity::new(
        EntityType::Struct,
        "Device",
        vec![
            Entity::new(EntityType::Field("display".to_string()), "Display", vec![]),
            Entity::new(EntityType::Field("port".to_string()), "i32", vec![]),
        ],
    );
    let source = vec!["Display".to_string(), "Device".to_string()];
    assert_eq!(e.render_dependencies(&source), "\"Device\" <-- \"Display\"\n");
    let none: Vec<String> = vec![];
    assert_eq!(e.render_dependencies(&none), "");
}

#[test]
fn plantuml_encode_is_empty() {
    assert_eq!(plantuml_encode("@startuml\n@enduml\n".to_string()), String::new());
}

#[test]
fn parameter_markup_is_name_colon_type() {
    let p = UmlParameter { data_type: "i32".to_string(), name: "arg1".to_string() };
    assert_eq!(p.to_plantuml(), "arg1 : i32");
}

#[test]
fn diagram_markup_of_one_class() {
    let mut p = RustParser::new();
    let source_code = "struct X { pub a: i32, b: i32 } impl X { pub fn func1() -> i32 {} }";
    p.parse(&source_code.as_bytes().to_vec()).unwrap();
    let expected = "@startuml\n\nclass X {\n+a : i32\n-b : i32\n+func1(): i32\n}\n\n\n\n@enduml\n";
    assert_eq!(p.to_plantuml(), expected);
}

#[test]
fn method_markup_joins_parameters_with_commas() {
    let m = UmlMethod {
        name: "ip_to_number".to_string(),
        visibility: UmlVisibility::Public,
        parameters: vec![
            UmlParameter { data_type: "char".to_string(), name: "a".to_string() },
            UmlParameter { data_type: "char".to_string(), name: "b".to_string() },
        ],
        return_type: None,
    };
    assert_eq!(m.to_plantuml(), "+ip_to_number(a : char, b : char)");
    let i = UmlInterface {
        name: "Addressable".to_string(),
        modifier: None,
        visibility: UmlVisibility::Public,
        methods: vec![m],
    };
    assert_eq!(
        i.to_plantuml(),
        "class Addressable {\n+ip_to_number(a : char, b : char)\n}"
    );
}

#[test]
fn visibility_markup_signs() {
    assert_eq!(UmlVisibility::Public.to_plantuml(), "+");
    assert_eq!(UmlVisibility::Private.to_plantuml(), "-");
}

#[test]
fn classes_view_through_lang_parser_trait() {
    let mut p = RustParser::new();
    p.parse(&"struct X { a: i32 } impl X { fn func1() {} }".as_bytes().to_vec()).unwrap();
    let dyn_classes = LangParser::classes(&p);
    assert_eq!(dyn_classes.len(), 1);
    assert_eq!(dyn_classes[0].name, "X");
    assert!(LangParser::enums(&p).is_empty());
}
