use umlgen::cpp_parser::CppParser;
use umlgen::parser::ExtractError;
use umlgen::rust_parser::RustParser;
use umlgen::uml::UmlVisibility;

#[test]
fn test_rust_parse_methods() {
    let mut p = RustParser::new();
    let source_code = "
impl X {
pub fn func1() -> i32 {}
fn func2() -> i32 {}
}
";
    let buf = source_code.as_bytes().to_vec();
    let st = p.parse_source(&buf).unwrap();

    let methods = p.parse_methods(&st, 0, buf.len()).unwrap();
    let m0 = methods.get(0).unwrap();
    assert!(m0.name == "func1");
    assert!(m0.return_type.as_ref().unwrap() == "i32");
    assert!(matches!(m0.visibility, UmlVisibility::Public));

    let m1 = methods.get(1).unwrap();
    assert!(matches!(m1.visibility, UmlVisibility::Private));
}

#[test]
fn test_rust_parse_method_args() {
    let mut p = RustParser::new();
    let source_code = "
impl X {
pub fn func1(arg1: i32, arg2: i32) -> i32 {}
}
";
    let buf = source_code.as_bytes().to_vec();
    let st = p.parse_source(&buf).unwrap();

    let args = p.parse_method_args(&st, 0, buf.len()).unwrap();
    assert!(args.get(0).unwrap().name == "arg1");
    assert!(args.get(0).unwrap().data_type == "i32");
    assert!(args.get(1).unwrap().name == "arg2");
    assert!(args.get(1).unwrap().data_type == "i32");

    assert!(args.get(2).is_none());
}

#[test]
fn test_rust_parse_classes_2_impl() {
    let mut p = RustParser::new();
    let source_code = "
struct X {
}
impl X {
pub fn func1() -> i32 {}
}
impl A for X {
pub fn func2() -> i32 {}
}
";
    let buf = source_code.as_bytes().to_vec();
    let st = p.parse_source(&buf).unwrap();

    let classes = p.parse_classes(&st, 0, buf.len()).unwrap();
    assert!(classes.get(0).unwrap().name == "X");
    assert!(classes.get(1).is_none());
}

#[test]
fn test_rust_parse_classes() {
    let mut p = RustParser::new();
    let source_code = "
struct X {
pub a: i32,
b: i32,
}
impl X {
pub fn func1() -> i32 {}
}

struct Y {
a: i32,
b: i32,
}
impl Y {
pub fn func1() -> i32 {}
}
";
    let buf = source_code.as_bytes().to_vec();
    let st = p.parse_source(&buf).unwrap();

    let classes = p.parse_classes(&st, 0, buf.len()).unwrap();

    assert!(classes.get(0).unwrap().name == "X");
    assert!(classes.get(0).unwrap().fields.get(0).unwrap().name == "a");
    assert!(classes.get(0).unwrap().fields.get(0).unwrap().data_type == "i32");
    assert!(matches!(
        classes.get(0).unwrap().fields.get(0).unwrap().visibility,
        UmlVisibility::Public
    ));
    assert!(classes.get(0).unwrap().fields.get(1).unwrap().name == "b");
    assert!(classes.get(0).unwrap().fields.get(1).unwrap().data_type == "i32");
    assert!(classes.get(0).unwrap().methods.get(0).unwrap().name == "func1");
    assert!(matches!(
        classes.get(0).unwrap().methods.get(0).unwrap().visibility,
        UmlVisibility::Public
    ));

    assert!(classes.get(1).unwrap().name == "Y");
    assert!(classes.get(1).unwrap().fields.get(0).unwrap().name == "a");
    assert!(classes.get(1).unwrap().fields.get(0).unwrap().data_type == "i32");
    assert!(matches!(
        classes.get(1).unwrap().fields.get(0).unwrap().visibility,
        UmlVisibility::Private
    ));
    assert!(classes.get(1).unwrap().fields.get(1).unwrap().name == "b");
    assert!(classes.get(1).unwrap().fields.get(1).unwrap().data_type == "i32");
    assert!(classes.get(1).unwrap().methods.get(0).unwrap().name == "func1");

    assert!(classes.get(2).is_none());
}

#[test]
fn test_cpp_parse_methods() {
    let mut p = CppParser::new();
    let source_code = "
class Device
{

    public:
        Device();
        static Display display;
        char host_ip[15];
        string ip_to_number(char a, char b, char c);
}
";
    let buf = source_code.as_bytes().to_vec();
    let st = p.parse_source(&buf).unwrap();

    let methods = p.parse_methods(&st, 0, buf.len()).unwrap();
    assert!(methods.get(0).unwrap().name == "Device");
    assert!(methods.get(1).unwrap().name == "ip_to_number");
}

#[test]
fn test_cpp_parse_method_args() {
    let mut p = CppParser::new();
    let source_code = "
class Device
{

    public:
        Device();
        static Display display;
        char host_ip[15];
        string ip_to_number(char a, char b, char c);
}
";
    let buf = source_code.as_bytes().to_vec();
    let st = p.parse_source(&buf).unwrap();

    let args = p.parse_method_args(&st, 0, buf.len()).unwrap();
    assert!(args.get(0).unwrap().name == "a");
    assert!(args.get(0).unwrap().data_type == "char");
    assert!(args.get(1).unwrap().name == "b");
    assert!(args.get(1).unwrap().data_type == "char");
}

#[test]
fn test_cpp_parse_classes() {
    let mut p = CppParser::new();
    let source_code = "
class Device: X
{

    public:
        Device();
        static Display display;
        char host_ip[15];
        string ip_to_number(char a, char b, char c);
}
";
    let buf = source_code.as_bytes().to_vec();
    let st = p.parse_source(&buf).unwrap();

    let classes = p.parse_classes(&st, 0, buf.len()).unwrap();

    assert!(classes.get(0).unwrap().name == "Device");
    assert!(classes.get(0).unwrap().extends.get(0).unwrap() == "X");

    assert!(classes.get(0).unwrap().associations.get(0).unwrap().to == "Display");
    assert!(classes.get(0).unwrap().associations.get(0).unwrap().to_title == "display");

    assert!(classes.get(0).unwrap().methods.get(0).unwrap().name == "Device");
    assert!(classes.get(0).unwrap().methods.get(1).unwrap().name == "ip_to_number");
}

#[test]
fn struct_and_impl_yield_one_class() {
    let mut p = RustParser::new();
    let source_code = "struct X { pub a: i32, b: i32 } impl X { pub fn func1() -> i32 {} }";
    let buf = source_code.as_bytes().to_vec();
    p.parse(&buf).unwrap();

    let classes = p.classes();
    assert_eq!(classes.len(), 1);
    let c = &classes[0];
    assert_eq!(c.name, "X");
    assert_eq!(c.fields.len(), 2);
    assert_eq!(c.fields[0].name, "a");
    assert_eq!(c.fields[0].data_type, "i32");
    assert!(matches!(c.fields[0].visibility, UmlVisibility::Public));
    assert_eq!(c.fields[1].name, "b");
    assert_eq!(c.fields[1].data_type, "i32");
    assert!(matches!(c.fields[1].visibility, UmlVisibility::Private));
    assert_eq!(c.methods.len(), 1);
    assert_eq!(c.methods[0].name, "func1");
    assert!(matches!(c.methods[0].visibility, UmlVisibility::Public));
    assert!(c.methods[0].parameters.is_empty());
    assert_eq!(c.methods[0].return_type.as_deref(), Some("i32"));
}

#[test]
fn data_shape_without_behavior_block_yields_class() {
    let mut p = RustParser::new();
    let source_code = "
struct Lone {
pub a: i32,
}
";
    let buf = source_code.as_bytes().to_vec();
    p.parse(&buf).unwrap();
    let classes = p.classes();
    assert_eq!(classes.len(), 1);
    assert_eq!(classes[0].name, "Lone");
    assert!(classes[0].methods.is_empty());
    assert_eq!(classes[0].fields.len(), 1);
    assert_eq!(classes[0].fields[0].name, "a");
    assert_eq!(classes[0].fields[0].data_type, "i32");
}

#[test]
fn behavior_block_without_data_shape_yields_nothing() {
    let mut p = RustParser::new();
    let source_code = "
impl Orphan {
pub fn func1() -> i32 {}
}
";
    let buf = source_code.as_bytes().to_vec();
    p.parse(&buf).unwrap();
    assert!(p.classes().is_empty());
}

#[test]
fn two_behavior_blocks_concatenate_methods() {
    let mut p = RustParser::new();
    let source_code = "
struct X {
a: i32,
}
impl X {
pub fn func1() -> i32 {}
}
impl A for X {
fn func2() -> i32 {}
}
";
    let buf = source_code.as_bytes().to_vec();
    p.parse(&buf).unwrap();
    let classes = p.classes();
    assert_eq!(classes.len(), 1);
    assert_eq!(classes[0].methods.len(), 2);
    assert_eq!(classes[0].methods[0].name, "func1");
    assert_eq!(classes[0].methods[1].name, "func2");
}

#[test]
fn empty_buffer_yields_no_entities() {
    let mut p = RustParser::new();
    let buf: Vec<u8> = Vec::new();
    p.parse(&buf).unwrap();
    assert!(p.classes().is_empty());
    assert!(p.enums().is_empty());

    let mut q = CppParser::new();
    q.parse(&buf).unwrap();
    assert!(q.classes().is_empty());
    assert!(q.enums().is_empty());
}

#[test]
fn parsing_twice_with_fresh_extractors_agrees() {
    let source_code = "
struct X {
pub a: i32,
}
impl X {
pub fn func1() -> i32 {}
}
";
    let buf = source_code.as_bytes().to_vec();
    let mut p1 = RustParser::new();
    p1.parse(&buf).unwrap();
    let mut p2 = RustParser::new();
    p2.parse(&buf).unwrap();
    assert_eq!(p1.classes(), p2.classes());
    assert_eq!(p1.enums(), p2.enums());
}

#[test]
fn entity_accumulation_is_append_only() {
    let first = "struct X { a: i32 } impl X { fn func1() {} }";
    let second = "struct Y { b: i32 } impl Y { fn func2() {} }";
    let mut p = RustParser::new();
    p.parse(&first.as_bytes().to_vec()).unwrap();
    assert_eq!(p.classes().len(), 1);
    p.parse(&second.as_bytes().to_vec()).unwrap();
    assert_eq!(p.classes().len(), 2);
    assert_eq!(p.classes()[0].name, "X");
    assert_eq!(p.classes()[1].name, "Y");
}

#[test]
fn rust_association_extraction_is_unsupported() {
    let p = RustParser::new();
    assert!(matches!(p.assocations(), Err(ExtractError::Unsupported)));
}

#[test]
fn cpp_class_without_methods_has_empty_method_sequence() {
    let mut p = CppParser::new();
    let source_code = "
class Pixel
{
    public:
        char red;
        char green;
}
";
    p.parse(&source_code.as_bytes().to_vec()).unwrap();
    let classes = p.classes();
    assert_eq!(classes.len(), 1);
    assert_eq!(classes[0].name, "Pixel");
    assert!(classes[0].methods.is_empty());
    assert_eq!(classes[0].fields.len(), 2);
    assert_eq!(classes[0].fields[0].name, "red");
    assert_eq!(classes[0].fields[1].name, "green");
}

#[test]
fn cpp_method_params_are_in_declaration_order() {
    let mut p = CppParser::new();
    let source_code = "
class Device: X
{

    public:
        static Display display;
        string ip_to_number(char a, char b, char c);
}
";
    let buf = source_code.as_bytes().to_vec();
    p.parse(&buf).unwrap();
    let classes = p.classes();
    assert_eq!(classes.len(), 1);
    let c = &classes[0];
    assert_eq!(c.extends, vec!["X".to_string()]);
    let m = c.methods.iter().find(|m| m.name == "ip_to_number").unwrap();
    assert_eq!(m.parameters.len(), 3);
    for (got, want) in m.parameters.iter().zip(["a", "b", "c"]) {
        assert_eq!(got.name, want);
        assert_eq!(got.data_type, "char");
    }
    assert_eq!(c.associations.len(), 1);
    assert_eq!(c.associations[0].to, "Display");
    assert_eq!(c.associations[0].to_title, "display");
}
