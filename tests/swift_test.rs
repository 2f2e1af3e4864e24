use typegen::ast::{
    BindingPattern, Declaration, EnumDeclaration, EnumMember, ExportNamedDeclaration,
    FormalParameter, FormalParameters, FunctionType, Initializer, InterfaceDeclaration,
    MethodSignature, Program, PropertyKey, PropertySignature, Signature, Statement, TypeExpr,
    TypeReference,
};
use typegen::languages::language_factory::{LanguageFactory, LanguageType};
use typegen::languages::swift::SwiftTransformer;

fn key(name: &str) -> PropertyKey {
    PropertyKey::Identifier(name.to_string())
}

fn reference(name: &str, args: Vec<TypeExpr>) -> TypeExpr {
    TypeExpr::Reference(TypeReference { name: name.to_string(), type_arguments: args })
}

fn property(name: &str, ty: TypeExpr, readonly: bool, optional: bool) -> Signature {
    Signature::Property(PropertySignature {
        key: key(name),
        type_annotation: Some(ty),
        readonly,
        optional,
    })
}

fn method(name: &str, params: Vec<FormalParameter>, ret: Option<TypeExpr>) -> Signature {
    Signature::Method(MethodSignature {
        key: key(name),
        params: FormalParameters { items: params },
        return_type: ret,
    })
}

fn param(name: &str, ty: Option<TypeExpr>) -> FormalParameter {
    FormalParameter { pattern: BindingPattern::Identifier(name.to_string()), type_annotation: ty }
}

fn interface(name: &str, body: Vec<Signature>) -> Statement {
    Statement::Interface(InterfaceDeclaration { name: name.to_string(), body })
}

fn member(name: &str, init: Option<Initializer>) -> EnumMember {
    EnumMember { name: name.to_string(), initializer: init }
}

fn enumeration(name: &str, members: Vec<EnumMember>) -> Statement {
    Statement::Enum(EnumDeclaration { name: name.to_string(), members })
}

fn swift(body: Vec<Statement>) -> String {
    SwiftTransformer::transform(&Program { body })
}

#[test]
fn it_converts_to_swift_type() {
    // interface HelloWorld { readonly color: string; getUser(): User; }
    // interface User { readonly name: string; }
    let program = Program {
        body: vec![
            interface(
                "HelloWorld",
                vec![
                    property("color", TypeExpr::StringKeyword, true, false),
                    method("getUser", vec![], Some(reference("User", vec![]))),
                ],
            ),
            interface("User", vec![property("name", TypeExpr::StringKeyword, true, false)]),
        ],
    };
    let transformed_code = SwiftTransformer::transform(&program);
    println!("{}", transformed_code);

    let expected_code = r#"protocol HelloWorld {
  var color: String { get }
  func getUser() -> User
}

struct User {
  let name: String
}

"#;
    assert_eq!(transformed_code, expected_code);
}

#[test]
fn swift_readonly_string_field_is_struct() {
    let out = swift(vec![interface("A", vec![property("name", TypeExpr::StringKeyword, true, false)])]);
    assert_eq!(out, "struct A {\n  let name: String\n}\n\n");
}

#[test]
fn swift_struct_fields_are_immutable_and_keep_order() {
    let out = swift(vec![interface(
        "Point",
        vec![
            property("x", TypeExpr::NumberKeyword, false, false),
            property("y", TypeExpr::NumberKeyword, false, true),
            property("ok", TypeExpr::BooleanKeyword, true, false),
        ],
    )]);
    assert_eq!(
        out,
        "struct Point {\n  let x: Double\n  let y: Double?\n  let ok: Bool\n}\n\n"
    );
}

#[test]
fn swift_async_method_is_protocol() {
    let out = swift(vec![interface(
        "Runner",
        vec![method("run", vec![], Some(reference("Promise", vec![TypeExpr::VoidKeyword])))],
    )]);
    assert_eq!(out, "protocol Runner {\n  func run() async throws -> Void\n}\n\n");
}

#[test]
fn swift_function_property_makes_protocol() {
    let f = TypeExpr::Function(FunctionType {
        params: FormalParameters { items: vec![param("id", Some(TypeExpr::StringKeyword))] },
        return_type: Box::new(reference("Promise", vec![TypeExpr::BooleanKeyword])),
    });
    let out = swift(vec![interface("Api", vec![property("check", f, false, true)])]);
    assert_eq!(out, "protocol Api {\n  func check(id: String) async throws -> Bool?\n}\n\n");
}

#[test]
fn swift_protocol_properties_have_accessors() {
    let out = swift(vec![interface(
        "Store",
        vec![
            property("a", TypeExpr::StringKeyword, true, false),
            property("b", TypeExpr::StringKeyword, false, true),
            property("c", reference("Promise", vec![TypeExpr::NumberKeyword]), false, false),
            method("save", vec![param("value", None), param("n", Some(TypeExpr::NumberKeyword))], None),
        ],
    )]);
    assert_eq!(
        out,
        "protocol Store {\n  var a: String { get }\n  var b: String? { get set }\n  var c: Double { get async throws }\n  func save(value: Any, n: Double)\n}\n\n"
    );
}

#[test]
fn swift_string_enum_has_raw_values() {
    let out = swift(vec![enumeration(
        "E",
        vec![
            member("A", Some(Initializer::StringLiteral("a".to_string()))),
            member("B", Some(Initializer::StringLiteral("b".to_string()))),
        ],
    )]);
    assert_eq!(out, "enum E: String, CaseIterable { \n  case A = \"a\"\n  case B = \"b\"\n}\n");
}

#[test]
fn swift_integer_enum_is_int_backed() {
    let out = swift(vec![enumeration(
        "N",
        vec![
            member("One", Some(Initializer::NumericLiteral("1".to_string()))),
            member("Two", Some(Initializer::NumericLiteral("2".to_string()))),
        ],
    )]);
    assert_eq!(out, "enum N: Int, CaseIterable { \n  case One = 1\n  case Two = 2\n}\n");
}

#[test]
fn swift_decimal_enum_is_double_backed() {
    let out = swift(vec![enumeration(
        "D",
        vec![
            member("Half", Some(Initializer::NumericLiteral("0.5".to_string()))),
            member("Most", Some(Initializer::NumericLiteral("2.5".to_string()))),
        ],
    )]);
    assert_eq!(out, "enum D: Double, CaseIterable { \n  case Half = 0.5\n  case Most = 2.5\n}\n");
}

#[test]
fn swift_mixed_decimal_enum_is_ordinal() {
    // enum M { A = 1, B = 2.5 }: numeric, but only one literal has a decimal point.
    let out = swift(vec![enumeration(
        "M",
        vec![
            member("A", Some(Initializer::NumericLiteral("1".to_string()))),
            member("B", Some(Initializer::NumericLiteral("2.5".to_string()))),
        ],
    )]);
    assert_eq!(out, "enum M: CaseIterable { \n  case A\n  case B\n}\n");
}

#[test]
fn swift_mixed_enum_is_ordinal() {
    let out = swift(vec![enumeration(
        "Mixed",
        vec![
            member("A", Some(Initializer::StringLiteral("a".to_string()))),
            member("B", Some(Initializer::NumericLiteral("2".to_string()))),
            member("C", None),
        ],
    )]);
    assert_eq!(out, "enum Mixed: CaseIterable { \n  case A\n  case B\n  case C\n}\n");
}

#[test]
fn swift_enum_without_initializers_is_ordinal() {
    let out = swift(vec![enumeration("Plain", vec![member("X", None), member("Y", None)])]);
    assert_eq!(out, "enum Plain: CaseIterable { \n  case X\n  case Y\n}\n");
}

#[test]
fn swift_export_marks_only_the_declaration() {
    let decl = Declaration::Interface(InterfaceDeclaration {
        name: "User".to_string(),
        body: vec![property("name", TypeExpr::StringKeyword, true, false)],
    });
    let out = swift(vec![Statement::Export(ExportNamedDeclaration { declaration: Some(decl) })]);
    assert_eq!(out, "public struct User {\n  let name: String\n}\n\n");
}

#[test]
fn swift_unknown_statements_leave_comments() {
    let out = swift(vec![
        Statement::Other,
        Statement::Export(ExportNamedDeclaration { declaration: None }),
        Statement::Export(ExportNamedDeclaration { declaration: Some(Declaration::Other) }),
    ]);
    assert_eq!(
        out,
        "// unknown-statement\n\n// unknown-export-named-declaration\n\n// unknown-declaration\n\n"
    );
}

#[test]
fn swift_transform_twice_is_identical() {
    let build = || Program {
        body: vec![
            interface("A", vec![method("f", vec![], Some(TypeExpr::StringKeyword))]),
            enumeration("E", vec![member("X", None)]),
        ],
    };
    let p = build();
    let first = SwiftTransformer::transform(&p);
    let second = SwiftTransformer::transform(&p);
    assert_eq!(first, second);
    assert_eq!(first, LanguageFactory::transform(LanguageType::Swift, &build()));
}

#[test]
fn swift_declarations_follow_source_order() {
    let out = swift(vec![
        enumeration("First", vec![member("A", None)]),
        interface("Second", vec![]),
    ]);
    assert_eq!(out, "enum First: CaseIterable { \n  case A\n}\nstruct Second {\n\n}\n\n");
}
