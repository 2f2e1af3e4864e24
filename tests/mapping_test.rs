use typegen::ast::{
    BindingPattern, EnumDeclaration, EnumMember, FormalParameter, FormalParameters, FunctionType,
    Initializer, InterfaceDeclaration, MethodSignature, PropertyKey, PropertySignature, Signature,
    TypeExpr, TypeReference,
};
use typegen::languages::classify::{classify_enum, EnumKind, EnumRawType};
use typegen::languages::kotlin::{KotlinEnumDisplayType, KotlinIsInterfaceType, KotlinType};
use typegen::languages::render::{classify_reference, map_type, ReferenceKind};
use typegen::languages::shared::{GetEnumDisplayValue, IsAsyncType, IsEnumWithInitializerType};
use typegen::languages::swift::{
    SwiftFunctionReturnType, SwiftIsProtoclType, SwiftStructType, SwiftType,
};
use typegen::languages::language_factory::LanguageType;
use typegen::text::{contains_text, str_equals};

fn reference(name: &str, args: Vec<TypeExpr>) -> TypeExpr {
    TypeExpr::Reference(TypeReference { name: name.to_string(), type_arguments: args })
}

fn both(t: &TypeExpr) -> (String, String) {
    (map_type(t, LanguageType::Swift), map_type(t, LanguageType::Kotlin))
}

fn members(inits: Vec<Option<Initializer>>) -> EnumDeclaration {
    EnumDeclaration {
        name: "E".to_string(),
        members: inits
            .into_iter()
            .enumerate()
            .map(|(i, init)| EnumMember { name: format!("M{}", i), initializer: init })
            .collect(),
    }
}

fn num(text: &str) -> Option<Initializer> {
    Some(Initializer::NumericLiteral(text.to_string()))
}

fn string(text: &str) -> Option<Initializer> {
    Some(Initializer::StringLiteral(text.to_string()))
}

#[test]
fn keywords_map_per_language() {
    assert_eq!(both(&TypeExpr::StringKeyword), ("String".to_string(), "String".to_string()));
    assert_eq!(both(&TypeExpr::NumberKeyword), ("Double".to_string(), "Double".to_string()));
    assert_eq!(both(&TypeExpr::BooleanKeyword), ("Bool".to_string(), "Boolean".to_string()));
    assert_eq!(both(&TypeExpr::VoidKeyword), ("Void".to_string(), "Unit".to_string()));
    assert_eq!(
        both(&TypeExpr::ObjectKeyword),
        ("[String: Any]".to_string(), "Map<String, Any>".to_string())
    );
    assert_eq!(both(&TypeExpr::Unsupported), ("Any".to_string(), "Any".to_string()));
}

#[test]
fn containers_map_per_language() {
    let arr = TypeExpr::Array(Box::new(TypeExpr::NumberKeyword));
    assert_eq!(both(&arr), ("[Double]".to_string(), "List<Double>".to_string()));
    let generic = reference("ReadonlyArray", vec![TypeExpr::StringKeyword]);
    assert_eq!(both(&generic), ("[String]".to_string(), "List<String>".to_string()));
    let record = reference("Record", vec![TypeExpr::StringKeyword, TypeExpr::NumberKeyword]);
    assert_eq!(both(&record), ("[String: Double]".to_string(), "Map<String, Double>".to_string()));
    let set = reference("Set", vec![reference("User", vec![])]);
    assert_eq!(both(&set), ("Set<User>".to_string(), "Set<User>".to_string()));
}

#[test]
fn missing_generic_arguments_are_top_type() {
    let map = reference("Map", vec![TypeExpr::StringKeyword]);
    assert_eq!(both(&map), ("[String: Any]".to_string(), "Map<String, Any>".to_string()));
    let promise = reference("Promise", vec![]);
    assert_eq!(both(&promise), ("Any".to_string(), "Any".to_string()));
    let array = reference("Array", vec![]);
    assert_eq!(both(&array), ("[Any]".to_string(), "List<Any>".to_string()));
}

#[test]
fn promise_unwraps_and_names_pass_through() {
    let p = reference("Promise", vec![TypeExpr::Array(Box::new(reference("Item", vec![])))]);
    assert_eq!(both(&p), ("[Item]".to_string(), "List<Item>".to_string()));
    let named = reference("Widget", vec![TypeExpr::StringKeyword]);
    assert_eq!(both(&named), ("Widget".to_string(), "Widget".to_string()));
    let op = TypeExpr::Operator(Box::new(TypeExpr::Array(Box::new(TypeExpr::BooleanKeyword))));
    assert_eq!(both(&op), ("[Bool]".to_string(), "List<Boolean>".to_string()));
}

#[test]
fn function_types_map_recursively() {
    let f = TypeExpr::Function(FunctionType {
        params: FormalParameters {
            items: vec![
                FormalParameter {
                    pattern: BindingPattern::Identifier("a".to_string()),
                    type_annotation: Some(TypeExpr::NumberKeyword),
                },
                FormalParameter { pattern: BindingPattern::Unsupported, type_annotation: None },
            ],
        },
        return_type: Box::new(TypeExpr::VoidKeyword),
    });
    assert_eq!(
        both(&f),
        (
            "(_ a: Double, unknown-BindingPatternKind: Any) -> Void".to_string(),
            "(a: Double, unknown-BindingPatternKind: Any) -> Unit".to_string()
        )
    );
    let empty = TypeExpr::Function(FunctionType {
        params: FormalParameters { items: vec![] },
        return_type: Box::new(TypeExpr::StringKeyword),
    });
    assert_eq!(both(&empty), ("() -> String".to_string(), "() -> String".to_string()));
}

#[test]
fn reference_kinds_by_name() {
    assert_eq!(classify_reference("Promise"), ReferenceKind::Promise);
    assert_eq!(classify_reference("Array"), ReferenceKind::List);
    assert_eq!(classify_reference("ReadonlyMap"), ReferenceKind::Dictionary);
    assert_eq!(classify_reference("Set"), ReferenceKind::SetOf);
    assert_eq!(classify_reference("Promises"), ReferenceKind::Named);
}

#[test]
fn enum_classification() {
    assert_eq!(
        classify_enum(&members(vec![string("a"), string("b")])),
        EnumKind::Uniform(EnumRawType::Str)
    );
    assert_eq!(classify_enum(&members(vec![num("1"), num("2")])), EnumKind::Uniform(EnumRawType::Int));
    assert_eq!(
        classify_enum(&members(vec![num("1.5"), num("2.25")])),
        EnumKind::Uniform(EnumRawType::Double)
    );
    assert_eq!(classify_enum(&members(vec![num("1"), num("2.5")])), EnumKind::NonUniform);
    assert_eq!(classify_enum(&members(vec![num("2.5"), num("1")])), EnumKind::NonUniform);
    assert_eq!(classify_enum(&members(vec![string("a"), num("2")])), EnumKind::NonUniform);
    assert_eq!(classify_enum(&members(vec![num("1"), None])), EnumKind::NonUniform);
    assert_eq!(
        classify_enum(&members(vec![Some(Initializer::Other)])),
        EnumKind::NonUniform
    );
}

#[test]
fn enum_traits() {
    let e = members(vec![num("0.5")]);
    assert!(e.is_enum_with_initializer_type());
    assert_eq!(e.get_enum_display_type(), "Double");
    assert_eq!(e.to_kotlin_enum_display_type(), "Double");
    let ordinal = members(vec![None]);
    assert!(!ordinal.is_enum_with_initializer_type());
    assert_eq!(ordinal.get_enum_display_type(), "");
    let mixed = members(vec![num("1"), num("2.5")]);
    assert!(!mixed.is_enum_with_initializer_type());
    assert_eq!(mixed.to_kotlin_enum_display_type(), "");
    assert_eq!(Initializer::StringLiteral("x y".to_string()).get_enum_display_value(), "\"x y\"");
    assert_eq!(Initializer::NumericLiteral("42".to_string()).get_enum_display_value(), "42");
    assert_eq!(Initializer::Other.get_enum_display_value(), "UNKNOWN");
}

#[test]
fn async_traits() {
    let p = TypeReference { name: "Promise".to_string(), type_arguments: vec![] };
    assert!(p.is_async_type());
    let q = TypeReference { name: "Future".to_string(), type_arguments: vec![] };
    assert!(!q.is_async_type());
    assert!(reference("Promise", vec![]).is_async_type());
    assert!(!TypeExpr::Operator(Box::new(reference("Promise", vec![]))).is_async_type());
    let prop = PropertySignature {
        key: PropertyKey::Identifier("p".to_string()),
        type_annotation: Some(reference("Promise", vec![])),
        readonly: false,
        optional: false,
    };
    assert!(prop.is_async_type());
    let m = MethodSignature {
        key: PropertyKey::Identifier("m".to_string()),
        params: FormalParameters { items: vec![] },
        return_type: None,
    };
    assert!(!m.is_async_type());
}

#[test]
fn language_traits_on_nodes() {
    let t = TypeExpr::Array(Box::new(TypeExpr::BooleanKeyword));
    assert_eq!(t.to_swift_type(), "[Bool]");
    assert_eq!(t.to_kotlin_type(), "List<Boolean>");
    assert_eq!(reference("Promise", vec![TypeExpr::StringKeyword]).to_swift_fn_return_type(), " async throws -> String");
    assert_eq!(TypeExpr::ObjectKeyword.to_swift_fn_return_type(), " -> [String: Any]");
    assert_eq!(PropertyKey::Unsupported.to_swift_type(), "unknown-PropertyKey");
    assert_eq!(BindingPattern::Identifier("b".to_string()).to_kotlin_type(), "b");
    let i = InterfaceDeclaration {
        name: "I".to_string(),
        body: vec![Signature::Property(PropertySignature {
            key: PropertyKey::Identifier("x".to_string()),
            type_annotation: Some(TypeExpr::StringKeyword),
            readonly: false,
            optional: true,
        })],
    };
    assert!(!i.is_swift_protocol_type());
    assert!(!i.is_kotlin_interface_type());
    assert_eq!(i.body[0].to_swift_struct_type(), "  let x: String?");
    assert_eq!(i.body[0].to_swift_type(), "  var x: String? { get set }");
    assert_eq!(i.body[0].to_kotlin_type(), "    var x: String?");
    assert_eq!(Signature::Unsupported.to_swift_type(), "// unknown-signature");
    assert_eq!(
        EnumMember { name: "Red".to_string(), initializer: None }.to_swift_type(),
        "Red"
    );
}

#[test]
fn text_helpers() {
    assert!(str_equals("abc", "abc"));
    assert!(!str_equals("abc", "abd"));
    assert!(!str_equals("ab", "abc"));
    assert!(contains_text("a suspend fun", "suspend "));
    assert!(!contains_text("suspended", "suspend "));
    assert!(contains_text("x", ""));
    assert!(!contains_text("", "x"));
}
