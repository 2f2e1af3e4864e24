use typegen::languages::language_factory::LanguageType;
use typegen::languages::transformer::LanguageType as TransformerLanguageType;
use typegen::utils::content_utils::{content_banner_header, get_content_banner_header};
use typegen::utils::file_utils::{get_language_from_file_name, parse_banner, parse_footer};

#[test]
fn language_from_file_extension() {
    assert_eq!(get_language_from_file_name("out/Types.swift"), Some(LanguageType::Swift));
    assert_eq!(get_language_from_file_name("Types.kt"), Some(LanguageType::Kotlin));
    assert_eq!(get_language_from_file_name("build.gradle.kts"), Some(LanguageType::Kotlin));
    assert_eq!(get_language_from_file_name("a.kotlin"), Some(LanguageType::Kotlin));
    assert_eq!(get_language_from_file_name("swift"), Some(LanguageType::Swift));
    assert_eq!(get_language_from_file_name("types.ts"), None);
    assert_eq!(get_language_from_file_name("swift."), None);
    assert_eq!(get_language_from_file_name(""), None);
}

#[test]
fn language_try_from_tag() {
    assert_eq!(LanguageType::try_from("swift".to_string()), Ok(LanguageType::Swift));
    assert_eq!(LanguageType::try_from("kt".to_string()), Ok(LanguageType::Kotlin));
    assert_eq!(LanguageType::try_from("kotlin".to_string()), Ok(LanguageType::Kotlin));
    assert_eq!(LanguageType::try_from("Swift".to_string()), Err("unknown language!"));
    assert_eq!(TransformerLanguageType::from_tag("kts"), Some(LanguageType::Kotlin));
}

#[test]
fn banner_unescapes_and_ends_with_newline() {
    assert_eq!(parse_banner(&None), "");
    assert_eq!(parse_banner(&Some(String::new())), "");
    assert_eq!(parse_banner(&Some("package a.b".to_string())), "package a.b\n");
    assert_eq!(parse_banner(&Some("// one\\n// two".to_string())), "// one\n// two\n");
    assert_eq!(parse_banner(&Some("a\\\\n".to_string())), "a\\\n\n");
}

#[test]
fn footer_unescapes_and_starts_with_newline() {
    assert_eq!(parse_footer(&None), "");
    assert_eq!(parse_footer(&Some(String::new())), "");
    assert_eq!(parse_footer(&Some("// end".to_string())), "\n// end");
    assert_eq!(parse_footer(&Some("x\\ny\\n".to_string())), "\nx\ny\n");
    assert_eq!(parse_footer(&Some("\\".to_string())), "\n\\");
}

#[test]
fn banner_header_holds_the_time() {
    assert_eq!(
        content_banner_header("T"),
        "// This Code is auto generated!\n// Time: T \n\n"
    );
    let header = get_content_banner_header();
    assert!(header.starts_with("// This Code is auto generated!\n// Time: "));
    assert!(header.ends_with(" \n\n"));
    assert!(header.len() > "// This Code is auto generated!\n// Time:  \n\n".len());
}

