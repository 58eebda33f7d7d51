use syla_gateway::language::{canonical_name, language_code, language_of_code, parse_language, Language};

const SUPPORTED: [Language; 11] = [
    Language::Python,
    Language::Javascript,
    Language::Typescript,
    Language::Rust,
    Language::Go,
    Language::Java,
    Language::Cpp,
    Language::Csharp,
    Language::Ruby,
    Language::Php,
    Language::Shell,
];

#[test]
fn test_round_trip_all_languages() {
    for lang in SUPPORTED {
        let name = canonical_name(lang);
        assert_eq!(parse_language(name.as_str()), lang);
    }
}

#[test]
fn test_wire_code_round_trip() {
    for lang in SUPPORTED {
        assert_eq!(language_of_code(language_code(lang)), Some(lang));
    }
    assert_eq!(language_of_code(0), Some(Language::Unspecified));
    assert_eq!(language_of_code(12), None);
    assert_eq!(language_of_code(-1), None);
}

#[test]
fn test_case_insensitive_parse() {
    assert_eq!(parse_language("Python"), Language::Python);
    assert_eq!(parse_language("PYTHON"), Language::Python);
    assert_eq!(parse_language("RuSt"), Language::Rust);
    assert_eq!(parse_language("JAVASCRIPT"), Language::Javascript);
}

#[test]
fn test_aliases() {
    assert_eq!(parse_language("c++"), Language::Cpp);
    assert_eq!(parse_language("C++"), Language::Cpp);
    assert_eq!(parse_language("c#"), Language::Csharp);
    assert_eq!(parse_language("bash"), Language::Shell);
    assert_eq!(parse_language("sh"), Language::Shell);
    assert_eq!(parse_language("shell"), Language::Shell);
}

#[test]
fn test_unrecognized_maps_to_unspecified() {
    assert_eq!(parse_language("klingon"), Language::Unspecified);
    assert_eq!(parse_language(""), Language::Unspecified);
    assert_eq!(parse_language("python3"), Language::Unspecified);
    assert_eq!(language_code(Language::Unspecified), 0);
}
