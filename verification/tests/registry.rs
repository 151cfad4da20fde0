use file_emitter::config::FileName;
use file_emitter::source_map::{SourceFile, SourceName, SourceRegistry};

#[test]
fn registry_finds_the_first_source_of_a_name() {
    let mut registry = SourceRegistry::new();
    registry.new_source_file(SourceName::Real("a.rs".to_string()), Some("first".to_string()));
    registry.new_source_file(SourceName::Custom("a.rs".to_string()), Some("custom".to_string()));
    registry.new_source_file(SourceName::Real("a.rs".to_string()), Some("second".to_string()));
    registry.new_source_file(SourceName::Real("b.rs".to_string()), None);

    assert_eq!(
        registry.get_source_file(&SourceName::Real("a.rs".to_string())),
        Some(&SourceFile {
            name: SourceName::Real("a.rs".to_string()),
            src: Some("first".to_string()),
        })
    );
    assert_eq!(
        registry.get_source_file(&SourceName::Custom("a.rs".to_string())),
        Some(&SourceFile {
            name: SourceName::Custom("a.rs".to_string()),
            src: Some("custom".to_string()),
        })
    );
    assert_eq!(
        registry.get_source_file(&SourceName::Real("b.rs".to_string())),
        Some(&SourceFile { name: SourceName::Real("b.rs".to_string()), src: None })
    );
    assert_eq!(registry.get_source_file(&SourceName::Real("c.rs".to_string())), None);
}

#[test]
fn empty_registry_finds_nothing() {
    let registry = SourceRegistry::new();
    assert_eq!(registry.get_source_file(&SourceName::Real("a.rs".to_string())), None);
    assert_eq!(registry.get_source_file(&SourceName::Custom("stdin".to_string())), None);
}

#[test]
fn source_names_compare_by_kind_and_text() {
    let real = SourceName::Real("x".to_string());
    assert!(real.same_as(&SourceName::Real("x".to_string())));
    assert!(!real.same_as(&SourceName::Real("y".to_string())));
    assert!(!real.same_as(&SourceName::Custom("x".to_string())));
    assert!(SourceName::Custom("stdin".to_string()).same_as(&SourceName::of(&FileName::Stdin)));
}

#[test]
fn file_names_map_to_registry_names() {
    assert_eq!(
        SourceName::of(&FileName::Real("p/q.rs".to_string())),
        SourceName::Real("p/q.rs".to_string())
    );
    assert_eq!(SourceName::of(&FileName::Stdin), SourceName::Custom("stdin".to_string()));
}
