use astscan::lang::{Lang, extension_of, lang_from_extension, lang_of_path, path_has_lang};
use astscan::rules::{rules_for_lang, rules_for_path};

fn path(p: &str) -> Vec<u8> {
    p.as_bytes().to_vec()
}

#[test]
fn extension_is_the_part_after_the_last_dot() {
    assert_eq!(extension_of(&path("a.js")), Some(b"js".to_vec()));
    assert_eq!(extension_of(&path("dir/sub/x.tar.gz")), Some(b"gz".to_vec()));
    assert_eq!(extension_of(&path("noext")), None);
    assert_eq!(extension_of(&path("dir.d/file")), None);
    assert_eq!(extension_of(&path(".hidden")), None);
    assert_eq!(extension_of(&path("dir/.hidden")), None);
    assert_eq!(extension_of(&path("trailing.")), Some(b"".to_vec()));
}

#[test]
fn known_extensions_map_to_their_language() {
    assert_eq!(lang_from_extension(&b"js".to_vec()), Some(Lang::JavaScript));
    assert_eq!(lang_from_extension(&b"jsx".to_vec()), Some(Lang::JavaScript));
    assert_eq!(lang_from_extension(&b"mjs".to_vec()), Some(Lang::JavaScript));
    assert_eq!(lang_from_extension(&b"cjs".to_vec()), Some(Lang::JavaScript));
    assert_eq!(lang_from_extension(&b"ts".to_vec()), Some(Lang::TypeScript));
    assert_eq!(lang_from_extension(&b"mts".to_vec()), Some(Lang::TypeScript));
    assert_eq!(lang_from_extension(&b"cts".to_vec()), Some(Lang::TypeScript));
    assert_eq!(lang_from_extension(&b"py".to_vec()), Some(Lang::Python));
    assert_eq!(lang_from_extension(&b"rs".to_vec()), Some(Lang::Rust));
    assert_eq!(lang_from_extension(&b"go".to_vec()), Some(Lang::Go));
    assert_eq!(lang_from_extension(&b"c".to_vec()), Some(Lang::C));
    assert_eq!(lang_from_extension(&b"h".to_vec()), Some(Lang::C));
    assert_eq!(lang_from_extension(&b"txt".to_vec()), None);
    assert_eq!(lang_from_extension(&b"".to_vec()), None);
}

#[test]
fn language_of_a_path() {
    assert_eq!(lang_of_path(&path("src/a.js")), Some(Lang::JavaScript));
    assert_eq!(lang_of_path(&path("b.py")), Some(Lang::Python));
    assert_eq!(lang_of_path(&path("README")), None);
    assert_eq!(lang_of_path(&path("notes.txt")), None);
}

#[test]
fn resolver_selects_matching_rules_in_order() {
    let rule_langs = vec![Lang::Python, Lang::JavaScript, Lang::Python, Lang::Rust];
    let selected = rules_for_lang(Lang::Python, &rule_langs);
    assert_eq!(selected, vec![0usize, 2usize]);
    let selected = rules_for_lang(Lang::Go, &rule_langs);
    assert!(selected.is_empty());
}

#[test]
fn rule_for_one_language_never_fires_on_a_similar_other() {
    // a TypeScript rule is never invoked against a JavaScript file, even
    // though the two grammars share most of their syntax
    let rule_langs = vec![Lang::TypeScript];
    assert!(rules_for_path(&path("a.js"), &rule_langs).is_empty());
    assert_eq!(rules_for_path(&path("a.ts"), &rule_langs), vec![0usize]);
    // and a Python rule never fires on either
    let rule_langs = vec![Lang::Python];
    assert!(rules_for_path(&path("a.js"), &rule_langs).is_empty());
    assert_eq!(rules_for_path(&path("a.py"), &rule_langs), vec![0usize]);
}

#[test]
fn unsupported_path_selects_no_rules_at_all() {
    let rule_langs = vec![Lang::Python, Lang::JavaScript];
    assert!(rules_for_path(&path("README.md"), &rule_langs).is_empty());
    assert!(rules_for_path(&path("noext"), &rule_langs).is_empty());
}

#[test]
fn ad_hoc_gate_requires_the_exact_language() {
    assert!(path_has_lang(&path("a.js"), Lang::JavaScript));
    assert!(!path_has_lang(&path("a.js"), Lang::TypeScript));
    assert!(!path_has_lang(&path("a.py"), Lang::JavaScript));
    assert!(!path_has_lang(&path("README"), Lang::JavaScript));
}
