use fancytree::glob_cache::{glob_matches_uncached, Compiled, Glob, GlobCache};

#[test]
fn glob_compiles_and_matches() {
    let g = Glob::new("*.rs").expect("valid pattern");
    assert!(g.matches("main.rs"));
    assert!(!g.matches("main.txt"));
}

#[test]
fn invalid_glob_never_matches() {
    assert!(Glob::new("a***").is_none());
    assert!(!glob_matches_uncached("a***", "a***"));
    let mut cache = GlobCache::new();
    assert!(!cache.matches("a***", "abc"));
    assert!(!cache.matches("a***", "abc"));
    assert_eq!(cache.lookup("a***", "abc"), Some(false));
}

#[test]
fn cache_answers_are_repeatable() {
    let mut cache = GlobCache::new();
    assert_eq!(cache.lookup("src/**/*.rs", "src/a/b.rs"), None);
    assert!(cache.matches("src/**/*.rs", "src/a/b.rs"));
    assert_eq!(cache.lookup("src/**/*.rs", "src/a/b.rs"), Some(true));
    assert!(cache.matches("src/**/*.rs", "src/a/b.rs"));
    assert!(!cache.matches("src/**/*.rs", "docs/b.rs"));
}

#[test]
fn cache_keeps_entries_after_inserts() {
    let mut cache = GlobCache::new();
    assert!(cache.matches("*.md", "README.md"));
    cache.insert(Compiled::new("*.toml"));
    cache.insert(Compiled::new("*.md"));
    assert_eq!(cache.lookup("*.md", "README.md"), Some(true));
    assert_eq!(cache.lookup("*.toml", "Cargo.toml"), Some(true));
    assert_eq!(cache.lookup("*.lock", "Cargo.lock"), None);
}

#[test]
fn compiled_outcome_matches() {
    assert!(Compiled::new("?at").matches("cat"));
    assert!(!Compiled::new("?at").matches("at"));
    assert!(glob_matches_uncached("d*g", "doog"));
}
