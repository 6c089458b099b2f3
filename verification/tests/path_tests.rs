use luneweb::path::{
    append_extension, clean_path, has_explicit_prefix, resolve_require, strip_alias, RequireError,
};

#[test]
fn strip_alias_splits_at_first_slash() {
    assert_eq!(
        strip_alias("@lune/net/http"),
        Ok(Some(("lune".to_string(), "net/http".to_string())))
    );
}

#[test]
fn strip_alias_without_at_is_none() {
    assert_eq!(strip_alias("./module"), Ok(None));
    assert_eq!(strip_alias(""), Ok(None));
    assert_eq!(strip_alias("a@b/c"), Ok(None));
}

#[test]
fn strip_alias_without_slash_is_refused() {
    assert_eq!(strip_alias("@lune"), Err(RequireError::MissingSlash));
    assert_eq!(strip_alias("@"), Err(RequireError::MissingSlash));
}

#[test]
fn strip_alias_empty_parts() {
    assert_eq!(strip_alias("@/"), Ok(Some((String::new(), String::new()))));
}

#[test]
fn explicit_prefix_cases() {
    assert!(has_explicit_prefix("./a"));
    assert!(has_explicit_prefix("../a"));
    assert!(has_explicit_prefix("."));
    assert!(has_explicit_prefix(".."));
    assert!(!has_explicit_prefix("a/b"));
    assert!(!has_explicit_prefix(".a"));
    assert!(!has_explicit_prefix("...")); 
    assert!(!has_explicit_prefix("/abs"));
    assert!(!has_explicit_prefix(""));
}

#[test]
fn clean_path_resolves_components() {
    assert_eq!(clean_path("./test/./path"), "test/path");
    assert_eq!(clean_path("test/path/../../.."), "..");
    assert_eq!(clean_path(""), ".");
}

#[test]
fn append_extension_cases() {
    assert_eq!(append_extension("foo".to_string(), "luau"), "foo.luau");
    assert_eq!(append_extension("dir/foo.bar".to_string(), "luau"), "dir/foo.bar.luau");
    assert_eq!(append_extension("..".to_string(), "luau"), "..");
    assert_eq!(append_extension("a/..".to_string(), "luau"), "a/..");
    assert_eq!(append_extension(".".to_string(), "luau"), ".");
    assert_eq!(append_extension("a/".to_string(), "luau"), "a/");
    assert_eq!(append_extension("".to_string(), "luau"), "");
    assert_eq!(append_extension(".hidden".to_string(), "luau"), ".hidden.luau");
}

#[test]
fn resolve_require_relative_module() {
    assert_eq!(resolve_require("./foo"), Ok("foo.luau".to_string()));
    assert_eq!(resolve_require("../lib/./util"), Ok("../lib/util.luau".to_string()));
    assert_eq!(resolve_require("./a/../b"), Ok("b.luau".to_string()));
}

#[test]
fn resolve_require_errors() {
    assert_eq!(resolve_require("@std/net"), Err(RequireError::AliasUnsupported));
    assert_eq!(resolve_require("@std"), Err(RequireError::MissingSlash));
    assert_eq!(resolve_require("foo"), Err(RequireError::MissingPrefix));
}

#[test]
fn require_error_messages() {
    assert_eq!(RequireError::MissingSlash.message(), "Require path is missing '/'");
    assert_eq!(
        RequireError::AliasUnsupported.message(),
        "Aliases are not supported in requires yet"
    );
    assert_eq!(
        RequireError::MissingPrefix.message(),
        r#"must have either "@", "./", or "../" prefix"#
    );
}
