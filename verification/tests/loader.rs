use rquickjs_core::error::Error;
use rquickjs_core::loader::{normalize_module_name, resolve_module_name, ModuleName};

#[test]
fn bare_names_stay() {
    assert_eq!(normalize_module_name("dir/main.js", "test"), Ok(ModuleName::Resolved("test".to_string())));
    // `..` is not the component `.`
    assert_eq!(normalize_module_name("dir/main.js", "../x.js"), Ok(ModuleName::Resolved("../x.js".to_string())));
    assert_eq!(normalize_module_name("dir/main.js", ".hidden"), Ok(ModuleName::Resolved(".hidden".to_string())));
}

#[test]
fn relative_names_join_the_base_directory() {
    assert_eq!(
        normalize_module_name("dir/main.js", "./a.js"),
        Ok(ModuleName::Canonicalize("dir/./a.js".to_string()))
    );
    assert_eq!(
        normalize_module_name("main.js", "./a.js"),
        Ok(ModuleName::Canonicalize("./a.js".to_string()))
    );
}

#[test]
fn base_without_parent_fails() {
    assert_eq!(normalize_module_name("", "./a.js"), Err(Error::Unknown));
    assert_eq!(normalize_module_name("/", "./a.js"), Err(Error::Unknown));
}

#[test]
fn resolve_from_given_pieces() {
    assert_eq!(resolve_module_name("m", false, None), Ok(ModuleName::Resolved("m".to_string())));
    assert_eq!(resolve_module_name("./m", true, None), Err(Error::Unknown));
    assert_eq!(
        resolve_module_name("./m", true, Some("x/./m".to_string())),
        Ok(ModuleName::Canonicalize("x/./m".to_string()))
    );
}
