use dispatch_core::resolver::{ModuleSpecifier, ResolveErrorKind};

#[test]
fn test_resolve() {
    assert_eq!(
        ModuleSpecifier::resolve(
            "./005_more_imports.ts",
            "http://deno.land/core/tests/006_url_imports.ts",
        )
        .unwrap()
        .as_str(),
        "http://deno.land/core/tests/005_more_imports.ts"
    );

    assert_eq!(
        ModuleSpecifier::resolve(
            "../005_more_imports.ts",
            "http://deno.land/core/tests/006_url_imports.ts",
        )
        .unwrap()
        .as_str(),
        "http://deno.land/core/005_more_imports.ts"
    );

    // absolute URL
    assert_eq!(
        ModuleSpecifier::resolve(
            "http://deno.land/core/tests/005_more_imports.ts",
            "http://deno.land/core/tests/006_url_imports.ts",
        )
        .unwrap()
        .as_str(),
        "http://deno.land/core/tests/005_more_imports.ts",
    );

    // absolute path
    assert_eq!(
        ModuleSpecifier::resolve(
            "/dev/core/tests/005_more_imports.ts",
            "/dev/core/tests/006_url_imports.ts",
        )
        .unwrap()
        .as_str(),
        "file:///dev/core/tests/005_more_imports.ts",
    );

    // drive-letter absolute path
    assert_eq!(
        ModuleSpecifier::resolve(
            r"C:/deno/tests/005_more_imports.ts",
            r"C:/deno/tests/006_url_imports.ts",
        )
        .unwrap()
        .as_str(),
        "file:///C:/deno/tests/005_more_imports.ts",
    );
    assert_eq!(
        ModuleSpecifier::resolve(
            r"C:\deno\tests\005_more_imports.ts",
            r"C:/deno/tests/006_url_imports.ts",
        )
        .unwrap()
        .as_str(),
        "file:///C:/deno/tests/005_more_imports.ts",
    );
}

#[test]
fn test_resolve_bad_specifier() {
    assert!(ModuleSpecifier::resolve(
        "005_more_imports.ts",
        "http://deno.land/core/tests/006_url_imports.ts",
    )
    .is_err());
}

#[test]
fn test_resolve_from_cwd() {
    let cwd = "/dev/deno";

    assert_eq!(
        ModuleSpecifier::resolve_from_cwd("/deno/tests/006_url_imports.ts", cwd)
            .unwrap()
            .as_str(),
        "file:///deno/tests/006_url_imports.ts"
    );

    assert_eq!(
        ModuleSpecifier::resolve_from_cwd("./tests/006_url_imports.ts", cwd)
            .unwrap()
            .as_str(),
        "file:///dev/deno/tests/006_url_imports.ts"
    );

    // bare relative strings are accepted in command-line context
    assert_eq!(
        ModuleSpecifier::resolve_from_cwd("tests/006_url_imports.ts", cwd)
            .unwrap()
            .as_str(),
        "file:///dev/deno/tests/006_url_imports.ts"
    );

    assert_eq!(
        ModuleSpecifier::resolve_from_cwd("http://deno.land/core/tests/006_url_imports.ts", cwd)
            .unwrap()
            .as_str(),
        "http://deno.land/core/tests/006_url_imports.ts",
    );
    assert_eq!(
        ModuleSpecifier::resolve_from_cwd("https://deno.land/core/tests/006_url_imports.ts", cwd)
            .unwrap()
            .as_str(),
        "https://deno.land/core/tests/006_url_imports.ts",
    );

    // drive-letter cwd, with backslash separators in the specifier
    assert_eq!(
        ModuleSpecifier::resolve_from_cwd(r".\tests\006_url_imports.ts", r"C:/deno")
            .unwrap()
            .as_str(),
        "file:///C:/deno/tests/006_url_imports.ts"
    );

    // a root-relative specifier resolves against the working directory's
    // root, keeping the drive
    assert_eq!(
        ModuleSpecifier::resolve_from_cwd(r"\tests\006_url_imports.ts", r"C:/deno")
            .unwrap()
            .as_str(),
        "file:///C:/tests/006_url_imports.ts"
    );
}

#[test]
fn test_bare_specifier_error_carries_inputs() {
    let err = ModuleSpecifier::resolve("bare.ts", "http://h/x/y.ts").unwrap_err();
    assert_eq!(err.kind, ResolveErrorKind::ImportPrefixMissing);
    assert_eq!(err.specifier, "bare.ts");
    assert_eq!(err.base.as_deref(), Some("http://h/x/y.ts"));
}

#[test]
fn test_unparseable_base_error() {
    let err = ModuleSpecifier::resolve("./a.ts", "not a url").unwrap_err();
    assert_eq!(err.kind, ResolveErrorKind::InvalidUrl);
    assert_eq!(err.specifier, "./a.ts");
    assert_eq!(err.base.as_deref(), Some("not a url"));
}

#[test]
fn test_resolve_absolute_normalizes() {
    // the URL parser does real work: scheme case and default ports normalize
    assert_eq!(
        ModuleSpecifier::resolve_absolute("HTTP://Deno.Land:80/std/x.ts")
            .unwrap()
            .as_str(),
        "http://deno.land/std/x.ts"
    );
    assert!(ModuleSpecifier::resolve_absolute("005_more_imports.ts").is_err());
}

#[test]
fn test_resolve_absolute_ignores_base() {
    for base in ["http://a/b", "file:///x", "not a url"] {
        assert_eq!(
            ModuleSpecifier::resolve("http://h/x/a.ts", base).unwrap().as_str(),
            "http://h/x/a.ts"
        );
    }
}

#[test]
fn test_resolve_simple_join() {
    assert_eq!(
        ModuleSpecifier::resolve("./a.ts", "http://h/x/y.ts").unwrap().as_str(),
        "http://h/x/a.ts"
    );
    assert_eq!(
        ModuleSpecifier::resolve("../a.ts", "http://h/x/y.ts").unwrap().as_str(),
        "http://h/a.ts"
    );
}

#[test]
fn test_to_url() {
    let m = ModuleSpecifier::resolve_absolute("http://deno.land/x.ts").unwrap();
    let u: url::Url = m.to_url().unwrap();
    assert_eq!(u.as_str(), "http://deno.land/x.ts");
    assert_eq!(u.scheme(), "http");
}
