use edn_keyword::keyword::Keyword;

#[test]
fn renders_unqualified() {
    assert_eq!(":baz", Keyword::new("baz").to_string());
}

#[test]
fn renders_namespaced() {
    assert_eq!(":bar/baz", Keyword::namespaced("baz", "bar").to_string());
}

#[test]
fn equal_unqualified() {
    assert!(Keyword::new("baz") == Keyword::new("baz"));
}

#[test]
fn unqualified_differs_from_namespaced() {
    assert!(Keyword::new("baz") != Keyword::namespaced("baz", "qux"));
}

#[test]
fn equal_namespaced() {
    assert!(Keyword::namespaced("baz", "bar") == Keyword::namespaced("baz", "bar"));
}

#[test]
fn unequal_namespace() {
    assert!(Keyword::namespaced("baz", "bar") != Keyword::namespaced("baz", "qux"));
}

#[test]
fn unequal_name() {
    assert!(Keyword::new("foo") != Keyword::new("bar"));
}

#[test]
fn equality_is_symmetric_on_values() {
    let a = Keyword::namespaced("baz", "bar");
    let b = Keyword::namespaced("baz", "bar");
    assert_eq!(a == b, b == a);
}

#[test]
fn renders_empty_name() {
    assert_eq!(":", Keyword::new("").to_string());
}

#[test]
fn renders_empty_namespace() {
    assert_eq!(":/baz", Keyword::namespaced("baz", "").to_string());
}

#[test]
fn no_escaping_of_slash_in_name() {
    assert_eq!(":a/b", Keyword::new("a/b").to_string());
    assert_eq!(":x/a/b", Keyword::namespaced("b", "x/a").to_string());
}

#[test]
fn rendering_is_deterministic() {
    let k = Keyword::namespaced("baz", "bar");
    assert_eq!(k.to_string(), k.to_string());
}

#[test]
fn clone_is_equal() {
    let k = Keyword::namespaced("baz", "bar");
    assert!(k.clone() == k);
    let u = Keyword::new("baz");
    assert!(u.clone() == u);
}
