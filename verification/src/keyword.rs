use vstd::prelude::*;
use vstd::string::StringExecFns;

verus! {

/// An identifier value modeled after Clojure's keyword reader syntax: a
/// mandatory `name` plus an optional `namespace`, printed as `:name` or
/// `:namespace/name`.
///
/// Callers are expected to enforce symbol-syntax rules themselves; this type
/// performs no validation and no escaping.
#[derive(Clone, Debug)]
pub struct Keyword {
    pub name: String,
    pub namespace: Option<String>,
}

impl Keyword {
    /// The EDN textual form of this keyword, as a sequence of characters:
    /// `:namespace/name` when a namespace is present, `:name` otherwise.
    pub open spec fn rendered(self) -> Seq<char> {
        match self.namespace {
            Some(ns) => seq![':'] + ns@ + seq!['/'] + self.name@,
            None => seq![':'] + self.name@,
        }
    }

    /// Structural equality: both keywords qualified the same way, with the
    /// same character content in `name` and (when present) `namespace`.
    pub open spec fn same_fields(self, other: Keyword) -> bool {
        &&& self.name@ == other.name@
        &&& self.namespace is Some == other.namespace is Some
        &&& self.namespace is Some ==> (self.namespace->0)@ == (other.namespace->0)@
    }

    /// Constructs an unqualified keyword with the given name and no
    /// namespace. No validation is performed.
    pub fn new(name: &str) -> (r: Self)
        ensures
            r.name@ == name@,
            r.namespace is None,
    {
        Keyword { name: name.to_owned(), namespace: None }
    }

    /// Constructs a qualified keyword from a name and a namespace. No
    /// validation is performed.
    pub fn namespaced(name: &str, namespace: &str) -> (r: Self)
        ensures
            r.name@ == name@,
            r.namespace is Some,
            (r.namespace->0)@ == namespace@,
    {
        Keyword { name: name.to_owned(), namespace: Some(namespace.to_owned()) }
    }

    /// Print the keyword in EDN format. Any character present in `name` or
    /// `namespace` is emitted verbatim: no escaping is performed.
    pub fn to_string(&self) -> (r: String)
        ensures
            r@ == self.rendered(),
    {
        let mut s: String = String::new();
        s.append(":");
        if let Some(ns) = &self.namespace {
            s.append(ns.as_str());
            s.append("/");
        }
        s.append(self.name.as_str());
        proof {
            reveal_strlit(":");
            reveal_strlit("/");
            assert(s@ =~= self.rendered());
        }
        s
    }
}

impl PartialEq for Keyword {
    fn eq(&self, other: &Keyword) -> (r: bool) {
        let ns_eq: bool = match (&self.namespace, &other.namespace) {
            (Some(a), Some(b)) => *a == *b,
            (None, None) => true,
            _ => false,
        };
        ns_eq && self.name == other.name
    }
}

impl vstd::std_specs::cmp::PartialEqSpecImpl for Keyword {
    open spec fn obeys_eq_spec() -> bool {
        true
    }

    open spec fn eq_spec(&self, other: &Keyword) -> bool {
        self.same_fields(*other)
    }
}

/// An unqualified keyword renders as a colon followed by its name, verbatim.
pub proof fn lemma_render_unqualified(k: Keyword)
    requires
        k.namespace is None,
    ensures
        k.rendered() == seq![':'] + k.name@,
{
}

/// A qualified keyword renders as a colon, the namespace, a slash, and the
/// name, each emitted verbatim.
pub proof fn lemma_render_namespaced(k: Keyword)
    requires
        k.namespace is Some,
    ensures
        k.rendered() == seq![':'] + (k.namespace->0)@ + seq!['/'] + k.name@,
{
}

/// Keyword equality is reflexive.
pub proof fn lemma_eq_reflexive(k: Keyword)
    ensures
        k.same_fields(k),
{
}

/// Keyword equality is symmetric.
pub proof fn lemma_eq_symmetric(a: Keyword, b: Keyword)
    ensures
        a.same_fields(b) == b.same_fields(a),
{
}

/// Keyword equality is transitive.
pub proof fn lemma_eq_transitive(a: Keyword, b: Keyword, c: Keyword)
    requires
        a.same_fields(b),
        b.same_fields(c),
    ensures
        a.same_fields(c),
{
}

/// Rendering is deterministic: the rendered form is a function of the
/// keyword's value alone, so any two renderings of one keyword agree.
pub proof fn lemma_render_deterministic(k: Keyword, r1: Seq<char>, r2: Seq<char>)
    requires
        r1 == k.rendered(),
        r2 == k.rendered(),
    ensures
        r1 == r2,
{
}

/// Keywords with the same fields render identically.
pub proof fn lemma_same_fields_same_rendering(a: Keyword, b: Keyword)
    requires
        a.same_fields(b),
    ensures
        a.rendered() == b.rendered(),
{
}

} // verus!
