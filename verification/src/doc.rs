//! The auth document: the parsed form of the store file.
//!
//! A document is either a top-level JSON object — a list of provider
//! entries, each an identifier with an opaque payload — or some other JSON
//! value, kept as-is so that a pathological store file can still be read
//! and re-written unchanged.
//!
//! Parsing and serialization are done by `serde_json`; their results are
//! named by the uninterpreted functions [`text_doc`] and [`doc_text`], and
//! everything this crate proves about them rests on the contracts of the
//! two wrappers below.

use vstd::prelude::*;

use crate::errors::AuthError;
use crate::text::{lex_lt, lemma_lex_lt_irreflexive, trim_view};

verus! {

#[verifier::external_type_specification]
#[verifier::external_body]
pub struct ExValue(serde_json::Value);

#[verifier::external_type_specification]
#[verifier::external_body]
pub struct ExJsonError(serde_json::Error);

/// One provider entry: an identifier and its opaque JSON payload.
pub struct AuthEntry {
    pub key: String,
    pub value: serde_json::Value,
}

/// The parsed store file.
pub enum AuthDoc {
    /// The top level is a JSON object.
    Object(Vec<AuthEntry>),
    /// The top level is valid JSON but not an object.
    Other(serde_json::Value),
}

/// The mathematical shape of a document: the entry sequence of a top-level
/// object, or the non-object value.
pub enum DocView {
    Obj(Seq<(Seq<char>, serde_json::Value)>),
    Other(serde_json::Value),
}

/// The key/payload pair an entry stands for.
pub open spec fn entry_pair(e: AuthEntry) -> (Seq<char>, serde_json::Value) {
    (e.key@, e.value)
}

/// The entry sequence a vector of entries stands for.
pub open spec fn entries_view(es: Seq<AuthEntry>) -> Seq<(Seq<char>, serde_json::Value)> {
    Seq::new(es.len(), |i: int| entry_pair(es[i]))
}

impl View for AuthDoc {
    type V = DocView;

    open spec fn view(&self) -> DocView {
        match self {
            AuthDoc::Object(entries) => DocView::Obj(entries_view(entries@)),
            AuthDoc::Other(value) => DocView::Other(*value),
        }
    }
}

/// Whether some entry carries key `k`.
pub open spec fn has_key(es: Seq<(Seq<char>, serde_json::Value)>, k: Seq<char>) -> bool {
    exists|i: int| 0 <= i < es.len() && es[i].0 == k
}

/// The position of key `k`; meaningful when the key is present and the
/// sequence is sorted, which makes the position unique.
pub open spec fn key_index(es: Seq<(Seq<char>, serde_json::Value)>, k: Seq<char>) -> int {
    choose|i: int| 0 <= i < es.len() && es[i].0 == k
}

/// The sequence with the entry keyed `k` taken out; unchanged when no
/// entry carries `k`.
pub open spec fn remove_key(
    es: Seq<(Seq<char>, serde_json::Value)>,
    k: Seq<char>,
) -> Seq<(Seq<char>, serde_json::Value)> {
    if has_key(es, k) {
        es.remove(key_index(es, k))
    } else {
        es
    }
}

/// Keys strictly increase, the order the serializer emits and the parser
/// yields object members in; strictness makes every key unique.
pub open spec fn entries_sorted(es: Seq<(Seq<char>, serde_json::Value)>) -> bool {
    forall|i: int, j: int| 0 <= i < j < es.len() ==> #[trigger] lex_lt(es[i].0, es[j].0)
}

/// A well-formed document view: a top-level object keeps its entries in
/// strictly increasing key order.
pub open spec fn view_wf(d: DocView) -> bool {
    match d {
        DocView::Obj(es) => entries_sorted(es),
        DocView::Other(_) => true,
    }
}

impl AuthDoc {
    /// Well-formedness: every document built by this crate satisfies it.
    pub open spec fn wf(&self) -> bool {
        view_wf(self@)
    }
}

/// What `serde_json::from_str` makes of a text: `None` when the text is
/// not valid JSON, otherwise the document it denotes.
pub uninterp spec fn text_doc(s: Seq<char>) -> Option<DocView>;

/// What `serde_json::to_string_pretty` prints for a document.
pub uninterp spec fn doc_text(d: DocView) -> Seq<char>;

/// Whether a payload nests strictly within the parser's recursion limit,
/// with room to spare for one enclosing object.  The parser refuses
/// deeper values while the serializer prints them, so only a document
/// whose payloads satisfy this re-parses from its own text.
pub uninterp spec fn value_depth_ok(v: serde_json::Value) -> bool;

/// Whether every payload of the document nests within the parser's limit.
/// Vacuous for an empty object, and kept by entry removal, so documents
/// this crate derives from parsed ones satisfy it.
pub open spec fn doc_depth_ok(d: DocView) -> bool {
    match d {
        DocView::Obj(es) => forall|i: int|
            0 <= i < es.len() ==> #[trigger] value_depth_ok(es[i].1),
        DocView::Other(v) => value_depth_ok(v),
    }
}

/// Whether a JSON value is an object.
pub uninterp spec fn value_is_object(v: serde_json::Value) -> bool;

/// Whether the document's variant matches its value: a non-object
/// document never holds a JSON object.  The parser guarantees this of
/// everything it returns — an object top level always becomes the
/// `Object` variant — and rendering is faithful only for such documents,
/// since object text parses back to the `Object` variant.
pub open spec fn doc_shape_ok(d: DocView) -> bool {
    match d {
        DocView::Obj(_) => true,
        DocView::Other(v) => !value_is_object(v),
    }
}

/// The message `Display` prints for a given `serde_json::Error` value.
pub uninterp spec fn error_text(e: serde_json::Error) -> Seq<char>;

/// The message of the error `serde_json::from_str` reports on a text it
/// cannot parse.
pub uninterp spec fn parse_error_of(s: Seq<char>) -> Seq<char>;

/// Relies on `serde_json::from_str`: the result — value or error message —
/// is a function of the text alone; an object top level always becomes
/// the `Object` variant, so a non-object document never holds an object;
/// a top-level object hands its members out in strictly increasing key
/// order (the map is backed by a `BTreeMap`); and the members of a parsed
/// object sat below the parser's recursion limit, so each is within the
/// limit with an enclosing object to spare.
#[verifier::external_body]
pub(crate) fn parse_auth_doc(s: &str) -> (r: Result<AuthDoc, serde_json::Error>)
    ensures
        r matches Ok(d) ==> text_doc(s@) == Some(d@) && d.wf(),
        r matches Ok(d) ==> match d@ {
            DocView::Obj(es) => forall|i: int|
                0 <= i < es.len() ==> #[trigger] value_depth_ok(es[i].1),
            DocView::Other(v) => !value_is_object(v),
        },
        r is Err <==> text_doc(s@) is None,
        r matches Err(e) ==> error_text(e) == parse_error_of(s@),
{
    match serde_json::from_str::<serde_json::Value>(s) {
        Ok(serde_json::Value::Object(m)) => Ok(
            AuthDoc::Object(m.into_iter().map(|(k, v)| AuthEntry { key: k, value: v }).collect()),
        ),
        Ok(v) => Ok(AuthDoc::Other(v)),
        Err(e) => Err(e),
    }
}

/// Relies on `serde_json::to_string_pretty`: the output is a function of
/// the value alone, is never empty and carries no surrounding whitespace;
/// serializing a `Value` cannot fail (its map keys are strings and its
/// `Serialize` impl never errors).  The output parses back to an equal
/// value — exactly the document, when the document is well-formed, its
/// variant matches its value (a parse of the output sorts an object top
/// level into the `Object` variant, never `Other`), and its payloads stay
/// within the parser's recursion limit (floats re-parse exactly under the
/// `float_roundtrip` feature, which this crate enables).
#[verifier::external_body]
pub(crate) fn render_doc(d: &AuthDoc) -> (r: String)
    ensures
        r@ == doc_text(d@),
        d.wf() && doc_depth_ok(d@) && doc_shape_ok(d@) ==> text_doc(r@) == Some(d@),
        trim_view(r@) == r@,
        r@.len() > 0,
{
    let v = match d {
        AuthDoc::Object(entries) => serde_json::Value::Object(
            entries.iter().map(|e| (e.key.clone(), e.value.clone())).collect(),
        ),
        AuthDoc::Other(value) => value.clone(),
    };
    serde_json::to_string_pretty(&v).expect("serializing a JSON value cannot fail")
}

/// Relies on the `Display` impl of `serde_json::Error`: the message is a
/// function of the error value alone.
#[verifier::external_body]
pub(crate) fn error_message(e: &serde_json::Error) -> (r: String)
    ensures
        r@ == error_text(*e),
{
    e.to_string()
}

/// Taking one entry out of a sorted sequence leaves it sorted.
pub proof fn lemma_remove_preserves_sorted(es: Seq<(Seq<char>, serde_json::Value)>, idx: int)
    requires
        entries_sorted(es),
        0 <= idx < es.len(),
    ensures
        entries_sorted(es.remove(idx)),
{
    let r = es.remove(idx);
    assert forall|i: int, j: int| 0 <= i < j < r.len() implies #[trigger] lex_lt(
        r[i].0,
        r[j].0,
    ) by {
        let i0 = if i < idx {
            i
        } else {
            i + 1
        };
        let j0 = if j < idx {
            j
        } else {
            j + 1
        };
        assert(r[i] == es[i0]);
        assert(r[j] == es[j0]);
        assert(lex_lt(es[i0].0, es[j0].0));
    }
}

/// In a sorted sequence a key occurs at no more than one position.
pub proof fn lemma_sorted_key_unique(
    es: Seq<(Seq<char>, serde_json::Value)>,
    i: int,
    j: int,
)
    requires
        entries_sorted(es),
        0 <= i < es.len(),
        0 <= j < es.len(),
        es[i].0 == es[j].0,
    ensures
        i == j,
{
    if i < j {
        assert(lex_lt(es[i].0, es[j].0));
        lemma_lex_lt_irreflexive(es[i].0);
    } else if j < i {
        assert(lex_lt(es[j].0, es[i].0));
        lemma_lex_lt_irreflexive(es[i].0);
    }
}

/// Finds the position of `key` among the entries.
fn find_entry(entries: &Vec<AuthEntry>, key: &str) -> (r: Option<usize>)
    ensures
        match r {
            Some(i) => i < entries@.len() && entries@[i as int].key@ == key@,
            None => forall|j: int| 0 <= j < entries@.len() ==> entries@[j].key@ != key@,
        },
{
    let k: String = key.to_owned();
    let n = entries.len();
    let mut i: usize = 0;
    while i < n
        invariant
            0 <= i <= n,
            n == entries@.len(),
            k@ == key@,
            forall|j: int| 0 <= j < i ==> entries@[j].key@ != key@,
        decreases n - i,
    {
        if entries[i].key == k {
            return Some(i);
        }
        i = i + 1;
    }
    None
}

impl AuthDoc {
    /// The empty store: a top-level object with no entries.
    pub fn empty_object() -> (r: AuthDoc)
        ensures
            r@ == DocView::Obj(Seq::<(Seq<char>, serde_json::Value)>::empty()),
            r.wf(),
    {
        let v: Vec<AuthEntry> = Vec::new();
        proof {
            assert(entries_view(v@) =~= Seq::<(Seq<char>, serde_json::Value)>::empty());
        }
        AuthDoc::Object(v)
    }

    /// Whether the top level is a JSON object.
    pub fn is_object(&self) -> (r: bool)
        ensures
            r == (self@ is Obj),
    {
        match self {
            AuthDoc::Object(_) => true,
            AuthDoc::Other(_) => false,
        }
    }

    /// How many entries a top-level object holds; zero for any other
    /// document.
    pub fn entry_count(&self) -> (r: usize)
        ensures
            match self@ {
                DocView::Obj(es) => r == es.len(),
                DocView::Other(_) => r == 0,
            },
    {
        match self {
            AuthDoc::Object(entries) => entries.len(),
            AuthDoc::Other(_) => 0,
        }
    }

    /// Whether the document is an object with an entry for `provider_id`.
    pub fn has_provider(&self, provider_id: &str) -> (r: bool)
        ensures
            r == (self@ matches DocView::Obj(es) && has_key(es, provider_id@)),
    {
        match self {
            AuthDoc::Other(_) => false,
            AuthDoc::Object(entries) => {
                let found = find_entry(entries, provider_id);
                proof {
                    let es = entries_view(entries@);
                    if let Some(i) = found {
                        assert(es[i as int].0 == provider_id@);
                    } else {
                        assert(forall|j: int|
                            0 <= j < es.len() ==> #[trigger] es[j].0 != provider_id@);
                    }
                }
                found.is_some()
            },
        }
    }

    /// The payload stored for `provider_id`, if the document is an object
    /// holding that key.
    pub fn payload(&self, provider_id: &str) -> (r: Option<&serde_json::Value>)
        ensures
            r is Some == (self@ matches DocView::Obj(es) && has_key(es, provider_id@)),
            r matches Some(v) ==> (self@ matches DocView::Obj(es) && exists|i: int|
                0 <= i < es.len() && #[trigger] es[i] == (provider_id@, *v)),
    {
        match self {
            AuthDoc::Other(_) => None,
            AuthDoc::Object(entries) => {
                let found = find_entry(entries, provider_id);
                match found {
                    Some(i) => {
                        proof {
                            let es = entries_view(entries@);
                            assert(es[i as int] == (provider_id@, entries@[i as int].value));
                            assert(exists|j: int|
                                0 <= j < es.len() && #[trigger] es[j] == (
                                provider_id@,
                                entries@[i as int].value,
                                ));
                        }
                        Some(&entries[i].value)
                    },
                    None => {
                        proof {
                            let es = entries_view(entries@);
                            assert(forall|j: int|
                                0 <= j < es.len() ==> #[trigger] es[j].0 != provider_id@);
                        }
                        None
                    },
                }
            },
        }
    }

    /// Removes the entry for `provider_id`.
    ///
    /// Rejects an empty identifier and a non-object document; otherwise
    /// reports whether an entry was actually removed, and removes nothing
    /// else.
    pub fn remove_entry(&mut self, provider_id: &str) -> (r: Result<bool, AuthError>)
        requires
            old(self).wf(),
        ensures
            final(self).wf(),
            provider_id@.len() == 0 ==> (r matches Err(e) && e is ValidationError
                && final(self)@ == old(self)@),
            provider_id@.len() > 0 ==> match old(self)@ {
                DocView::Other(_) => (r matches Err(e) && e is SchemaError
                    && final(self)@ == old(self)@),
                DocView::Obj(es) => {
                    &&& !has_key(es, provider_id@) ==> r == Ok::<bool, AuthError>(false)
                        && final(self)@ == old(self)@
                    &&& has_key(es, provider_id@) ==> r == Ok::<bool, AuthError>(true)
                        && final(self)@ == DocView::Obj(remove_key(es, provider_id@))
                },
            },
    {
        if provider_id.is_empty() {
            return Err(AuthError::ValidationError);
        }
        match self {
            AuthDoc::Other(_) => Err(AuthError::SchemaError),
            AuthDoc::Object(entries) => {
                let found = find_entry(entries, provider_id);
                match found {
                    None => {
                        proof {
                            let es = entries_view(entries@);
                            assert(forall|j: int|
                                0 <= j < es.len() ==> #[trigger] es[j].0 != provider_id@);
                        }
                        Ok(false)
                    },
                    Some(i) => {
                        proof {
                            let es = entries_view(entries@);
                            assert(es[i as int].0 == provider_id@);
                        }
                        let ghost es0 = entries_view(entries@);
                        entries.remove(i);
                        proof {
                            let k = provider_id@;
                            let ki = key_index(es0, k);
                            lemma_sorted_key_unique(es0, ki, i as int);
                            assert(entries_view(entries@) =~= es0.remove(i as int));
                            lemma_remove_preserves_sorted(es0, i as int);
                        }
                        Ok(true)
                    },
                }
            },
        }
    }
}

} // verus!
