//! The store's operations, phrased over a model of the two files on disk.
//!
//! [`DiskState`] carries the contents of the auth file and of its backup —
//! `None` where the file does not exist.  Each operation is one
//! read-modify-write transaction: it takes the disk as the host last read
//! it and returns what the host must write back.  The host performs the
//! actual filesystem traffic and maps its failures to
//! [`AuthError::IOError`].

use vstd::prelude::*;

use crate::doc::{
    doc_depth_ok, doc_shape_ok, doc_text, has_key, key_index, parse_auth_doc, parse_error_of,
    remove_key, render_doc, error_message, text_doc, value_depth_ok, AuthDoc, DocView,
};
use crate::errors::AuthError;
use crate::text::{is_blank, lemma_blank_trims_empty, trim_str, trim_view};

verus! {

/// The contents of the auth file and of the backup file; `None` stands for
/// a file that does not exist.
pub struct DiskState {
    pub auth_file: Option<String>,
    pub backup_file: Option<String>,
}

/// The character-level view of an optional file.
pub open spec fn file_view(f: Option<String>) -> Option<Seq<char>> {
    match f {
        Some(s) => Some(s@),
        None => None,
    }
}

/// The empty store's view: an object with no entries.
pub open spec fn empty_obj() -> DocView {
    DocView::Obj(Seq::<(Seq<char>, serde_json::Value)>::empty())
}

/// What reading yields for a given auth-file content: the empty object
/// for a missing file or one that trims to nothing, the parse of the
/// trimmed content otherwise, and `None` for a parse failure.
pub open spec fn read_spec(content: Option<Seq<char>>) -> Option<DocView> {
    match content {
        None => Some(empty_obj()),
        Some(s) => if trim_view(s).len() == 0 {
            Some(empty_obj())
        } else {
            text_doc(trim_view(s))
        },
    }
}

/// Reads the store: a missing or blank file is an empty object, anything
/// else is trimmed of surrounding whitespace and parsed as JSON, and the
/// parse is returned as-is.  A parse failure carries the parser's
/// message.
pub fn read_auth(disk: &DiskState) -> (r: Result<AuthDoc, AuthError>)
    ensures
        r is Ok <==> read_spec(file_view(disk.auth_file)) is Some,
        r matches Ok(d) ==> Some(d@) == read_spec(file_view(disk.auth_file)) && d.wf(),
        r matches Ok(d) ==> (d@ is Obj ==> doc_depth_ok(d@)) && doc_shape_ok(d@),
        disk.auth_file matches Some(s) && is_blank(s@) ==> (r matches Ok(d) && d@
            == empty_obj()),
        r matches Err(e) ==> e is ParseError,
        r matches Err(e) ==> (disk.auth_file matches Some(s) && e matches AuthError::ParseError(
            m,
        ) && m@ == parse_error_of(trim_view(s@))),
{
    match &disk.auth_file {
        None => {
            let d = AuthDoc::empty_object();
            proof {
                assert(doc_depth_ok(d@));
            }
            Ok(d)
        },
        Some(content) => {
            proof {
                if is_blank(content@) {
                    lemma_blank_trims_empty(content@);
                }
            }
            let t = trim_str(content.as_str());
            if t.is_empty() {
                let d = AuthDoc::empty_object();
                proof {
                    assert(doc_depth_ok(d@));
                }
                Ok(d)
            } else {
                match parse_auth_doc(t) {
                    Ok(d) => Ok(d),
                    Err(e) => Err(AuthError::ParseError(error_message(&e))),
                }
            }
        },
    }
}

/// Writes the store: the new auth file holds the document's pretty-printed
/// text, and whatever the auth file held before becomes the backup,
/// byte for byte.  A disk without an auth file keeps its old backup.
///
/// The last three clauses restate, for callers, what the serializer
/// guarantees about the written text: it parses back to the document
/// (for a well-formed document within the parser's depth limit), and it
/// is non-empty with no surrounding whitespace.
pub fn write_auth(disk: DiskState, doc: &AuthDoc) -> (r: DiskState)
    ensures
        file_view(r.auth_file) == Some(doc_text(doc@)),
        disk.auth_file is Some ==> r.backup_file == disk.auth_file,
        disk.auth_file is None ==> r.backup_file == disk.backup_file,
        doc.wf() && doc_depth_ok(doc@) && doc_shape_ok(doc@) ==> text_doc(doc_text(doc@))
            == Some(doc@),
        trim_view(doc_text(doc@)) == doc_text(doc@),
        doc_text(doc@).len() > 0,
{
    let text = render_doc(doc);
    match disk.auth_file {
        Some(existing) => DiskState { auth_file: Some(text), backup_file: Some(existing) },
        None => DiskState { auth_file: Some(text), backup_file: disk.backup_file },
    }
}

/// Removes one provider's entry from the store on disk.
///
/// An empty identifier is rejected before anything is read; a store whose
/// top level is not an object is rejected; a missing key changes nothing
/// and reports `false`; a present key is removed and the shrunk store is
/// written — with the usual backup — and reported `true`.
pub fn remove_provider_auth(disk: DiskState, provider_id: &str) -> (r: Result<
    (DiskState, bool),
    AuthError,
>)
    ensures
        provider_id@.len() == 0 ==> (r matches Err(e) && e is ValidationError),
        provider_id@.len() > 0 ==> match read_spec(file_view(disk.auth_file)) {
            None => r matches Err(e) && e is ParseError,
            Some(v) => match v {
                DocView::Other(_) => r matches Err(e) && e is SchemaError,
                DocView::Obj(es) => {
                    &&& !has_key(es, provider_id@) ==> (r matches Ok(p) && p.0 == disk && p.1
                        == false)
                    &&& has_key(es, provider_id@) ==> (r matches Ok(p) && p.1 == true
                        && file_view(p.0.auth_file) == Some(
                        doc_text(DocView::Obj(remove_key(es, provider_id@))),
                    ) && p.0.backup_file == disk.auth_file && text_doc(
                        doc_text(DocView::Obj(remove_key(es, provider_id@))),
                    ) == Some(DocView::Obj(remove_key(es, provider_id@))) && trim_view(
                        doc_text(DocView::Obj(remove_key(es, provider_id@))),
                    ) == doc_text(DocView::Obj(remove_key(es, provider_id@))) && doc_text(
                        DocView::Obj(remove_key(es, provider_id@)),
                    ).len() > 0)
                },
            },
        },
{
    if let Err(e) = validate_provider_id(provider_id) {
        return Err(e);
    }
    let mut doc = match read_auth(&disk) {
        Ok(d) => d,
        Err(e) => { return Err(e) },
    };
    match doc.remove_entry(provider_id) {
        Err(e) => Err(e),
        Ok(false) => Ok((disk, false)),
        Ok(true) => {
            proof {
                lemma_remove_keeps_depth_ok(doc@, file_view(disk.auth_file), provider_id@);
            }
            Ok((write_auth(disk, &doc), true))
        },
    }
}

/// Rejects an empty provider identifier.  Hosts call this before touching
/// the filesystem, so an invalid removal performs no I/O at all.
pub fn validate_provider_id(provider_id: &str) -> (r: Result<(), AuthError>)
    ensures
        r is Ok <==> provider_id@.len() > 0,
        r matches Err(e) ==> e is ValidationError,
{
    if provider_id.is_empty() {
        Err(AuthError::ValidationError)
    } else {
        Ok(())
    }
}

/// Taking an entry out of a store whose payloads are within the parser's
/// depth limit leaves every remaining payload within it.
proof fn lemma_remove_keeps_depth_ok(d: DocView, content: Option<Seq<char>>, k: Seq<char>)
    requires
        read_spec(content) matches Some(v) && v matches DocView::Obj(es) && d == DocView::Obj(
            remove_key(es, k),
        ) && doc_depth_ok(v),
    ensures
        doc_depth_ok(d),
{
    let es = match read_spec(content) {
        Some(DocView::Obj(es0)) => es0,
        _ => Seq::empty(),
    };
    let rk = remove_key(es, k);
    if has_key(es, k) {
        let ki = key_index(es, k);
        assert forall|i: int| 0 <= i < rk.len() implies #[trigger] value_depth_ok(rk[i].1) by {
            let i0 = if i < ki {
                i
            } else {
                i + 1
            };
            assert(rk[i] == es[i0]);
            assert(value_depth_ok(es[i0].1));
        }
    }
}

/// Round trip: writing a well-formed document whose variant matches its
/// value and whose payloads are within the parser's depth limit — every
/// document this crate reads or derives is both — and then reading the
/// disk back yields an equal document.
pub fn write_then_read(disk: DiskState, doc: &AuthDoc) -> (r: Result<AuthDoc, AuthError>)
    requires
        doc.wf(),
        doc_depth_ok(doc@),
        doc_shape_ok(doc@),
    ensures
        r matches Ok(d) && d@ == doc@,
{
    let disk2 = write_auth(disk, doc);
    read_auth(&disk2)
}

/// Removing a present key and then reading the disk back yields exactly
/// the old store with that one entry gone.
pub fn remove_then_read(disk: DiskState, provider_id: &str) -> (r: Result<AuthDoc, AuthError>)
    requires
        provider_id@.len() > 0,
        read_spec(file_view(disk.auth_file)) matches Some(v) && v matches DocView::Obj(es)
            && has_key(es, provider_id@),
    ensures
        (r matches Ok(d) && read_spec(file_view(disk.auth_file)) matches Some(v)
            && v matches DocView::Obj(es) && d@ == DocView::Obj(remove_key(es, provider_id@))),
{
    let removed = match remove_provider_auth(disk, provider_id) {
        Ok(p) => p.0,
        Err(e) => { return Err(e) },
    };
    read_auth(&removed)
}

/// Writing twice keeps exactly one backup: after the second write the
/// backup file holds the first write's text and the auth file the second's.
pub fn write_twice(disk: DiskState, first: &AuthDoc, second: &AuthDoc) -> (r: DiskState)
    ensures
        file_view(r.auth_file) == Some(doc_text(second@)),
        file_view(r.backup_file) == Some(doc_text(first@)),
{
    let disk1 = write_auth(disk, first);
    write_auth(disk1, second)
}

} // verus!
