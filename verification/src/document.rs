//! The document patch/diff collaborator.
//!
//! Computing a structured difference between two documents, and applying an
//! operation sequence to a document, are the business of outside code
//! (`serde_json` for the document format, `json_patch` for the operations).
//! This module names those results and lifts the collaborator to functions
//! from text to text, with the exact case analysis the engine relies on.

use vstd::prelude::*;

verus! {

#[verifier::external_type_specification]
#[verifier::external_body]
pub struct ExValue(serde_json::Value);

#[verifier::external_type_specification]
#[verifier::external_body]
pub struct ExPatch(json_patch::Patch);

#[verifier::external_type_specification]
#[verifier::external_body]
pub struct ExPatchOperation(json_patch::PatchOperation);

/// The document a text parses to, if it is a well-formed JSON document.
pub uninterp spec fn spec_parse_json(s: Seq<char>) -> Option<serde_json::Value>;

/// The operation sequence a JSON value decodes to, if it has that shape.
pub uninterp spec fn spec_decode_patch(v: serde_json::Value) -> Option<json_patch::Patch>;

/// How many operations a patch holds.
pub uninterp spec fn spec_patch_len(p: json_patch::Patch) -> nat;

/// The patched document, if every operation's precondition holds.
pub uninterp spec fn spec_apply(doc: serde_json::Value, p: json_patch::Patch) -> Option<
    serde_json::Value,
>;

/// The text a document renders to.
pub uninterp spec fn spec_render(v: serde_json::Value) -> Seq<char>;

/// The operation sequence that rewrites the first document into the second.
pub uninterp spec fn spec_diff(a: serde_json::Value, b: serde_json::Value) -> json_patch::Patch;

/// The text an operation sequence renders to.
pub uninterp spec fn spec_render_patch(p: json_patch::Patch) -> Seq<char>;

/// The canonical empty patch document: the text of the operation sequence
/// that changes nothing.
pub open spec fn spec_empty_patch_text() -> Seq<char> {
    "[]"@
}

/// A text is canonical when it is a rendered document: parsing it and
/// rendering the result gives the text back.
pub open spec fn canonical_document(s: Seq<char>) -> bool {
    spec_parse_json(s) is Some && spec_render(spec_parse_json(s)->0) == s
}

/// Relies on `serde_json::from_str::<Value>`: whether a text parses, and what
/// it parses to, depend on the text alone; the text `[]` is well-formed JSON.
#[verifier::external_body]
fn parse_json(s: &str) -> (r: Option<serde_json::Value>)
    ensures
        r == spec_parse_json(s@),
        s@ == spec_empty_patch_text() ==> r is Some,
{
    serde_json::from_str(s).ok()
}

/// Relies on `serde_json::from_value::<Patch>`: whether a JSON value decodes
/// into an operation sequence, and the decoded sequence, depend on the value
/// alone; the value of the text `[]` decodes to the empty sequence.
#[verifier::external_body]
fn decode_patch(v: serde_json::Value) -> (r: Option<json_patch::Patch>)
    ensures
        r == spec_decode_patch(v),
        v == spec_parse_json(spec_empty_patch_text())->0 ==> r is Some && spec_patch_len(r->0)
            == 0,
{
    serde_json::from_value(v).ok()
}

/// Relies on `json_patch::patch`: success and the patched document depend on
/// the document and the operation sequence alone; the empty sequence changes
/// nothing and cannot fail.
#[verifier::external_body]
fn apply_patch(doc: serde_json::Value, p: &json_patch::Patch) -> (r: Option<serde_json::Value>)
    ensures
        r == spec_apply(doc, *p),
        spec_patch_len(*p) == 0 ==> r == Some(doc),
{
    let mut d = doc;
    match json_patch::patch(&mut d, p) {
        Ok(_) => Some(d),
        Err(_) => None,
    }
}

/// Relies on `serde_json::to_string_pretty::<Value>`: the rendered text
/// depends on the document alone.  Rendering a `Value` cannot fail — its maps
/// only have string keys — so the error branch is dead.
#[verifier::external_body]
fn render_json(v: &serde_json::Value) -> (r: String)
    ensures
        r@ == spec_render(*v),
{
    serde_json::to_string_pretty(v).unwrap_or_default()
}

/// Relies on `json_patch::diff`: the generated operation sequence depends on
/// the two documents alone, and applying it to the first document yields the
/// second — the crate's documented round-trip guarantee.
#[verifier::external_body]
fn diff_values(a: &serde_json::Value, b: &serde_json::Value) -> (r: json_patch::Patch)
    ensures
        r == spec_diff(*a, *b),
        spec_apply(*a, r) == Some(*b),
{
    json_patch::diff(a, b)
}

/// Relies on the `Display` impl of `json_patch::Patch`, which writes the
/// sequence with `serde_json::to_writer`: the text depends on the sequence
/// alone, it is well-formed JSON, and decoding it gives the sequence back
/// (serde round trip).
#[verifier::external_body]
fn render_patch(p: &json_patch::Patch) -> (r: String)
    ensures
        r@ == spec_render_patch(*p),
        spec_parse_json(r@) is Some,
        spec_decode_patch(spec_parse_json(r@)->0) == Some(*p),
{
    p.to_string()
}

/// The canonical empty patch document as a value to write out.
pub fn empty_patch_document() -> (r: String)
    ensures
        r@ == spec_empty_patch_text(),
{
    String::from_str("[]")
}

/// Why applying a patch document to a baseline document failed.
#[derive(Clone, Copy, PartialEq, Eq, Structural, Debug)]
pub enum ApplyTextError {
    /// The baseline text is not a JSON document.
    DocumentNotJson,
    /// The patch text is not a JSON document.
    PatchNotJson,
    /// The patch text is JSON, but not an operation sequence.
    PatchNotOperations,
    /// An operation's precondition failed against the document.
    PatchFailed,
}

/// What applying a patch document to a baseline document yields, case by
/// case: the first failure in reading order, else the patched document,
/// rendered.
pub open spec fn spec_apply_text(doc: Seq<char>, patch: Seq<char>) -> Result<
    Seq<char>,
    ApplyTextError,
> {
    match spec_parse_json(doc) {
        None => Err(ApplyTextError::DocumentNotJson),
        Some(d) => match spec_parse_json(patch) {
            None => Err(ApplyTextError::PatchNotJson),
            Some(pv) => match spec_decode_patch(pv) {
                None => Err(ApplyTextError::PatchNotOperations),
                Some(p) => match spec_apply(d, p) {
                    None => Err(ApplyTextError::PatchFailed),
                    Some(out) => Ok(spec_render(out)),
                },
            },
        },
    }
}

/// Applies the patch document in `patch` to the baseline document in `doc`.
/// The result is exactly `spec_apply_text`; in particular the canonical empty
/// patch document succeeds on any well-formed baseline, and gives back a
/// canonical baseline byte for byte.
pub fn apply_patch_text(doc: &str, patch: &str) -> (r: Result<String, ApplyTextError>)
    ensures
        r is Ok <==> spec_apply_text(doc@, patch@) is Ok,
        r is Ok ==> r->Ok_0@ == spec_apply_text(doc@, patch@)->Ok_0,
        r is Err ==> r->Err_0 == spec_apply_text(doc@, patch@)->Err_0,
        patch@ == spec_empty_patch_text() && spec_parse_json(doc@) is Some ==> r is Ok,
        patch@ == spec_empty_patch_text() && canonical_document(doc@) ==> r is Ok && r->Ok_0@
            == doc@,
{
    let dv = match parse_json(doc) {
        Some(v) => v,
        None => {
            return Err(ApplyTextError::DocumentNotJson);
        },
    };
    let pv = match parse_json(patch) {
        Some(v) => v,
        None => {
            return Err(ApplyTextError::PatchNotJson);
        },
    };
    let p = match decode_patch(pv) {
        Some(p) => p,
        None => {
            return Err(ApplyTextError::PatchNotOperations);
        },
    };
    match apply_patch(dv, &p) {
        Some(out) => Ok(render_json(&out)),
        None => Err(ApplyTextError::PatchFailed),
    }
}

/// Why deriving a patch between two documents failed.
#[derive(Clone, Copy, PartialEq, Eq, Structural, Debug)]
pub enum DiffTextError {
    /// The baseline text is not a JSON document.
    DocumentNotJson,
    /// The edited text is not a JSON document.
    EditedNotJson,
}

/// What diffing two documents yields, case by case: the first parse failure,
/// else the operation sequence that rewrites the first into the second,
/// rendered.
pub open spec fn spec_diff_text(doc: Seq<char>, edited: Seq<char>) -> Result<
    Seq<char>,
    DiffTextError,
> {
    match spec_parse_json(doc) {
        None => Err(DiffTextError::DocumentNotJson),
        Some(d) => match spec_parse_json(edited) {
            None => Err(DiffTextError::EditedNotJson),
            Some(e) => Ok(spec_render_patch(spec_diff(d, e))),
        },
    }
}

/// Derives the patch document that rewrites the baseline document in `doc`
/// into the edited document in `edited`.  The result is exactly
/// `spec_diff_text`; moreover the patch it writes round-trips — applying it
/// to the same baseline yields the edited document again, byte for byte when
/// the edited text is canonical.
pub fn diff_text(doc: &str, edited: &str) -> (r: Result<String, DiffTextError>)
    ensures
        r is Ok <==> spec_diff_text(doc@, edited@) is Ok,
        r is Ok ==> r->Ok_0@ == spec_diff_text(doc@, edited@)->Ok_0,
        r is Err ==> r->Err_0 == spec_diff_text(doc@, edited@)->Err_0,
        r is Ok ==> spec_apply_text(doc@, r->Ok_0@) == Ok::<Seq<char>, ApplyTextError>(
            spec_render(spec_parse_json(edited@)->0),
        ),
        r is Ok && canonical_document(edited@) ==> spec_apply_text(doc@, r->Ok_0@) == Ok::<
            Seq<char>,
            ApplyTextError,
        >(edited@),
{
    let dv = match parse_json(doc) {
        Some(v) => v,
        None => {
            return Err(DiffTextError::DocumentNotJson);
        },
    };
    let ev = match parse_json(edited) {
        Some(v) => v,
        None => {
            return Err(DiffTextError::EditedNotJson);
        },
    };
    let p = diff_values(&dv, &ev);
    Ok(render_patch(&p))
}

} // verus!
