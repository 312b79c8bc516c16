//! Uploaded documents: which files are accepted, how a stored file is
//! named, what an extraction reply becomes, and how a document is linked
//! to the customer and policy its extraction matched.
use vstd::prelude::*;
use crate::error::{bad_request, ApiError};
use crate::filter::{CondV, Filter, FilterV, Cond, Test, TestV};
use crate::oid::{hex_oid_bytes, hex_text, oid_opt_view, parse_opt_oid, Oid};
use crate::policies::{fields_view, opt_hex_text, opt_id_bytes, opt_id_cond, opt_id_ok, opt_to_hex, push_field, set_field};
use crate::reminders::{opt_hex, opt_id_hex};
use crate::text::{chars_to_string, lowercase, push_str, str_chars, to_lowercase};
use crate::value::{Field, Float, Value, ValueV};

verus! {

broadcast use vstd::string::group_string_axioms;

/// Kind of an uploaded file.
#[derive(Clone, Copy, Debug, PartialEq, Eq, Structural)]
pub enum FileType {
    Pdf,
    Image,
    Xlsx,
    Html,
}

/// Outcome of the AI extraction of a document (or of one row of a bulk file).
#[derive(Clone, Copy, Debug, PartialEq, Eq, Structural)]
pub enum ExtractionStatus {
    Processing,
    Applied,
    FlaggedLowConfidence,
    Failed,
}

/// A stored upload.
#[derive(Clone)]
pub struct Document {
    pub id: Option<Oid>,
    pub policy_id: Option<Oid>,
    pub customer_id: Option<Oid>,
    pub file_type: FileType,
    /// Where the file lies on the server; never served directly.
    pub storage_path: String,
    pub original_filename: String,
    pub uploaded_by: Oid,
    /// Epoch milliseconds.
    pub uploaded_at: i64,
}

/// A document as the API returns it.
pub struct DocumentResponse {
    pub id: String,
    pub policy_id: Option<String>,
    pub customer_id: Option<String>,
    pub file_type: FileType,
    pub original_filename: String,
    pub uploaded_by: String,
    pub uploaded_at: i64,
}

/// The record of one extraction. `extracted_fields` is the service's raw
/// output as JSON text, kept verbatim.
#[derive(Clone)]
pub struct DocumentExtraction {
    pub id: Option<Oid>,
    pub document_id: Oid,
    pub status: ExtractionStatus,
    pub extracted_fields: String,
    pub matched_customer_id: Option<Oid>,
    pub matched_policy_id: Option<Oid>,
    pub created_customer: bool,
    pub confidence: Float,
    pub error: Option<String>,
    /// Position among a bulk file's data rows; `None` for a single document.
    pub row_index: Option<i32>,
    pub created_at: i64,
}

/// An extraction as the API returns it: ids as hex text, the raw fields
/// still as JSON text.
pub struct DocumentExtractionResponse {
    pub id: String,
    pub document_id: String,
    pub status: ExtractionStatus,
    pub extracted_fields: String,
    pub matched_customer_id: Option<String>,
    pub matched_policy_id: Option<String>,
    pub created_customer: bool,
    pub confidence: Float,
    pub error: Option<String>,
    pub row_index: Option<i32>,
    pub created_at: i64,
}

/// What the extraction service answered for a document or a row; ids are
/// hex text.
pub struct ExtractionRow {
    pub row_index: Option<i32>,
    pub status: ExtractionStatus,
    pub confidence: Float,
    pub extracted_fields: String,
    pub matched_customer_id: Option<String>,
    pub matched_policy_id: Option<String>,
    pub created_customer: bool,
    pub error: Option<String>,
}

/// Filters of the document list; ids are hex text.
pub struct ListDocumentsQuery {
    pub customer_id: Option<String>,
    pub policy_id: Option<String>,
}

/// A download may carry its token in the query (a plain link cannot send
/// an `Authorization` header).
pub struct DownloadQuery {
    pub token: Option<String>,
}

/// Position of the last `c` in `s`, if any.
pub open spec fn last_index_of(s: Seq<char>, c: char, n: int) -> Option<int>
    decreases n,
{
    if n <= 0 {
        None
    } else if s[n - 1] == c {
        Some(n - 1)
    } else {
        last_index_of(s, c, n - 1)
    }
}

/// The text after the last '.' of a file name (all of it when it has no
/// '.'), as `rsplit('.').next()` gives it.
pub open spec fn extension_spec(name: Seq<char>) -> Seq<char> {
    match last_index_of(name, '.', name.len() as int) {
        Some(i) => name.subrange(i + 1, name.len() as int),
        None => name,
    }
}

/// The last '.' search finds no '.' in text free of it.
proof fn lemma_no_dot(s: Seq<char>, n: int)
    requires
        0 <= n <= s.len(),
        forall|i: int| 0 <= i < n ==> s[i] != '.',
    ensures
        last_index_of(s, '.', n) is None,
    decreases n,
{
    if n > 0 {
        lemma_no_dot(s, n - 1);
    }
}

/// A file's extension is what follows its last '.': for a name made of
/// any text, a '.', and a part without '.', that part; a name without any
/// '.' is its own extension.
pub proof fn lemma_extension(a: Seq<char>, e: Seq<char>)
    requires
        forall|i: int| 0 <= i < e.len() ==> e[i] != '.',
    ensures
        extension_spec(a + seq!['.'] + e) == e,
        (forall|i: int| 0 <= i < a.len() ==> a[i] != '.') ==> extension_spec(a) == a,
{
    let name = a + seq!['.'] + e;
    let n = name.len() as int;
    let p = a.len() as int;
    assert forall|i: int| p < i < name.len() implies name[i] != '.' by {
        assert(name[i] == e[i - p - 1]);
    }
    lemma_last_dot_suffix(name, p, n);
    assert(name[p] == '.');
    assert(last_index_of(name, '.', p + 1) == Some(p));
    assert(name.subrange(p + 1, n) =~= e);
    if forall|i: int| 0 <= i < a.len() ==> a[i] != '.' {
        lemma_no_dot(a, a.len() as int);
    }
}

/// Past the position `p`, a text with no further '.' has its last '.' at
/// or before `p`.
proof fn lemma_last_dot_suffix(name: Seq<char>, p: int, k: int)
    requires
        0 <= p < k <= name.len(),
        forall|i: int| p < i < name.len() ==> name[i] != '.',
    ensures
        last_index_of(name, '.', k) == last_index_of(name, '.', p + 1),
    decreases k,
{
    if k > p + 1 {
        lemma_last_dot_suffix(name, p, k - 1);
    }
}

/// The text after the last '.' of a file name.
pub fn extension_of(name: &str) -> (r: String)
    ensures
        r@ == extension_spec(name@),
{
    let cs = str_chars(name);
    let mut i: usize = cs.len();
    while i > 0
        invariant
            i <= cs@.len(),
            cs@ == name@,
            last_index_of(cs@, '.', cs@.len() as int) == last_index_of(cs@, '.', i as int),
        decreases i,
    {
        if cs[i - 1] == '.' {
            let mut out: Vec<char> = Vec::new();
            let mut k: usize = i;
            while k < cs.len()
                invariant
                    i <= k <= cs@.len(),
                    out@ == cs@.subrange(i as int, k as int),
                decreases cs.len() - k,
            {
                out.push(cs[k]);
                k = k + 1;
                assert(cs@.subrange(i as int, k as int) =~= cs@.subrange(i as int, k - 1).push(cs@[k - 1]));
            }
            return chars_to_string(&out);
        }
        i = i - 1;
    }
    name.to_string()
}

/// The type a (lower-cased) extension names.
pub open spec fn file_type_of(ext: Seq<char>) -> Option<FileType> {
    if ext == "pdf"@ {
        Some(FileType::Pdf)
    } else if ext == "png"@ || ext == "jpg"@ || ext == "jpeg"@ || ext == "webp"@ {
        Some(FileType::Image)
    } else if ext == "xlsx"@ || ext == "xls"@ {
        Some(FileType::Xlsx)
    } else if ext == "html"@ || ext == "htm"@ {
        Some(FileType::Html)
    } else {
        None
    }
}

/// Uploads are typed by their lower-cased extension: "pdf" is a PDF;
/// "png", "jpg", "jpeg" and "webp" are images; "xlsx" and "xls" are
/// spreadsheets; "html" and "htm" are HTML pages; no other extension is
/// accepted.
pub proof fn lemma_file_types(ext: Seq<char>)
    ensures
        file_type_of(ext) == Some(FileType::Pdf) <==> ext == "pdf"@,
        file_type_of(ext) == Some(FileType::Image) <==> (ext == "png"@ || ext == "jpg"@ || ext == "jpeg"@ || ext
            == "webp"@),
        file_type_of(ext) == Some(FileType::Xlsx) <==> (ext == "xlsx"@ || ext == "xls"@),
        file_type_of(ext) == Some(FileType::Html) <==> (ext == "html"@ || ext == "htm"@),
        file_type_of(ext) is None <==> !(ext == "pdf"@ || ext == "png"@ || ext == "jpg"@ || ext == "jpeg"@ || ext
            == "webp"@ || ext == "xlsx"@ || ext == "xls"@ || ext == "html"@ || ext == "htm"@),
{
    reveal_strlit("pdf");
    reveal_strlit("png");
    reveal_strlit("jpg");
    reveal_strlit("jpeg");
    reveal_strlit("webp");
    reveal_strlit("xlsx");
    reveal_strlit("xls");
    reveal_strlit("html");
    reveal_strlit("htm");
    assert("pdf"@[1] != "png"@[1]);
    assert("pdf"@[0] != "jpg"@[0]);
    assert("pdf"@.len() != "jpeg"@.len());
    assert("pdf"@.len() != "webp"@.len());
    assert("pdf"@.len() != "xlsx"@.len());
    assert("pdf"@[0] != "xls"@[0]);
    assert("pdf"@.len() != "html"@.len());
    assert("pdf"@[0] != "htm"@[0]);
    assert("png"@[0] != "jpg"@[0]);
    assert("png"@.len() != "jpeg"@.len());
    assert("png"@.len() != "webp"@.len());
    assert("png"@.len() != "xlsx"@.len());
    assert("png"@[0] != "xls"@[0]);
    assert("png"@.len() != "html"@.len());
    assert("png"@[0] != "htm"@[0]);
    assert("jpg"@.len() != "jpeg"@.len());
    assert("jpg"@.len() != "webp"@.len());
    assert("jpg"@.len() != "xlsx"@.len());
    assert("jpg"@[0] != "xls"@[0]);
    assert("jpg"@.len() != "html"@.len());
    assert("jpg"@[0] != "htm"@[0]);
    assert("jpeg"@[0] != "webp"@[0]);
    assert("jpeg"@[0] != "xlsx"@[0]);
    assert("jpeg"@.len() != "xls"@.len());
    assert("jpeg"@[0] != "html"@[0]);
    assert("jpeg"@.len() != "htm"@.len());
    assert("webp"@[0] != "xlsx"@[0]);
    assert("webp"@.len() != "xls"@.len());
    assert("webp"@[0] != "html"@[0]);
    assert("webp"@.len() != "htm"@.len());
    assert("xlsx"@.len() != "xls"@.len());
    assert("xlsx"@[0] != "html"@[0]);
    assert("xlsx"@.len() != "htm"@.len());
    assert("xls"@.len() != "html"@.len());
    assert("xls"@[0] != "htm"@[0]);
    assert("html"@.len() != "htm"@.len());
}

/// The type of an uploaded file, from its extension in any case: PDFs,
/// images (png, jpg, jpeg, webp), spreadsheets (xlsx, xls) and HTML (html,
/// htm). Anything else is a 400 `unsupported file type: .<ext>`.
pub fn infer_file_type(filename: &str) -> (r: Result<FileType, ApiError>)
    ensures
        match file_type_of(lowercase(extension_spec(filename@))) {
            Some(t) => r == Ok::<FileType, ApiError>(t),
            None => r matches Err(e) && e matches ApiError::BadRequest(m) && m@ == "unsupported file type: ."@
                + lowercase(extension_spec(filename@)),
        },
{
    let raw = extension_of(filename);
    let ext = to_lowercase(raw.as_str());
    let e = ext.as_str();
    if crate::value::str_eq(e, "pdf") {
        Ok(FileType::Pdf)
    } else if crate::value::str_eq(e, "png") || crate::value::str_eq(e, "jpg") || crate::value::str_eq(e, "jpeg")
        || crate::value::str_eq(e, "webp") {
        Ok(FileType::Image)
    } else if crate::value::str_eq(e, "xlsx") || crate::value::str_eq(e, "xls") {
        Ok(FileType::Xlsx)
    } else if crate::value::str_eq(e, "html") || crate::value::str_eq(e, "htm") {
        Ok(FileType::Html)
    } else {
        let mut msg = str_chars("unsupported file type: .");
        push_str(&mut msg, e);
        Err(crate::error::bad_request_chars(&msg))
    }
}

/// A lower-case hexadecimal digit.
pub open spec fn is_lower_hex(c: char) -> bool {
    ('0' <= c && c <= '9') || ('a' <= c && c <= 'f')
}

/// The hyphenated lower-case text of a version-4 (random) UUID:
/// 8-4-4-4-12 hex digits, version digit 4, variant digit 8, 9, a or b.
pub open spec fn uuid_v4_text(s: Seq<char>) -> bool {
    &&& s.len() == 36
    &&& forall|i: int|
        0 <= i < 36 ==> if i == 8 || i == 13 || i == 18 || i == 23 {
            s[i] == '-'
        } else {
            is_lower_hex(#[trigger] s[i])
        }
    &&& s[14] == '4'
    &&& (s[19] == '8' || s[19] == '9' || s[19] == 'a' || s[19] == 'b')
}

/// `uuid::Uuid::new_v4().to_string()`: a fresh random version-4 id in the
/// hyphenated lower-case form (uuid's `Display` is its hyphenated
/// `LowerHex`, and `new_v4` fixes the version and variant bits). Which id
/// comes out is left open.
#[verifier::external_body]
fn random_upload_id() -> (r: String)
    ensures
        uuid_v4_text(r@),
{
    uuid::Uuid::new_v4().to_string()
}

/// The name a file is stored under: a fresh random id, a '.', and the
/// upload's own extension as given.
pub fn stored_file_name(original_filename: &str) -> (r: String)
    ensures
        r@.len() == 37 + extension_spec(original_filename@).len(),
        uuid_v4_text(r@.subrange(0, 36)),
        r@.subrange(36, r@.len() as int) == "."@ + extension_spec(original_filename@),
{
    let id = random_upload_id();
    let ext = extension_of(original_filename);
    let mut out = str_chars(id.as_str());
    let ghost idv = out@;
    push_str(&mut out, ".");
    push_str(&mut out, ext.as_str());
    proof {
        reveal_strlit(".");
        assert(out@.subrange(36, out@.len() as int) =~= "."@ + ext@);
        assert(out@.subrange(0, 36) =~= idv);
    }
    chars_to_string(&out)
}

/// What an upload must carry: the "file" field, with a file name and a
/// body. The file name and its type, or a 400 ("no file field in upload",
/// or the type's own error).
pub fn upload_fields(original_filename: Option<String>, has_body: bool) -> (r: Result<(String, FileType), ApiError>)
    ensures
        original_filename is None || !has_body ==> (r matches Err(e) && e matches ApiError::BadRequest(m) && m@
            == "no file field in upload"@),
        has_body ==> match original_filename {
            Some(n) => match file_type_of(lowercase(extension_spec(n@))) {
                Some(t) => r matches Ok((name, ty)) && name == n && ty == t,
                None => r matches Err(e) && e matches ApiError::BadRequest(m) && m@ == "unsupported file type: ."@
                    + lowercase(extension_spec(n@)),
            },
            None => true,
        },
{
    let name = match original_filename {
        Some(n) => n,
        None => return Err(bad_request("no file field in upload")),
    };
    if !has_body {
        return Err(bad_request("no file field in upload"));
    }
    match infer_file_type(name.as_str()) {
        Ok(t) => Ok((name, t)),
        Err(e) => Err(e),
    }
}

/// The document record of a stored upload, linked to nothing yet.
pub fn new_document(file_type: FileType, storage_path: String, original_filename: String, uploaded_by: Oid, now: i64) -> (d: Document)
    ensures
        d.id is None,
        d.policy_id is None,
        d.customer_id is None,
        d.file_type == file_type,
        d.storage_path == storage_path,
        d.original_filename == original_filename,
        d.uploaded_by == uploaded_by,
        d.uploaded_at == now,
{
    Document {
        id: None,
        policy_id: None,
        customer_id: None,
        file_type,
        storage_path,
        original_filename,
        uploaded_by,
        uploaded_at: now,
    }
}

/// A bulk upload takes only spreadsheets and HTML tables.
pub fn require_bulk_type(t: FileType) -> (r: Result<(), ApiError>)
    ensures
        r is Ok <==> (t == FileType::Xlsx || t == FileType::Html),
        r matches Err(e) ==> (e matches ApiError::BadRequest(m) && m@ == "bulk upload only accepts .xlsx or .html files"@),
{
    match t {
        FileType::Xlsx | FileType::Html => Ok(()),
        _ => Err(bad_request("bulk upload only accepts .xlsx or .html files")),
    }
}

/// `r` is the failure row for `reason`: no row position, status Failed,
/// confidence 0, null fields, nothing matched or created, and the reason
/// behind the fixed prefix.
pub open spec fn is_failure_row(r: ExtractionRow, reason: Seq<char>) -> bool {
    &&& r.row_index is None
    &&& r.status == ExtractionStatus::Failed
    &&& r.confidence.bits == 0
    &&& r.extracted_fields@ == "null"@
    &&& r.matched_customer_id is None
    &&& r.matched_policy_id is None
    &&& !r.created_customer
    &&& r.error matches Some(m) && m@ == "extraction service unavailable: "@ + reason
}

/// The row standing for a failed call of the extraction service.
pub fn failed_extraction_row(reason: &str) -> (r: ExtractionRow)
    ensures
        is_failure_row(r, reason@),
{
    let mut msg = str_chars("extraction service unavailable: ");
    push_str(&mut msg, reason);
    ExtractionRow {
        row_index: None,
        status: ExtractionStatus::Failed,
        confidence: Float { bits: 0, text: "0".to_string() },
        extracted_fields: "null".to_string(),
        matched_customer_id: None,
        matched_policy_id: None,
        created_customer: false,
        error: Some(chars_to_string(&msg)),
    }
}

/// The row a single-document upload records: the service's answer (which
/// has no row position), or the failure row when the call failed.
pub fn single_upload_row(reply: Result<ExtractionRow, String>) -> (r: ExtractionRow)
    ensures
        r.row_index is None,
        match reply {
            Ok(row) => r.status == row.status && r.confidence == row.confidence && r.extracted_fields
                == row.extracted_fields && r.matched_customer_id == row.matched_customer_id && r.matched_policy_id
                == row.matched_policy_id && r.created_customer == row.created_customer && r.error == row.error,
            Err(reason) => is_failure_row(r, reason@),
        },
{
    match reply {
        Ok(row) => ExtractionRow {
            row_index: None,
            status: row.status,
            confidence: row.confidence,
            extracted_fields: row.extracted_fields,
            matched_customer_id: row.matched_customer_id,
            matched_policy_id: row.matched_policy_id,
            created_customer: row.created_customer,
            error: row.error,
        },
        Err(reason) => failed_extraction_row(reason.as_str()),
    }
}

/// The rows a bulk upload records: the service's total and rows, or, when
/// the call failed, a total of 0 and the one failure row.
pub fn bulk_upload_rows(reply: Result<(i32, Vec<ExtractionRow>), String>) -> (r: (i32, Vec<ExtractionRow>))
    ensures
        match reply {
            Ok((total, rows)) => r.0 == total && r.1 == rows,
            Err(reason) => r.0 == 0 && r.1@.len() == 1 && is_failure_row(r.1@[0], reason@),
        },
{
    match reply {
        Ok((total, rows)) => (total, rows),
        Err(reason) => {
            let mut rows: Vec<ExtractionRow> = Vec::new();
            rows.push(failed_extraction_row(reason.as_str()));
            (0, rows)
        },
    }
}

/// The extraction record of a row of document `document_id`, created `now`:
/// the row as answered, with its matched ids parsed. A matched id that is
/// not 24 hex digits is a 400 "invalid id".
pub fn extraction_from_row(document_id: Oid, row: ExtractionRow, now: i64) -> (r: Result<DocumentExtraction, ApiError>)
    ensures
        r is Ok <==> opt_id_ok(row.matched_customer_id) && opt_id_ok(row.matched_policy_id),
        r matches Err(e) ==> (e matches ApiError::BadRequest(m) && m@ == "invalid id"@),
        r matches Ok(x) ==> {
            &&& x.id is None
            &&& x.document_id == document_id
            &&& x.status == row.status
            &&& x.extracted_fields == row.extracted_fields
            &&& oid_opt_view(x.matched_customer_id) == opt_id_bytes(row.matched_customer_id)
            &&& oid_opt_view(x.matched_policy_id) == opt_id_bytes(row.matched_policy_id)
            &&& x.created_customer == row.created_customer
            &&& x.confidence == row.confidence
            &&& x.error == row.error
            &&& x.row_index == row.row_index
            &&& x.created_at == now
        },
{
    let customer = match parse_opt_oid(&row.matched_customer_id) {
        Ok(o) => o,
        Err(e) => return Err(e),
    };
    let policy = match parse_opt_oid(&row.matched_policy_id) {
        Ok(o) => o,
        Err(e) => return Err(e),
    };
    Ok(DocumentExtraction {
        id: None,
        document_id,
        status: row.status,
        extracted_fields: row.extracted_fields,
        matched_customer_id: customer,
        matched_policy_id: policy,
        created_customer: row.created_customer,
        confidence: row.confidence,
        error: row.error,
        row_index: row.row_index,
        created_at: now,
    })
}

/// After a single-document extraction, the (customer, policy) link to set
/// on the document: only when it matched either, and then both as matched.
pub fn document_link(x: &DocumentExtraction) -> (r: Option<(Option<Oid>, Option<Oid>)>)
    ensures
        r is Some <==> (x.matched_customer_id is Some || x.matched_policy_id is Some),
        r matches Some((c, p)) ==> c == x.matched_customer_id && p == x.matched_policy_id,
{
    if x.matched_customer_id.is_some() || x.matched_policy_id.is_some() {
        Some((x.matched_customer_id, x.matched_policy_id))
    } else {
        None
    }
}

/// The last matched customer among the first `n` extractions.
pub open spec fn last_matched_customer_spec(xs: Seq<DocumentExtraction>, n: int) -> Option<Oid>
    decreases n,
{
    if n <= 0 {
        None
    } else {
        match xs[n - 1].matched_customer_id {
            Some(c) => Some(c),
            None => last_matched_customer_spec(xs, n - 1),
        }
    }
}

/// The customer a bulk document is tagged with is the one of the last row
/// that matched a customer: when there is one, that row matched it and no
/// later row matched any; when there is none, no row matched a customer.
pub proof fn lemma_last_matched_customer(xs: Seq<DocumentExtraction>, n: int)
    requires
        0 <= n <= xs.len(),
    ensures
        match last_matched_customer_spec(xs, n) {
            Some(c) => exists|i: int| 0 <= i < n && xs[i].matched_customer_id == Some(c) && forall|j: int|
                i < j < n ==> (#[trigger] xs[j]).matched_customer_id is None,
            None => forall|j: int| 0 <= j < n ==> (#[trigger] xs[j]).matched_customer_id is None,
        },
    decreases n,
{
    if n > 0 {
        lemma_last_matched_customer(xs, n - 1);
        match xs[n - 1].matched_customer_id {
            Some(c) => {
                assert(xs[n - 1].matched_customer_id == Some(c));
            },
            None => {
                match last_matched_customer_spec(xs, n - 1) {
                    Some(c) => {
                        let i = choose|i: int| 0 <= i < n - 1 && xs[i].matched_customer_id == Some(c) && forall|j: int|
                            i < j < n - 1 ==> (#[trigger] xs[j]).matched_customer_id is None;
                        assert(forall|j: int| i < j < n ==> (#[trigger] xs[j]).matched_customer_id is None);
                    },
                    None => {},
                }
            },
        }
    }
}

/// The customer a bulk document is tagged with: the one the last matching
/// row matched.
pub fn last_matched_customer(xs: &Vec<DocumentExtraction>) -> (r: Option<Oid>)
    ensures
        r == last_matched_customer_spec(xs@, xs@.len() as int),
{
    let mut last: Option<Oid> = None;
    let mut i: usize = 0;
    while i < xs.len()
        invariant
            i <= xs@.len(),
            last == last_matched_customer_spec(xs@, i as int),
        decreases xs.len() - i,
    {
        if xs[i].matched_customer_id.is_some() {
            last = xs[i].matched_customer_id;
        }
        i = i + 1;
    }
    last
}

/// Content type a document is served with.
pub open spec fn content_type_spec(t: FileType) -> Seq<char> {
    match t {
        FileType::Pdf => "application/pdf"@,
        FileType::Image => "application/octet-stream"@,
        FileType::Xlsx => "application/vnd.openxmlformats-officedocument.spreadsheetml.sheet"@,
        FileType::Html => "text/html"@,
    }
}

/// Content type a document is served with.
pub fn content_type(t: FileType) -> (r: &'static str)
    ensures
        r@ == content_type_spec(t),
{
    match t {
        FileType::Pdf => "application/pdf",
        FileType::Image => "application/octet-stream",
        FileType::Xlsx => "application/vnd.openxmlformats-officedocument.spreadsheetml.sheet",
        FileType::Html => "text/html",
    }
}

/// `Content-Disposition` of a download: shown inline under its own name.
pub fn content_disposition(original_filename: &str) -> (r: String)
    ensures
        r@ == "inline; filename=\""@ + original_filename@ + "\""@,
{
    let mut out = str_chars("inline; filename=\"");
    push_str(&mut out, original_filename);
    push_str(&mut out, "\"");
    chars_to_string(&out)
}

/// Who may download: a caller with a valid session, or else one whose
/// query carries a token, which must then be checked (the token returned);
/// with neither, 401.
pub fn download_token(authenticated: bool, query: &DownloadQuery) -> (r: Result<Option<String>, ApiError>)
    ensures
        authenticated ==> r == Ok::<Option<String>, ApiError>(None),
        !authenticated ==> match query.token {
            Some(t) => r matches Ok(Some(x)) && x == t,
            None => r matches Err(e) && e is Unauthorized,
        },
{
    if authenticated {
        return Ok(None);
    }
    match &query.token {
        Some(t) => Ok(Some(t.clone())),
        None => Err(ApiError::Unauthorized),
    }
}

/// The document list's filter: the customer and policy when given.
pub fn document_list_filter(q: &ListDocumentsQuery) -> (r: Result<Filter, ApiError>)
    ensures
        r is Ok <==> opt_id_ok(q.customer_id) && opt_id_ok(q.policy_id),
        r matches Err(e) ==> (e matches ApiError::BadRequest(m) && m@ == "invalid id"@),
        r matches Ok(f) ==> f@ == FilterV::Doc(opt_id_cond("customer_id"@, q.customer_id) + opt_id_cond(
            "policy_id"@,
            q.policy_id,
        )),
{
    let customer = match parse_opt_oid(&q.customer_id) {
        Ok(o) => o,
        Err(e) => return Err(e),
    };
    let policy = match parse_opt_oid(&q.policy_id) {
        Ok(o) => o,
        Err(e) => return Err(e),
    };
    let mut cs: Vec<Cond> = Vec::new();
    if let Some(c) = customer {
        cs.push(Cond { field: "customer_id".to_string(), test: Test::Eq(Value::ObjectId(c)) });
    }
    let ghost mid = cs@;
    if let Some(p) = policy {
        cs.push(Cond { field: "policy_id".to_string(), test: Test::Eq(Value::ObjectId(p)) });
    }
    let f = Filter::Doc(cs);
    assert(f@->Doc_0 =~= opt_id_cond("customer_id"@, q.customer_id) + opt_id_cond("policy_id"@, q.policy_id));
    Ok(f)
}

impl DocumentResponse {
    /// The API form of a document: ids as hex (the id empty when absent).
    pub fn from_document(d: Document) -> (r: DocumentResponse)
        ensures
            r.id@ == opt_hex(d.id),
            match r.policy_id {
                Some(s) => opt_hex_text(d.policy_id) == Some(s@),
                None => d.policy_id is None,
            },
            match r.customer_id {
                Some(s) => opt_hex_text(d.customer_id) == Some(s@),
                None => d.customer_id is None,
            },
            r.file_type == d.file_type,
            r.original_filename == d.original_filename,
            r.uploaded_by@ == hex_text(d.uploaded_by.bytes@),
            r.uploaded_at == d.uploaded_at,
    {
        DocumentResponse {
            id: opt_id_hex(&d.id),
            policy_id: opt_to_hex(&d.policy_id),
            customer_id: opt_to_hex(&d.customer_id),
            file_type: d.file_type,
            original_filename: d.original_filename,
            uploaded_by: d.uploaded_by.to_hex(),
            uploaded_at: d.uploaded_at,
        }
    }
}

impl DocumentExtractionResponse {
    /// The API form of an extraction: ids as hex (the id empty when absent),
    /// everything else as recorded.
    pub fn from_extraction(e: DocumentExtraction) -> (r: DocumentExtractionResponse)
        ensures
            r.id@ == opt_hex(e.id),
            r.document_id@ == hex_text(e.document_id.bytes@),
            r.status == e.status,
            r.extracted_fields == e.extracted_fields,
            match r.matched_customer_id {
                Some(s) => opt_hex_text(e.matched_customer_id) == Some(s@),
                None => e.matched_customer_id is None,
            },
            match r.matched_policy_id {
                Some(s) => opt_hex_text(e.matched_policy_id) == Some(s@),
                None => e.matched_policy_id is None,
            },
            r.created_customer == e.created_customer,
            r.confidence == e.confidence,
            r.error == e.error,
            r.row_index == e.row_index,
            r.created_at == e.created_at,
    {
        DocumentExtractionResponse {
            id: opt_id_hex(&e.id),
            document_id: e.document_id.to_hex(),
            status: e.status,
            extracted_fields: e.extracted_fields,
            matched_customer_id: opt_to_hex(&e.matched_customer_id),
            matched_policy_id: opt_to_hex(&e.matched_policy_id),
            created_customer: e.created_customer,
            confidence: e.confidence,
            error: e.error,
            row_index: e.row_index,
            created_at: e.created_at,
        }
    }
}

/// A policy an upload matched moves, with its renewal, to the uploader's
/// book: the policy by its id, the renewal by its policy, each given the
/// uploader as owner.
pub fn reassignment_to_uploader(policy_id: Oid, uploader: Oid) -> (r: (Filter, Filter, Vec<Field>))
    ensures
        r.0@ == FilterV::Doc(seq![CondV { field: "_id"@, test: TestV::Eq(ValueV::ObjectId(policy_id.bytes@)) }]),
        r.1@ == FilterV::Doc(seq![CondV { field: "policy_id"@, test: TestV::Eq(ValueV::ObjectId(policy_id.bytes@)) }]),
        fields_view(r.2@) == seq![set_field("assigned_to"@, ValueV::ObjectId(uploader.bytes@))],
{
    let policy = Filter::single(Cond { field: "_id".to_string(), test: Test::Eq(Value::ObjectId(policy_id)) });
    let renewal = Filter::single(Cond { field: "policy_id".to_string(), test: Test::Eq(Value::ObjectId(policy_id)) });
    let mut fs: Vec<Field> = Vec::new();
    push_field(&mut fs, "assigned_to", Value::ObjectId(uploader));
    assert(fields_view(fs@) =~= seq![set_field("assigned_to"@, ValueV::ObjectId(uploader.bytes@))]);
    (policy, renewal, fs)
}

} // verus!
