//! The row endpoints: where each one is reached, how it is called, and what
//! an answer's status says.

use vstd::prelude::*;
use vstd::string::*;

verus! {

/// The row endpoints of the service.
#[derive(Clone, Copy, Debug, PartialEq, Eq, Structural)]
pub enum RowEndpoint {
    /// The rows of a table, page by page.
    ListRows,
    /// One row of a table.
    GetRow,
    /// Insert rows, or update the rows that match.
    UpsertRows,
    /// Update one row.
    UpdateRow,
}

/// The method of a request.
#[derive(Clone, Copy, Debug, PartialEq, Eq, Structural)]
pub enum HttpMethod {
    Get,
    Post,
    Put,
}

/// What the status of an answer says.
#[derive(Clone, Copy, Debug, PartialEq, Eq, Structural)]
pub enum ResponseClass {
    /// The operation was done; the body holds its result.
    Success,
    /// The request was refused in a way the service documents; the body
    /// says why.
    ErrorResponse,
    /// The service counted too many requests, although they were paced here.
    /// The request may be sent again later; the body says why.
    TooManyRequests,
    /// A status that the service does not document for this endpoint.
    UnexpectedResponse,
}

impl RowEndpoint {
    /// The status with which the endpoint answers a request that it accepts.
    pub open spec fn success_status(self) -> u16 {
        match self {
            RowEndpoint::ListRows | RowEndpoint::GetRow => 200,
            RowEndpoint::UpsertRows | RowEndpoint::UpdateRow => 202,
        }
    }

    /// Whether the endpoint documents `status` as a refusal. Fetching one
    /// row takes no input that could be malformed, so it documents no 400.
    pub open spec fn documents_refusal(self, status: u16) -> bool {
        ||| status == 400 && !(self is GetRow)
        ||| status == 401
        ||| status == 403
        ||| status == 404
    }

    /// What an answer of the endpoint with `status` says.
    pub open spec fn class_of(self, status: u16) -> ResponseClass {
        if status == self.success_status() {
            ResponseClass::Success
        } else if status == 429 {
            ResponseClass::TooManyRequests
        } else if self.documents_refusal(status) {
            ResponseClass::ErrorResponse
        } else {
            ResponseClass::UnexpectedResponse
        }
    }

    /// What an answer of the endpoint with `status` says.
    pub fn classify(self, status: u16) -> (r: ResponseClass)
        ensures
            r == self.class_of(status),
    {
        match (self, status) {
            (RowEndpoint::ListRows, 200) => ResponseClass::Success,
            (RowEndpoint::GetRow, 200) => ResponseClass::Success,
            (RowEndpoint::UpsertRows, 202) => ResponseClass::Success,
            (RowEndpoint::UpdateRow, 202) => ResponseClass::Success,
            (_, 429) => ResponseClass::TooManyRequests,
            (RowEndpoint::GetRow, 400) => ResponseClass::UnexpectedResponse,
            (_, 400) => ResponseClass::ErrorResponse,
            (_, 401) => ResponseClass::ErrorResponse,
            (_, 403) => ResponseClass::ErrorResponse,
            (_, 404) => ResponseClass::ErrorResponse,
            _ => ResponseClass::UnexpectedResponse,
        }
    }

    /// The method with which the endpoint is called.
    pub fn method(self) -> (r: HttpMethod)
        ensures
            r == match self {
                RowEndpoint::ListRows | RowEndpoint::GetRow => HttpMethod::Get,
                RowEndpoint::UpsertRows => HttpMethod::Post,
                RowEndpoint::UpdateRow => HttpMethod::Put,
            },
    {
        match self {
            RowEndpoint::ListRows => HttpMethod::Get,
            RowEndpoint::GetRow => HttpMethod::Get,
            RowEndpoint::UpsertRows => HttpMethod::Post,
            RowEndpoint::UpdateRow => HttpMethod::Put,
        }
    }

    /// Whether the endpoint addresses one row rather than the rows of a table.
    pub fn addresses_row(self) -> (r: bool)
        ensures
            r == (self is GetRow || self is UpdateRow),
    {
        match self {
            RowEndpoint::GetRow | RowEndpoint::UpdateRow => true,
            RowEndpoint::ListRows | RowEndpoint::UpsertRows => false,
        }
    }
}

/// `text` as one segment of a path: what `progenitor_client::encode_path`
/// makes of it by percent-encoding.
pub uninterp spec fn path_segment(text: Seq<char>) -> Seq<char>;

/// `progenitor_client::encode_path`, which percent-encodes what may not
/// stand in a segment of a path. Its result is a function of the text alone;
/// the contract gives it its name and says nothing else of it.
#[verifier::external_body]
fn encode_path(text: &str) -> (r: String)
    ensures
        r@ == path_segment(text@),
{
    progenitor_client::encode_path(text)
}

/// The address of the rows of a table, from segments that are encoded
/// already.
pub open spec fn rows_address(base: Seq<char>, doc: Seq<char>, table: Seq<char>) -> Seq<char> {
    base + "/docs/"@ + doc + "/tables/"@ + table + "/rows"@
}

/// The address of one row, from segments that are encoded already.
pub open spec fn row_address(
    base: Seq<char>,
    doc: Seq<char>,
    table: Seq<char>,
    row: Seq<char>,
) -> Seq<char> {
    rows_address(base, doc, table) + "/"@ + row
}

/// The address of the rows of a table, from segments that are encoded
/// already.
pub fn rows_url_of_segments(baseurl: &str, doc: &str, table: &str) -> (r: String)
    ensures
        r@ == rows_address(baseurl@, doc@, table@),
{
    let mut url = String::from_str(baseurl);
    url.append("/docs/");
    url.append(doc);
    url.append("/tables/");
    url.append(table);
    url.append("/rows");
    url
}

/// The address of one row, from segments that are encoded already.
pub fn row_url_of_segments(baseurl: &str, doc: &str, table: &str, row: &str) -> (r: String)
    ensures
        r@ == row_address(baseurl@, doc@, table@, row@),
{
    let mut url = rows_url_of_segments(baseurl, doc, table);
    url.append("/");
    url.append(row);
    url
}

/// The address of the rows of the table `table_id_or_name` of the document
/// `doc_id`.
pub fn rows_url(baseurl: &str, doc_id: &str, table_id_or_name: &str) -> (r: String)
    ensures
        r@ == rows_address(baseurl@, path_segment(doc_id@), path_segment(table_id_or_name@)),
{
    let doc = encode_path(doc_id);
    let table = encode_path(table_id_or_name);
    rows_url_of_segments(baseurl, doc.as_str(), table.as_str())
}

/// The address of the row `row_id_or_name` of the table `table_id_or_name`
/// of the document `doc_id`.
pub fn row_url(baseurl: &str, doc_id: &str, table_id_or_name: &str, row_id_or_name: &str) -> (r:
    String)
    ensures
        r@ == row_address(
            baseurl@,
            path_segment(doc_id@),
            path_segment(table_id_or_name@),
            path_segment(row_id_or_name@),
        ),
{
    let doc = encode_path(doc_id);
    let table = encode_path(table_id_or_name);
    let row = encode_path(row_id_or_name);
    row_url_of_segments(baseurl, doc.as_str(), table.as_str(), row.as_str())
}

} // verus!
