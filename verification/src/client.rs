//! What the client hands out beside the pages themselves.

use crate::value::RowId;
use vstd::prelude::*;
use vstd::string::*;

verus! {

/// Where the service is reached.
pub const BASE_URL: &'static str = "https://coda.io/apis/v1";

/// Why the tables of a document could not be had.
#[derive(Debug)]
pub enum ClientTablesError<L, G> {
    /// The listing of the tables failed.
    ListTablesFailed { source: L },
    /// A table of the listing could not be fetched.
    GetTableFailed { source: G },
}

/// What the service answers to the update of a row.
#[derive(Clone, Debug, PartialEq, Eq, PartialOrd, Ord, Hash)]
pub struct RowUpdateResultCorrect {
    /// Identifier of the row that was updated.
    pub id: RowId,
    /// Identifier of the request, to ask for its state with.
    pub request_id: String,
}

/// What the service answers to the insertion or update of rows.
#[derive(Clone, Debug, PartialEq, Eq, PartialOrd, Ord, Hash)]
pub struct RowsUpsertResultCorrect {
    /// Identifiers of the rows that will be added.
    pub added_row_ids: Vec<String>,
    /// Identifier of the request, to ask for its state with.
    pub request_id: String,
}

/// The address of a row, as characters.
pub open spec fn browser_row_url(doc_id: Seq<char>, table_id: Seq<char>, row_id: Seq<char>) -> Seq<char> {
    "https://coda.io/d/_d"@ + doc_id + "#_tu"@ + table_id + "/_ru"@ + row_id
}

/// The address at which a browser shows the row `row_id` of the table
/// `table_id` of the document `doc_id`.
pub fn format_row_url(doc_id: &str, table_id: &str, row_id: &str) -> (r: String)
    ensures
        r@ == browser_row_url(doc_id@, table_id@, row_id@),
{
    let mut url = String::from_str("https://coda.io/d/_d");
    url.append(doc_id);
    url.append("#_tu");
    url.append(table_id);
    url.append("/_ru");
    url.append(row_id);
    url
}

} // verus!
