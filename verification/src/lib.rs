//! Typed access to the cells, pages and quotas of a tabular-document service.
//!
//! The crate holds the rules that must be right whatever the transport does:
//! how a cell value becomes a native value, how a cursor-paged listing is
//! drained into one ordered collection, and which token bucket gates which
//! operation.

pub mod aggregate;
pub mod client;
pub mod duration;
pub mod endpoint;
pub mod integer;
pub mod limiter;
pub mod operation;
pub mod pagination;
pub mod parse_cell_value;
pub mod parse_rich_value;
pub mod tables;
pub mod text;
pub mod timestamp;
pub mod value;

pub use aggregate::{gather_recorded, latest_per_key, FailurePolicy, GatherStep, Gathering};
pub use client::{
    format_row_url, ClientTablesError, RowUpdateResultCorrect, RowsUpsertResultCorrect, BASE_URL,
};
pub use duration::{parse_duration_value, Duration, DurationUnit, DurationValueParserError};
pub use endpoint::{
    row_url, row_url_of_segments, rows_url, rows_url_of_segments, HttpMethod, ResponseClass,
    RowEndpoint,
};
pub use integer::IntErrorKind;
pub use limiter::{Limiter, LimiterClass, Quota};
pub use operation::Operation;
pub use pagination::{
    drain_recorded, Drain, DrainStep, Drained, ItemsList, NextPageLink, NextPageToken,
    NextSyncToken, PaginatedResponse, PaginationState,
};
pub use parse_cell_value::{
    ConvertCellValueError, ConvertCellValueToBoolError, ConvertCellValueToF64Error,
    ConvertCellValueToOptionDurationError, ConvertCellValueToOptionOffsetDateTimeError,
    ConvertCellValueToStringError,
};
pub use parse_rich_value::to_bool::{ConvertRichValueRefToBoolError, ConvertRichValueToBoolError};
pub use parse_rich_value::to_option_bool::{
    ConvertRichValueRefToOptionBoolError, ConvertRichValueToOptionBoolError,
};
pub use parse_rich_value::to_option_duration::{
    ConvertRichValueRefToOptionDurationError, ConvertRichValueToOptionDurationError,
};
pub use parse_rich_value::to_option_offset_date_time::{
    ConvertRichValueRefToOptionOffsetDateTimeError, ConvertRichValueToOptionOffsetDateTimeError,
};
pub use parse_rich_value::to_rich_row_reference::{
    ConvertRichValueRefToRichRowReferenceError, ConvertRichValueToRichRowReferenceError,
};
pub use parse_rich_value::to_string::{
    ConvertRichValueRefToStringError, ConvertRichValueToStringError,
};
pub use parse_rich_value::{normalize_owned_rich_string, normalize_rich_string};
pub use tables::{tables_recorded, TablesFetch, TablesFetched, TablesStep};
pub use timestamp::{
    parse_offset_date_time_value, timestamp_outcome, OffsetDateTime,
    OffsetDateTimeValueParserError,
};
pub use value::{
    CellValue, CurrencyAmount, DocId, ImageStatus, LinkedDataType, Number, RichCurrencyValue,
    RichImageValue, RichPersonValue, RichRowReference, RichSingleValue, RichUrlValue, RichValue,
    RichValueEntry, RowId, ScalarValue, TableId, Value, ValueEntry, ValueFormat,
    ValueFormatProvider,
};
