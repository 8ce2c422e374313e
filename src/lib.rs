//! Outbound HTTP request helper: URL composition, method-based payload
//! placement, trace-header propagation and a three-way failure taxonomy.
//!
//! The transport itself (sending, awaiting, reading the body) and JSON
//! decoding into caller-chosen types happen outside this library; the
//! decisions around them are made and proved here.

pub mod ajax;
pub mod error;
pub mod header_map;
pub mod trace;
pub mod url;

pub use self::ajax::{
    check_request_fits, payload_placement, prepare_request, BaseRequestConfig, OutboundRequest,
    Placement, RequestConfig,
};
pub use self::error::{
    classify, decimal_string, extract_message, is_success, CustomError, FetchError, HttpError,
    NetworkError, ParseError, RawResponse,
};
pub use self::header_map::{is_valid_header_name, HEADER_NAMES_LIMIT};
pub use self::trace::add_trace_header;
pub use self::url::compose_url;
