//! A typed client core for a paginated catalog service: a schema-tolerant
//! record decoder and a lazy paginated fetch engine, both verified.

pub mod base_url;
pub mod decode;
pub mod decode_lemmas;
pub mod error;
pub mod json;
pub mod page;
pub mod paginate;
pub mod pagination;
pub mod params;
pub mod response;
pub mod timestamp;
pub mod types;

pub use base_url::{base_url, check_base_url};
pub use decode::{
    decode_record, encode_record, DecodeCause, FieldError, FieldKind, FieldSpec, FieldValue,
    Mode, Record, RecordShape,
};
pub use error::{DecodeError, Error, PathSegment};
pub use json::{Json, Member};
pub use page::{
    decode_item, decode_items, decode_nested, decode_nested_list, pagination_shape, PageDecoder,
    STATUS_OK,
};
pub use paginate::{PaginatedStream, Step, StepKind, StreamState};
pub use pagination::{Page, PageCursor, Pagination, API_PAGINATION_RESULTS_LIMIT};
pub use params::{
    CategoriesParams, FeaturedProjectsBody, GamesParams, ProjectFilesParams, ProjectSearchParams,
    SearchModsParams,
};
pub use response::ApiResponse;
pub use timestamp::{nullable_datetime, nullable_string, Timestamp, NULL_TIMESTAMP};
pub use types::{
    CoreApiStatus, CoreStatus, FileRelationType, FileReleaseType, FileStatus, HashAlgorithm,
    ModAsset, ModAuthor, ModLinks, ModLoaderType, ModStatus, ProjectStatus, ReleaseType,
    SearchModsSort, SearchSort, SearchSortOrder, SortOrder,
};
