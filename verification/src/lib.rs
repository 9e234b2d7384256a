//! A local catalogue of anime metadata: records, the wire shape of a remote
//! page, and the controller that decides how the catalogue is synchronised.
//!
//! Nothing here touches the network or a database. The caller fetches and
//! stores; this library decodes what was fetched, says what is to be stored,
//! decides when a run is over, and orders what is read back.

pub mod decode;
pub mod error;
pub mod json;
pub mod link;
pub mod record;
pub mod store;
pub mod sync;
pub mod text;
pub mod wire;

pub use decode::decode_page;
pub use error::{FetchError, StoreError};
pub use link::{last_offset, parse_decimal, query_parameter};
pub use record::{AnimeItem, AnimeItemList};
pub use store::{load_data, title_not_greater, StoredRow, LOAD_LIMIT};
pub use sync::{
    get_downloader, AnimeDownloader, SyncAction, SyncConfig, SyncError, SyncEvent, SyncState,
    BASE_URL, MAX_PAGES, PACING_MILLIS, PAGE_SIZE,
};
pub use wire::{AnimeData, AnimeListResponse, Attributes, CoverImages, Links, Titles};
