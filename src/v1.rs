//! Version 1 of the Giphy API.
pub mod asynchronous;
pub mod dispatch;
pub mod gifs;
pub mod json;
pub mod model;
pub mod sync;
pub mod text;

pub use asynchronous::AsyncApi;
pub use dispatch::{check_status, decode_body, prepare_get, GiphyError, HttpGet};
pub use gifs::{
    GetGifRequest, GetGifsRequest, RandomRequest, SearchRequest, TranslateRequest, TrendingRequest,
};
pub use json::{DecodeError, JsonValue};
pub use model::{
    Decode, Gif, GiphyRequest, ImageAnimated, ImageLooping, ImagePreviewGif, ImagePreviewMp4,
    ImageStill, Images, Meta, PaginatedGifListResponse, Pagination, RandomResponse, SearchResponse,
    SingleGifResponse, TranslateResponse, TrendingResponse, User, API_ROOT,
};
pub use sync::SyncApi;
