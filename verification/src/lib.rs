//! Feed storage service: the model of feed items, the record format in which
//! they are kept in a Redis hash, and the decisions that the HTTP handlers make
//! on each Redis reply.

pub mod api;
pub mod clock;
pub mod model;
pub mod record;
pub mod resp;
pub mod text;

pub use model::{FeedItem, FeedItemRequest, FeedItemResponse, FeedItemsResponse};
pub use resp::RespValue;
