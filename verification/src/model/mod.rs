//! The feed item as it is stored, asked for and answered, with the
//! mathematical value (view) of each.

use vstd::prelude::*;
use crate::record::{join_fields, SEPARATOR};
use crate::text::push_char;

verus! {

/// A feed item as stored in Redis; its key is kept separately.
#[derive(Debug)]
pub struct FeedItem {
    pub title: String,
    pub body: String,
    pub time: String,
}

/// What a client asks to be stored.
#[derive(Debug)]
pub struct FeedItemRequest {
    pub title: String,
    pub body: String,
}

/// What a client is answered for one item.
#[derive(Debug)]
pub struct FeedItemResponse {
    pub id: String,
    pub title: String,
    pub body: String,
    pub time: String,
}

/// What a client is answered for the whole feed.
#[derive(Debug)]
pub struct FeedItemsResponse {
    pub items: Vec<FeedItemResponse>,
}

/// The value of a [`FeedItem`]: its three fields as character sequences.
pub struct FeedItemView {
    pub title: Seq<char>,
    pub body: Seq<char>,
    pub time: Seq<char>,
}

/// The value of a [`FeedItemRequest`].
pub struct FeedItemRequestView {
    pub title: Seq<char>,
    pub body: Seq<char>,
}

/// The value of a [`FeedItemResponse`].
pub struct FeedItemResponseView {
    pub id: Seq<char>,
    pub title: Seq<char>,
    pub body: Seq<char>,
    pub time: Seq<char>,
}

impl View for FeedItem {
    type V = FeedItemView;

    open spec fn view(&self) -> FeedItemView {
        FeedItemView { title: self.title@, body: self.body@, time: self.time@ }
    }
}

impl View for FeedItemRequest {
    type V = FeedItemRequestView;

    open spec fn view(&self) -> FeedItemRequestView {
        FeedItemRequestView { title: self.title@, body: self.body@ }
    }
}

impl View for FeedItemResponse {
    type V = FeedItemResponseView;

    open spec fn view(&self) -> FeedItemResponseView {
        FeedItemResponseView { id: self.id@, title: self.title@, body: self.body@, time: self.time@ }
    }
}

impl View for FeedItemsResponse {
    type V = Seq<FeedItemResponseView>;

    open spec fn view(&self) -> Seq<FeedItemResponseView> {
        self.items@.map_values(|r: FeedItemResponse| r@)
    }
}

/// The answer for an item stored under `id`.
pub open spec fn response_view(id: Seq<char>, item: FeedItemView) -> FeedItemResponseView {
    FeedItemResponseView { id: id, title: item.title, body: item.body, time: item.time }
}

impl FeedItem {
    /// The record under which the item is stored: title, body and time joined
    /// by the separator character (what the item displays as).
    pub fn to_record(&self) -> (res: String)
        ensures
            res@ == join_fields(self.title@, self.body@, self.time@),
    {
        let mut res = String::new();
        res.append(self.title.as_str());
        push_char(&mut res, SEPARATOR);
        res.append(self.body.as_str());
        push_char(&mut res, SEPARATOR);
        res.append(self.time.as_str());
        res
    }

    /// The answer that reports this item as stored under `id`.
    pub fn into_response(self, id: String) -> (res: FeedItemResponse)
        ensures
            res@ == response_view(id@, self@),
    {
        FeedItemResponse { id, title: self.title, body: self.body, time: self.time }
    }
}

impl PartialEq for FeedItem {
    fn eq(&self, other: &FeedItem) -> (res: bool) {
        self.title == other.title && self.body == other.body && self.time == other.time
    }
}

impl vstd::std_specs::cmp::PartialEqSpecImpl for FeedItem {
    open spec fn obeys_eq_spec() -> bool {
        true
    }

    open spec fn eq_spec(&self, other: &FeedItem) -> bool {
        self@ == other@
    }
}

} // verus!
