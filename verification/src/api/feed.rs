//! What the feed endpoints answer: the Redis commands they send and the
//! response they make of each reply.

use vstd::prelude::*;
use vstd::utf8::{
    decode_utf8, encode_utf8, encode_utf8_decode_utf8, encode_utf8_valid_utf8, is_ascii_chars,
    valid_utf8,
};
use crate::model::{
    response_view, FeedItem, FeedItemRequest, FeedItemResponse, FeedItemResponseView,
    FeedItemView, FeedItemsResponse,
};
use crate::record::{join_fields, law_record_roundtrip, parse_record, record_fields, SEPARATOR};
use crate::clock::{is_local_time_text, local_time_now};
use crate::text::{ascii_lower, lowercased, to_lowercase};
use crate::resp::{fields_of, id_of, reply_fields, reply_id, text_of, RespValue};

verus! {

/// The response of a feed endpoint.
#[derive(Debug)]
pub enum FeedResponse {
    /// 200, one item as JSON.
    Item(FeedItemResponse),
    /// 200, the list of items as JSON.
    Items(FeedItemsResponse),
    /// 200, the number of fields that Redis removed, as text.
    Deleted(i64),
    /// 404, a plain-text message.
    NotFound(String),
    /// 500, no body.
    ServerError,
}

/// The value of a [`FeedResponse`].
pub enum FeedResponseView {
    Item(FeedItemResponseView),
    Items(Seq<FeedItemResponseView>),
    Deleted(i64),
    NotFound(Seq<char>),
    ServerError,
}

impl View for FeedResponse {
    type V = FeedResponseView;

    open spec fn view(&self) -> FeedResponseView {
        match self {
            FeedResponse::Item(r) => FeedResponseView::Item(r@),
            FeedResponse::Items(rs) => FeedResponseView::Items(rs@),
            FeedResponse::Deleted(n) => FeedResponseView::Deleted(*n),
            FeedResponse::NotFound(m) => FeedResponseView::NotFound(m@),
            FeedResponse::ServerError => FeedResponseView::ServerError,
        }
    }
}

/// The HTTP status of a response.
pub open spec fn status_of(r: FeedResponseView) -> u16 {
    match r {
        FeedResponseView::NotFound(_) => 404,
        FeedResponseView::ServerError => 500,
        _ => 200,
    }
}

impl FeedResponse {
    /// The HTTP status code of this response.
    pub fn status(&self) -> (res: u16)
        ensures
            res == status_of(self@),
            (self@ is Item || self@ is Items || self@ is Deleted) ==> res == 200,
            self@ is NotFound ==> res == 404,
            self@ is ServerError ==> res == 500,
    {
        match self {
            FeedResponse::NotFound(_) => 404,
            FeedResponse::ServerError => 500,
            _ => 200,
        }
    }

    /// The content type this response declares, if any.
    pub fn content_type(&self) -> (res: Option<&'static str>)
        ensures
            match self@ {
                FeedResponseView::Item(_) | FeedResponseView::Items(_) => res matches Some(
                    t,
                ) && t@ == "application/json"@,
                FeedResponseView::NotFound(_) => res matches Some(t) && t@ == "text/plain"@,
                _ => res is None,
            },
    {
        match self {
            FeedResponse::Item(_) | FeedResponse::Items(_) => Some("application/json"),
            FeedResponse::NotFound(_) => Some("text/plain"),
            _ => None,
        }
    }
}

/// The arguments of a Redis command, as texts.
pub open spec fn args_view(args: Vec<String>) -> Seq<Seq<char>> {
    args@.map_values(|a: String| a@)
}

/// The name of the Redis hash that holds the feed.
pub open spec fn feed_key() -> Seq<char> {
    "feeditems"@
}

/// The command that reads one item.
pub fn get_item_command(id: &str) -> (args: Vec<String>)
    ensures
        args_view(args) == seq!["HGET"@, feed_key(), id@],
{
    let mut args: Vec<String> = Vec::new();
    args.push("HGET".to_owned());
    args.push("feeditems".to_owned());
    args.push(id.to_owned());
    args
}

/// The command that deletes one item.
pub fn delete_item_command(id: &str) -> (args: Vec<String>)
    ensures
        args_view(args) == seq!["HDEL"@, feed_key(), id@],
{
    let mut args: Vec<String> = Vec::new();
    args.push("HDEL".to_owned());
    args.push("feeditems".to_owned());
    args.push(id.to_owned());
    args
}

/// The command that reads the whole feed.
pub fn get_all_items_command() -> (args: Vec<String>)
    ensures
        args_view(args) == seq!["HGETALL"@, feed_key()],
{
    let mut args: Vec<String> = Vec::new();
    args.push("HGETALL".to_owned());
    args.push("feeditems".to_owned());
    args
}

/// The key held by a reply; the empty text when there is none.
pub fn extract_id(input: Option<RespValue>) -> (res: String)
    ensures
        res@ == reply_id(input),
{
    match input {
        Some(v) => id_of(&v),
        None => String::new(),
    }
}

/// The fields of the record held by a reply; three empty texts when there is
/// none.
pub fn extract_values(input: Option<RespValue>) -> (res: (String, String, String))
    ensures
        (res.0@, res.1@, res.2@) == reply_fields(input),
{
    match input {
        Some(v) => fields_of(&v),
        None => (String::new(), String::new(), String::new()),
    }
}

/// The answer to a read of the item `id`, given what the read returned.
pub open spec fn get_item_view(id: Seq<char>, reply: Result<RespValue, String>) -> FeedResponseView {
    match reply {
        Ok(RespValue::Nil) => FeedResponseView::NotFound("no record found with that ID"@),
        Ok(RespValue::BulkString(b)) => if !valid_utf8(b@) {
            FeedResponseView::NotFound("not found"@)
        } else {
            match record_fields(decode_utf8(b@)) {
                Some((title, body, time)) => FeedResponseView::Item(
                    FeedItemResponseView { id, title, body, time },
                ),
                None => FeedResponseView::ServerError,
            }
        },
        _ => FeedResponseView::ServerError,
    }
}

/// Answers a read of the item `id`: 404 when there is no such item or its
/// record is not UTF-8, the item when its record has three fields, 500
/// otherwise.
pub fn get_item_by_id(id: String, reply: Result<RespValue, String>) -> (res: FeedResponse)
    ensures
        res@ == get_item_view(id@, reply),
{
    match reply {
        Ok(RespValue::Nil) => FeedResponse::NotFound("no record found with that ID".to_owned()),
        Ok(v) => match v {
            RespValue::BulkString(_) => match text_of(&v) {
                None => FeedResponse::NotFound("not found".to_owned()),
                Some(s) => match parse_record(s) {
                    Some((title, body, time)) => FeedResponse::Item(
                        FeedItemResponse { id, title, body, time },
                    ),
                    None => FeedResponse::ServerError,
                },
            },
            _ => FeedResponse::ServerError,
        },
        Err(_) => FeedResponse::ServerError,
    }
}

/// The answer to a deletion, given what the deletion returned.
pub open spec fn delete_item_view(reply: Result<RespValue, String>) -> FeedResponseView {
    match reply {
        Ok(RespValue::Nil) => FeedResponseView::NotFound("No record found with that ID"@),
        Ok(RespValue::Integer(n)) => FeedResponseView::Deleted(n),
        _ => FeedResponseView::ServerError,
    }
}

/// Answers a deletion: the count that Redis returned, 404 on a nil reply,
/// 500 otherwise.
pub fn delete_item_by_id(reply: Result<RespValue, String>) -> (res: FeedResponse)
    ensures
        res@ == delete_item_view(reply),
        reply matches Ok(RespValue::Integer(n)) ==> res@ == FeedResponseView::Deleted(n),
{
    match reply {
        Ok(RespValue::Nil) => FeedResponse::NotFound("No record found with that ID".to_owned()),
        Ok(RespValue::Integer(n)) => FeedResponse::Deleted(n),
        _ => FeedResponse::ServerError,
    }
}

/// The items of an HGETALL reply: its elements taken two at a time, the
/// first of each pair the key and the second the record; a last element left
/// without a partner gives an item with empty fields.
pub open spec fn listing(x: Seq<RespValue>) -> Seq<FeedItemResponseView> {
    Seq::new(
        ((x.len() + 1) / 2) as nat,
        |k: int|
            {
                let fields = reply_fields(
                    if 2 * k + 1 < x.len() {
                        Some(x[2 * k + 1])
                    } else {
                        None
                    },
                );
                FeedItemResponseView {
                    id: reply_id(Some(x[2 * k])),
                    title: fields.0,
                    body: fields.1,
                    time: fields.2,
                }
            },
    )
}

/// The answer to a read of the whole feed, given what the read returned.
pub open spec fn get_all_items_view(reply: Result<RespValue, String>) -> FeedResponseView {
    match reply {
        Ok(RespValue::Array(x)) => FeedResponseView::Items(listing(x@)),
        Ok(RespValue::Nil) => FeedResponseView::Items(Seq::<FeedItemResponseView>::empty()),
        _ => FeedResponseView::ServerError,
    }
}

/// The items of an HGETALL reply, in the order of the reply.
pub fn list_items(x: &Vec<RespValue>) -> (res: FeedItemsResponse)
    ensures
        res@ == listing(x@),
{
    let n = x.len();
    let chunks = n / 2 + n % 2;
    let mut items: Vec<FeedItemResponse> = Vec::new();
    for k in 0..chunks
        invariant
            n == x@.len(),
            chunks == (n + 1) / 2,
            items@.len() == k,
            forall|j: int| 0 <= j < k ==> #[trigger] items@[j]@ == listing(x@)[j],
    {
        let i = 2 * k;
        let id = id_of(&x[i]);
        let (title, body, time) = if i + 1 < n {
            fields_of(&x[i + 1])
        } else {
            (String::new(), String::new(), String::new())
        };
        items.push(FeedItemResponse { id, title, body, time });
    }
    let res = FeedItemsResponse { items };
    assert(res@ == listing(x@));
    res
}

/// Answers a read of the whole feed: the listed items on an array reply, no
/// items on a nil reply, 500 otherwise.
pub fn get_all_items(reply: Result<RespValue, String>) -> (res: FeedResponse)
    ensures
        res@ == get_all_items_view(reply),
        reply matches Ok(RespValue::Array(x)) ==> res@ == FeedResponseView::Items(listing(x@)),
        reply matches Ok(RespValue::Nil) ==> res@ == FeedResponseView::Items(
            Seq::<FeedItemResponseView>::empty(),
        ),
{
    match reply {
        Ok(RespValue::Array(x)) => FeedResponse::Items(list_items(&x)),
        Ok(RespValue::Nil) => {
            let none = FeedItemsResponse { items: Vec::new() };
            assert(none@ == Seq::<FeedItemResponseView>::empty());
            FeedResponse::Items(none)
        },
        _ => FeedResponse::ServerError,
    }
}

/// `c` is a hexadecimal digit, in upper case or in lower case as `lower` says.
pub open spec fn is_hex_digit(c: char, lower: bool) -> bool {
    ('0' <= c <= '9') || (if lower {
        'a' <= c <= 'f'
    } else {
        'A' <= c <= 'F'
    })
}

/// `s` is a GUID in the form `XXXXXXXX-XXXX-XXXX-XXXX-XXXXXXXXXXXX` with
/// hexadecimal digits of the given case.
pub open spec fn is_guid_text(s: Seq<char>, lower: bool) -> bool {
    &&& s.len() == 36
    &&& forall|i: int|
        0 <= i < 36 ==> if i == 8 || i == 13 || i == 18 || i == 23 {
            #[trigger] s[i] == '-'
        } else {
            is_hex_digit(s[i], lower)
        }
}

/// `guid_create::GUID::rand().to_string()`: a random GUID. Every outcome is
/// written as eight, four, four, four and twelve upper-case hexadecimal digits
/// separated by dashes; which GUID it is, the contract leaves open.
#[verifier::external_body]
fn random_guid() -> (res: String)
    ensures
        is_guid_text(res@, false),
{
    guid_create::GUID::rand().to_string()
}

/// A write of one item under a key: what `add_item` and `edit_item` store.
#[derive(Debug)]
pub struct StoreRequest {
    pub id: String,
    pub item: FeedItem,
}

impl StoreRequest {
    /// The command that stores the item's record under its key.
    pub fn command(&self) -> (args: Vec<String>)
        ensures
            args_view(args) == seq![
                "HSET"@,
                feed_key(),
                self.id@,
                join_fields(self.item.title@, self.item.body@, self.item.time@),
            ],
    {
        let mut args: Vec<String> = Vec::new();
        args.push("HSET".to_owned());
        args.push("feeditems".to_owned());
        args.push(self.id.clone());
        args.push(self.item.to_record());
        args
    }
}

/// The item that a request asks to store, stamped with `time`.
pub fn new_item(req: FeedItemRequest, time: String) -> (item: FeedItem)
    ensures
        item@ == (FeedItemView { title: req@.title, body: req@.body, time: time@ }),
{
    FeedItem { title: req.title, body: req.body, time }
}

proof fn lemma_lower_guid(s: Seq<char>)
    requires
        is_guid_text(s, false),
    ensures
        is_ascii_chars(s),
        is_guid_text(ascii_lower(s), true),
{
    assert forall|i: int| 0 <= i < s.len() implies '\0' <= #[trigger] s[i] <= '\u{7f}' by {
        assert(i == 8 || i == 13 || i == 18 || i == 23 || is_hex_digit(s[i], false));
    }
    let l = ascii_lower(s);
    assert forall|i: int| 0 <= i < 36 implies if i == 8 || i == 13 || i == 18 || i == 23 {
        #[trigger] l[i] == '-'
    } else {
        is_hex_digit(l[i], true)
    } by {
        assert(i == 8 || i == 13 || i == 18 || i == 23 || is_hex_digit(s[i], false));
    }
}

/// The write of a new item: the request's title and body stamped with `time`,
/// under the key `guid` in lower case.
pub fn keyed_item(req: FeedItemRequest, time: String, guid: &str) -> (res: StoreRequest)
    ensures
        res.id@ == lowercased(guid@),
        is_ascii_chars(guid@) ==> res.id@ == ascii_lower(guid@),
        res.item@ == (FeedItemView { title: req@.title, body: req@.body, time: time@ }),
{
    let item = new_item(req, time);
    let id = to_lowercase(guid);
    StoreRequest { id, item }
}

/// A new item to store under a fresh key: the request's title and body
/// stamped with the current local time, under a random GUID in lower case.
pub fn add_item(req: FeedItemRequest) -> (res: StoreRequest)
    ensures
        res.item@.title == req@.title,
        res.item@.body == req@.body,
        is_ascii_chars(res.item@.time),
        is_local_time_text(res.item@.time),
        is_guid_text(res.id@, true),
        exists|guid: Seq<char>| is_guid_text(guid, false) && res.id@ == #[trigger] lowercased(guid),
{
    let time = local_time_now();
    let guid = random_guid();
    proof {
        lemma_lower_guid(guid@);
    }
    keyed_item(req, time, guid.as_str())
}

/// A new version of the item under the key `path_id`, in lower case: the
/// request's title and body stamped with the current local time.
pub fn edit_item(req: FeedItemRequest, path_id: &str) -> (res: StoreRequest)
    ensures
        res.item@.title == req@.title,
        res.item@.body == req@.body,
        is_ascii_chars(res.item@.time),
        is_local_time_text(res.item@.time),
        res.id@ == lowercased(path_id@),
{
    let time = local_time_now();
    keyed_item(req, time, path_id)
}

/// The answer to a write, given what the write returned.
pub open spec fn stored_item_view(
    id: Seq<char>,
    item: FeedItemView,
    reply: Result<RespValue, String>,
) -> FeedResponseView {
    match reply {
        Ok(_) => FeedResponseView::Item(response_view(id, item)),
        Err(_) => FeedResponseView::ServerError,
    }
}

/// Answers a write: the stored item under its key when Redis answered, 500
/// when the command failed.
pub fn stored_item_response(store: StoreRequest, reply: Result<RespValue, String>) -> (res: FeedResponse)
    ensures
        res@ == stored_item_view(store.id@, store.item@, reply),
        reply is Ok ==> res@ == FeedResponseView::Item(response_view(store.id@, store.item@)),
        reply is Err ==> res@ == FeedResponseView::ServerError,
{
    match reply {
        Ok(_) => FeedResponse::Item(store.item.into_response(store.id)),
        Err(_) => FeedResponse::ServerError,
    }
}

/// `v` is a bulk string of the UTF-8 bytes of the text `t`.
pub open spec fn holds_text(v: RespValue, t: Seq<char>) -> bool {
    v matches RespValue::BulkString(b) && b@ == encode_utf8(t)
}

/// An ASCII text, such as the time stamp of a new item, holds no separator.
pub proof fn lemma_ascii_has_no_separator(t: Seq<char>)
    requires
        is_ascii_chars(t),
    ensures
        !t.contains(SEPARATOR),
{
    if t.contains(SEPARATOR) {
        let k = choose|k: int| 0 <= k < t.len() && t[k] == SEPARATOR;
        assert('\0' <= t[k] <= '\u{7f}');
    }
}

/// Reading back a written item: when the hash holds, under `id`, the UTF-8
/// bytes of the item's record, the read answers that item under `id` if no
/// field holds the separator, and 500 if one does.
pub proof fn law_read_after_write(id: Seq<char>, item: FeedItemView, stored: Vec<u8>)
    requires
        stored@ == encode_utf8(join_fields(item.title, item.body, item.time)),
    ensures
        (!item.title.contains(SEPARATOR) && !item.body.contains(SEPARATOR)
            && !item.time.contains(SEPARATOR)) ==> get_item_view(id, Ok(RespValue::BulkString(stored)))
            == FeedResponseView::Item(response_view(id, item)) && status_of(
            get_item_view(id, Ok(RespValue::BulkString(stored))),
        ) == 200,
        (item.title.contains(SEPARATOR) || item.body.contains(SEPARATOR)
            || item.time.contains(SEPARATOR)) ==> get_item_view(id, Ok(RespValue::BulkString(stored)))
            == FeedResponseView::ServerError,
{
    let record = join_fields(item.title, item.body, item.time);
    encode_utf8_valid_utf8(record);
    encode_utf8_decode_utf8(record);
    law_record_roundtrip(item.title, item.body, item.time);
}

/// Reading back an item that `add_item` or `edit_item` made: its time stamp is
/// ASCII, so the read answers the item under `id` whenever the requested title
/// and body hold no separator.
pub proof fn law_new_item_reads_back(id: Seq<char>, item: FeedItemView, stored: Vec<u8>)
    requires
        is_ascii_chars(item.time),
        !item.title.contains(SEPARATOR),
        !item.body.contains(SEPARATOR),
        stored@ == encode_utf8(join_fields(item.title, item.body, item.time)),
    ensures
        get_item_view(id, Ok(RespValue::BulkString(stored))) == FeedResponseView::Item(
            response_view(id, item),
        ),
{
    lemma_ascii_has_no_separator(item.time);
    law_read_after_write(id, item, stored);
}

/// Listing what was written: an HGETALL reply that pairs the UTF-8 bytes of
/// each key with those of its item's record lists exactly those items, in
/// the order of the reply, when no field holds the separator.
pub proof fn law_list_after_writes(
    ids: Seq<Seq<char>>,
    items: Seq<FeedItemView>,
    reply: Vec<RespValue>,
)
    requires
        ids.len() == items.len(),
        reply@.len() == 2 * ids.len(),
        forall|k: int|
            0 <= k < ids.len() ==> holds_text(#[trigger] reply@[2 * k], ids[k]),
        forall|k: int|
            0 <= k < ids.len() ==> holds_text(
                #[trigger] reply@[2 * k + 1],
                join_fields(items[k].title, items[k].body, items[k].time),
            ),
        forall|k: int|
            0 <= k < items.len() ==> !(#[trigger] items[k]).title.contains(SEPARATOR)
                && !items[k].body.contains(SEPARATOR) && !items[k].time.contains(SEPARATOR),
    ensures
        get_all_items_view(Ok(RespValue::Array(reply))) == FeedResponseView::Items(
            Seq::new(ids.len(), |k: int| response_view(ids[k], items[k])),
        ),
{
    let x = reply@;
    let expected = Seq::new(ids.len(), |k: int| response_view(ids[k], items[k]));
    assert forall|k: int| 0 <= k < ids.len() implies #[trigger] listing(x)[k] == expected[k] by {
        let key = x[2 * k];
        let rec = x[2 * k + 1];
        let record = join_fields(items[k].title, items[k].body, items[k].time);
        encode_utf8_valid_utf8(ids[k]);
        encode_utf8_decode_utf8(ids[k]);
        encode_utf8_valid_utf8(record);
        encode_utf8_decode_utf8(record);
        law_record_roundtrip(items[k].title, items[k].body, items[k].time);
        assert(reply_id(Some(key)) == ids[k]);
        assert(reply_fields(Some(rec)) == (items[k].title, items[k].body, items[k].time));
    }
    assert(listing(x) == expected);
}

/// The HTTP status of an answer follows its kind alone: an item, a list or a
/// deletion count is 200 whatever it holds, a missing record 404, a failure
/// 500.
pub proof fn law_status_by_kind(r: FeedResponseView)
    ensures
        (status_of(r) == 200) <==> (r is Item || r is Items || r is Deleted),
        (status_of(r) == 404) <==> r is NotFound,
        (status_of(r) == 500) <==> r is ServerError,
{
}

/// Listing the feed succeeds on every array or nil reply: status 200, one
/// item per key/record pair (rounded up), each keyed by the pair's first
/// element.
pub proof fn law_listing_succeeds(x: Vec<RespValue>)
    ensures
        status_of(get_all_items_view(Ok(RespValue::Nil))) == 200,
        get_all_items_view(Ok(RespValue::Nil)) == FeedResponseView::Items(
            Seq::<FeedItemResponseView>::empty(),
        ),
        status_of(get_all_items_view(Ok(RespValue::Array(x)))) == 200,
        get_all_items_view(Ok(RespValue::Array(x))) matches FeedResponseView::Items(items)
            && items.len() == (x@.len() + 1) / 2 && forall|k: int|
            0 <= k < items.len() ==> (#[trigger] items[k]).id == reply_id(Some(x@[2 * k])),
{
}

/// A deletion that Redis answers with a count reports that count, with
/// status 200, whatever the count (0 when the key was not there).
pub proof fn law_delete_reports_count(n: i64)
    ensures
        delete_item_view(Ok(RespValue::Integer(n))) == FeedResponseView::Deleted(n),
        status_of(delete_item_view(Ok(RespValue::Integer(n)))) == 200,
{
}

/// A write that Redis answers, with any value (1 for a new key, 0 for an
/// updated one), reports the stored item under its key with status 200; a
/// write whose command failed reports 500.
pub proof fn law_write_acknowledged(id: Seq<char>, item: FeedItemView, v: RespValue, e: String)
    ensures
        stored_item_view(id, item, Ok(v)) == FeedResponseView::Item(response_view(id, item)),
        status_of(stored_item_view(id, item, Ok(v))) == 200,
        stored_item_view(id, item, Err(e)) == FeedResponseView::ServerError,
{
}

} // verus!
