use redis_microsvc::api::feed::{
    add_item, delete_item_by_id, delete_item_command, edit_item, extract_id, extract_values, keyed_item,
    get_all_items, get_all_items_command, get_item_by_id, get_item_command, list_items, new_item,
    stored_item_response, FeedResponse, StoreRequest,
};
use redis_microsvc::{FeedItem, FeedItemRequest, RespValue};

fn bulk(s: &str) -> RespValue {
    RespValue::BulkString(s.as_bytes().to_vec())
}

fn request(title: &str, body: &str) -> FeedItemRequest {
    FeedItemRequest { title: title.to_string(), body: body.to_string() }
}

#[test]
fn test_extract_values() {
    let input = Some(RespValue::BulkString("one🤔two🤔three".as_bytes().to_vec()));
    let output = extract_values(input);
    assert_eq!(output.0, "one".to_string());
    assert_eq!(output.1, "two".to_string());
    assert_eq!(output.2, "three".to_string());

    let input = Some(RespValue::BulkString("something".as_bytes().to_vec()));
    let output = extract_values(input);
    assert_eq!(output.0, "".to_string());
    assert_eq!(output.1, "".to_string());
    assert_eq!(output.2, "".to_string());

    let input = Some(RespValue::Array(vec![RespValue::BulkString(
        "something".as_bytes().to_vec(),
    )]));
    let output = extract_values(input);
    assert_eq!(output.0, "".to_string());
    assert_eq!(output.1, "".to_string());
    assert_eq!(output.2, "".to_string());

    let input = Some(RespValue::Error("error".to_string()));
    let output = extract_values(input);
    assert_eq!(output.0, "".to_string());
    assert_eq!(output.1, "".to_string());
    assert_eq!(output.2, "".to_string());

    let input = None;
    let output = extract_values(input);
    assert_eq!(output.0, "".to_string());
    assert_eq!(output.1, "".to_string());
    assert_eq!(output.2, "".to_string());
}

#[test]
fn test_extract_id() {
    let input = Some(RespValue::BulkString("an id".as_bytes().to_vec()));
    let output = extract_id(input);
    assert_eq!(output, "an id".to_string());

    let input = None;
    let output = extract_id(input);
    assert_eq!(output, "".to_string());

    let input = Some(RespValue::Error("error".to_string()));
    let output = extract_id(input);
    assert_eq!(output, "".to_string());

    let input = Some(RespValue::Array(vec![RespValue::BulkString(
        "something".as_bytes().to_vec(),
    )]));
    let output = extract_id(input);
    assert_eq!(output, "".to_string());
}

#[test]
fn extract_values_rejects_four_fields_and_invalid_utf8() {
    let output = extract_values(Some(bulk("a🤔b🤔c🤔d")));
    assert_eq!(output, ("".to_string(), "".to_string(), "".to_string()));
    let output = extract_values(Some(RespValue::BulkString(vec![0xff, 0xfe])));
    assert_eq!(output, ("".to_string(), "".to_string(), "".to_string()));
    let output = extract_values(Some(bulk("🤔🤔")));
    assert_eq!(output, ("".to_string(), "".to_string(), "".to_string()));
    let output = extract_values(Some(bulk("ä🤔ö🤔ü")));
    assert_eq!(output, ("ä".to_string(), "ö".to_string(), "ü".to_string()));
}

#[test]
fn extract_id_rejects_invalid_utf8_and_other_replies() {
    assert_eq!(extract_id(Some(RespValue::BulkString(vec![0xc3]))), "");
    assert_eq!(extract_id(Some(RespValue::Integer(3))), "");
    assert_eq!(extract_id(Some(RespValue::SimpleString("OK".to_string()))), "");
    assert_eq!(extract_id(Some(RespValue::Nil)), "");
    assert_eq!(extract_id(Some(bulk("idé"))), "idé");
}

#[test]
fn get_item_by_id_answers_each_reply() {
    match get_item_by_id("abc".to_string(), Ok(bulk("t🤔b🤔2020"))) {
        FeedResponse::Item(r) => {
            assert_eq!(r.id, "abc");
            assert_eq!(r.title, "t");
            assert_eq!(r.body, "b");
            assert_eq!(r.time, "2020");
        }
        other => panic!("unexpected {:?}", other),
    }
    let nil = get_item_by_id("abc".to_string(), Ok(RespValue::Nil));
    assert_eq!(nil.status(), 404);
    assert_eq!(nil.content_type(), Some("text/plain"));
    match nil {
        FeedResponse::NotFound(m) => assert_eq!(m, "no record found with that ID"),
        other => panic!("unexpected {:?}", other),
    }
    match get_item_by_id("abc".to_string(), Ok(RespValue::BulkString(vec![0xf0, 0x28]))) {
        FeedResponse::NotFound(m) => assert_eq!(m, "not found"),
        other => panic!("unexpected {:?}", other),
    }
    let two = get_item_by_id("abc".to_string(), Ok(bulk("t🤔b")));
    assert!(matches!(two, FeedResponse::ServerError));
    assert_eq!(two.status(), 500);
    assert_eq!(two.content_type(), None);
    assert!(matches!(
        get_item_by_id("abc".to_string(), Ok(RespValue::Integer(1))),
        FeedResponse::ServerError
    ));
    assert!(matches!(
        get_item_by_id("abc".to_string(), Err("mailbox closed".to_string())),
        FeedResponse::ServerError
    ));
}

#[test]
fn read_after_write_gives_the_item_back() {
    let item = FeedItem {
        title: "some title idk".to_string(),
        body: "some data to be stored".to_string(),
        time: "2019-08-03 23:37:58.433466200 +00:00".to_string(),
    };
    let stored = item.to_record();
    assert_eq!(
        stored,
        "some title idk🤔some data to be stored🤔2019-08-03 23:37:58.433466200 +00:00"
    );
    let resp = get_item_by_id("6bc07307".to_string(), Ok(RespValue::BulkString(stored.into_bytes())));
    assert_eq!(resp.status(), 200);
    assert_eq!(resp.content_type(), Some("application/json"));
    match resp {
        FeedResponse::Item(r) => {
            assert_eq!(r.id, "6bc07307");
            assert_eq!(r.title, item.title);
            assert_eq!(r.body, item.body);
            assert_eq!(r.time, item.time);
        }
        other => panic!("unexpected {:?}", other),
    }
}

#[test]
fn read_after_write_fails_when_a_field_holds_the_separator() {
    let item = FeedItem {
        title: "a🤔b".to_string(),
        body: "body".to_string(),
        time: "now".to_string(),
    };
    let resp = get_item_by_id("k".to_string(), Ok(RespValue::BulkString(item.to_record().into_bytes())));
    assert!(matches!(resp, FeedResponse::ServerError));
}

#[test]
fn delete_item_by_id_answers_each_reply() {
    let deleted = delete_item_by_id(Ok(RespValue::Integer(1)));
    assert!(matches!(deleted, FeedResponse::Deleted(1)));
    assert_eq!(deleted.status(), 200);
    assert_eq!(deleted.content_type(), None);
    assert!(matches!(delete_item_by_id(Ok(RespValue::Integer(0))), FeedResponse::Deleted(0)));
    match delete_item_by_id(Ok(RespValue::Nil)) {
        FeedResponse::NotFound(m) => assert_eq!(m, "No record found with that ID"),
        other => panic!("unexpected {:?}", other),
    }
    assert!(matches!(delete_item_by_id(Ok(bulk("x"))), FeedResponse::ServerError));
    assert!(matches!(delete_item_by_id(Err("down".to_string())), FeedResponse::ServerError));
}

#[test]
fn get_all_items_pairs_keys_with_records() {
    let reply = RespValue::Array(vec![
        bulk("k1"),
        bulk("t1🤔b1🤔time1"),
        bulk("k2"),
        bulk("not a record"),
        bulk("k3"),
    ]);
    match get_all_items(Ok(reply)) {
        FeedResponse::Items(list) => {
            assert_eq!(list.items.len(), 3);
            assert_eq!(list.items[0].id, "k1");
            assert_eq!(list.items[0].title, "t1");
            assert_eq!(list.items[0].body, "b1");
            assert_eq!(list.items[0].time, "time1");
            assert_eq!(list.items[1].id, "k2");
            assert_eq!(list.items[1].title, "");
            assert_eq!(list.items[2].id, "k3");
            assert_eq!(list.items[2].time, "");
        }
        other => panic!("unexpected {:?}", other),
    }
    match get_all_items(Ok(RespValue::Nil)) {
        FeedResponse::Items(list) => assert!(list.items.is_empty()),
        other => panic!("unexpected {:?}", other),
    }
    assert!(matches!(get_all_items(Ok(RespValue::Integer(2))), FeedResponse::ServerError));
    assert!(matches!(get_all_items(Err("down".to_string())), FeedResponse::ServerError));
}

#[test]
fn list_after_writes_gives_every_item_in_order() {
    let a = FeedItem { title: "A".to_string(), body: "x".to_string(), time: "1".to_string() };
    let b = FeedItem { title: "B".to_string(), body: "y".to_string(), time: "2".to_string() };
    let reply = vec![
        bulk("id-a"),
        RespValue::BulkString(a.to_record().into_bytes()),
        bulk("id-b"),
        RespValue::BulkString(b.to_record().into_bytes()),
    ];
    let list = list_items(&reply);
    assert_eq!(list.items.len(), 2);
    assert_eq!(list.items[0].id, "id-a");
    assert_eq!(list.items[0].title, "A");
    assert_eq!(list.items[1].id, "id-b");
    assert_eq!(list.items[1].body, "y");
    assert_eq!(list.items[1].time, "2");
    assert_eq!(list_items(&Vec::new()).items.len(), 0);
}

#[test]
fn commands_name_the_feed_hash() {
    assert_eq!(get_item_command("abc"), vec!["HGET", "feeditems", "abc"]);
    assert_eq!(delete_item_command("abc"), vec!["HDEL", "feeditems", "abc"]);
    assert_eq!(get_all_items_command(), vec!["HGETALL", "feeditems"]);
    let store = StoreRequest {
        id: "k".to_string(),
        item: FeedItem { title: "t".to_string(), body: "b".to_string(), time: "n".to_string() },
    };
    assert_eq!(store.command(), vec!["HSET", "feeditems", "k", "t🤔b🤔n"]);
}

fn is_lower_guid(s: &str) -> bool {
    let chars: Vec<char> = s.chars().collect();
    chars.len() == 36
        && chars.iter().enumerate().all(|(i, c)| {
            if i == 8 || i == 13 || i == 18 || i == 23 {
                *c == '-'
            } else {
                c.is_ascii_digit() || ('a'..='f').contains(c)
            }
        })
}

fn digits(s: &str) -> bool {
    !s.is_empty() && s.chars().all(|c| c.is_ascii_digit())
}

fn is_local_time(s: &str) -> bool {
    let parts: Vec<&str> = s.split(' ').collect();
    if parts.len() != 3 {
        return false;
    }
    let date: Vec<&str> = parts[0].rsplitn(3, '-').collect();
    let clock: Vec<&str> = parts[1].splitn(2, '.').collect();
    let hms: Vec<&str> = clock[0].split(':').collect();
    let offset = parts[2];
    date.len() == 3
        && date[0].len() == 2 && digits(date[0])
        && date[1].len() == 2 && digits(date[1])
        && (date[2].len() == 4 && digits(date[2])
            || (date[2].len() >= 5
                && (date[2].starts_with('+') || date[2].starts_with('-'))
                && digits(&date[2][1..])))
        && hms.len() == 3
        && hms.iter().all(|p| p.len() == 2 && digits(p))
        && (clock.len() == 1 || [3, 6, 9].contains(&clock[1].len()) && digits(clock[1]))
        && (offset.starts_with('+') || offset.starts_with('-'))
        && [2, 3].contains(&offset[1..].split(':').count())
        && offset[1..].split(':').all(|p| p.len() == 2 && digits(p))
}

#[test]
fn add_item_stamps_time_and_fresh_lower_case_id() {
    let first = add_item(request("title", "body"));
    let second = add_item(request("title", "body"));
    assert!(is_lower_guid(&first.id), "{}", first.id);
    assert!(is_lower_guid(&second.id), "{}", second.id);
    assert_ne!(first.id, second.id);
    assert_eq!(first.item.title, "title");
    assert_eq!(first.item.body, "body");
    assert!(!first.item.time.is_empty());
    assert!(first.item.time.is_ascii());
    assert!(is_local_time(&first.item.time), "{}", first.item.time);
    let record = first.item.to_record();
    assert_eq!(extract_values(Some(RespValue::BulkString(record.into_bytes()))).2, first.item.time);
}

#[test]
fn edit_item_lower_cases_the_key() {
    let store = edit_item(request("t", "b"), "AbC-12");
    assert_eq!(store.id, "abc-12");
    assert_eq!(store.item.title, "t");
    assert_eq!(store.item.body, "b");
    assert!(store.item.time.is_ascii());
    assert!(is_local_time(&store.item.time), "{}", store.item.time);
    let store = edit_item(request("t", "b"), "ÀÉ");
    assert_eq!(store.id, "àé");
}

#[test]
fn stored_item_response_echoes_the_item() {
    let store = StoreRequest {
        id: "k".to_string(),
        item: new_item(request("t", "b"), "then".to_string()),
    };
    match stored_item_response(store, Ok(RespValue::Integer(1))) {
        FeedResponse::Item(r) => {
            assert_eq!(r.id, "k");
            assert_eq!(r.title, "t");
            assert_eq!(r.body, "b");
            assert_eq!(r.time, "then");
        }
        other => panic!("unexpected {:?}", other),
    }
    let store = StoreRequest {
        id: "k".to_string(),
        item: new_item(request("t", "b"), "then".to_string()),
    };
    assert!(matches!(stored_item_response(store, Err("down".to_string())), FeedResponse::ServerError));
}

#[test]
fn added_item_reads_back_under_its_key() {
    let store = add_item(request("hello", "world"));
    let record = store.command().pop().unwrap();
    let id = store.id.clone();
    match get_item_by_id(id.clone(), Ok(RespValue::BulkString(record.into_bytes()))) {
        FeedResponse::Item(r) => {
            assert_eq!(r.id, id);
            assert_eq!(r.title, "hello");
            assert_eq!(r.body, "world");
            assert_eq!(r.time, store.item.time);
        }
        other => panic!("unexpected {:?}", other),
    }
}

#[test]
fn keyed_item_lower_cases_the_drawn_guid() {
    let store = keyed_item(
        request("t", "b"),
        "2024-01-02 03:04:05 +00:00".to_string(),
        "6BC07307-3D70-11D4-A3D8-CB2CE9AC0869",
    );
    assert_eq!(store.id, "6bc07307-3d70-11d4-a3d8-cb2ce9ac0869");
    assert_eq!(store.item.title, "t");
    assert_eq!(store.item.body, "b");
    assert_eq!(store.item.time, "2024-01-02 03:04:05 +00:00");
    assert_eq!(
        store.command(),
        vec![
            "HSET",
            "feeditems",
            "6bc07307-3d70-11d4-a3d8-cb2ce9ac0869",
            "t🤔b🤔2024-01-02 03:04:05 +00:00"
        ]
    );
}
