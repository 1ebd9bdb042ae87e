use redis_microsvc::api::home::{file_response, handle_embedded_file, AssetResponse};

#[test]
fn embedded_file_gets_its_mime_type() {
    match handle_embedded_file("index.html", Some(b"<html></html>".to_vec())) {
        AssetResponse::Found { content_type, body } => {
            assert_eq!(content_type, "text/html");
            assert_eq!(body, b"<html></html>".to_vec());
        }
        other => panic!("unexpected {:?}", other),
    }
    match handle_embedded_file("dist/app.js", Some(vec![1, 2])) {
        AssetResponse::Found { content_type, .. } => assert_eq!(content_type, "text/javascript"),
        other => panic!("unexpected {:?}", other),
    }
    match handle_embedded_file("dist/blob", Some(vec![])) {
        AssetResponse::Found { content_type, .. } => {
            assert_eq!(content_type, "application/octet-stream")
        }
        other => panic!("unexpected {:?}", other),
    }
}

#[test]
fn missing_file_is_not_found() {
    let resp = handle_embedded_file("index.html", None);
    assert_eq!(resp.status(), 404);
    match resp {
        AssetResponse::NotFound(m) => assert_eq!(m, "404 Not Found"),
        other => panic!("unexpected {:?}", other),
    }
    let found = file_response("text/css".to_string(), Some(vec![7]));
    assert_eq!(found.status(), 200);
    match found {
        AssetResponse::Found { content_type, body } => {
            assert_eq!(content_type, "text/css");
            assert_eq!(body, vec![7]);
        }
        other => panic!("unexpected {:?}", other),
    }
}
