use s3_file_manager::s3_client::{
    list_request, list_response, put_request, ListOutput, ListRequest, ListResponse, PutRequest,
    PUBLIC_READ_ACL, UPLOADS_ARE_PUBLIC,
};

/// A bucket that serves its keys in order, a page at a time. The cursor it
/// hands out is the position of the next key.
fn serve_page(keys: &[&str], request: &ListRequest) -> ListOutput {
    let from: usize = match &request.continuation_token {
        Some(token) => token.parse().unwrap(),
        None => 0,
    };
    let until = keys.len().min(from + request.max_keys as usize);
    let contents = keys[from..until]
        .iter()
        .map(|k| Some(k.to_string()))
        .collect::<Vec<_>>();
    ListOutput {
        contents: if contents.is_empty() {
            None
        } else {
            Some(contents)
        },
        next_continuation_token: if until < keys.len() {
            Some(until.to_string())
        } else {
            None
        },
    }
}

#[test]
fn list_request_for_the_first_page() {
    assert_eq!(
        list_request("photos", 100, None),
        ListRequest {
            bucket: "photos".to_string(),
            max_keys: 100,
            continuation_token: None
        }
    );
}

#[test]
fn list_request_resumes_at_the_cursor() {
    assert_eq!(
        list_request("photos", 2, Some("T".to_string())),
        ListRequest {
            bucket: "photos".to_string(),
            max_keys: 2,
            continuation_token: Some("T".to_string())
        }
    );
}

#[test]
fn list_response_keeps_keys_in_order() {
    let output = ListOutput {
        contents: Some(vec![
            Some("b.png".to_string()),
            Some("a.png".to_string()),
            Some("c.png".to_string()),
        ]),
        next_continuation_token: Some("next".to_string()),
    };
    assert_eq!(
        list_response(output),
        ListResponse {
            objects: vec![
                "b.png".to_string(),
                "a.png".to_string(),
                "c.png".to_string()
            ],
            continuation_token: Some("next".to_string()),
        }
    );
}

#[test]
fn list_response_skips_objects_without_key() {
    let output = ListOutput {
        contents: Some(vec![
            None,
            Some("k1".to_string()),
            None,
            None,
            Some("k2".to_string()),
            None,
        ]),
        next_continuation_token: None,
    };
    assert_eq!(
        list_response(output),
        ListResponse {
            objects: vec!["k1".to_string(), "k2".to_string()],
            continuation_token: None,
        }
    );
}

#[test]
fn list_response_of_a_reply_without_contents() {
    let output = ListOutput {
        contents: None,
        next_continuation_token: None,
    };
    assert_eq!(
        list_response(output),
        ListResponse {
            objects: vec![],
            continuation_token: None
        }
    );
}

#[test]
fn list_response_of_an_empty_page_keeps_the_cursor() {
    let output = ListOutput {
        contents: Some(vec![]),
        next_continuation_token: Some("more".to_string()),
    };
    assert_eq!(
        list_response(output),
        ListResponse {
            objects: vec![],
            continuation_token: Some("more".to_string())
        }
    );
}

#[test]
fn two_pages_of_three_keys() {
    let bucket = ["k1", "k2", "k3"];

    let first = list_response(serve_page(&bucket, &list_request("b", 2, None)));
    assert_eq!(first.objects, vec!["k1".to_string(), "k2".to_string()]);
    let token = first.continuation_token.clone();
    assert!(token.is_some());

    let second = list_response(serve_page(&bucket, &list_request("b", 2, token)));
    assert_eq!(
        second,
        ListResponse {
            objects: vec!["k3".to_string()],
            continuation_token: None
        }
    );
}

#[test]
fn put_request_made_public() {
    assert_eq!(PUBLIC_READ_ACL, "public-read");
    assert_eq!(
        put_request("photos", "a.png", vec![1, 2, 3], true),
        PutRequest {
            bucket: "photos".to_string(),
            key: "a.png".to_string(),
            body: vec![1, 2, 3],
            acl: Some("public-read".to_string()),
        }
    );
}

#[test]
fn uploads_are_public() {
    assert!(UPLOADS_ARE_PUBLIC);
    let request = put_request("photos", "a.png", vec![9], UPLOADS_ARE_PUBLIC);
    assert_eq!(request.acl, Some("public-read".to_string()));
}

#[test]
fn put_request_kept_private() {
    assert_eq!(
        put_request("photos", "a.png", vec![], false),
        PutRequest {
            bucket: "photos".to_string(),
            key: "a.png".to_string(),
            body: vec![],
            acl: None,
        }
    );
}
