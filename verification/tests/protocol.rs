//! Tests of the request/response protocol: URL building and the
//! translation of HTTP outcomes into the error taxonomy.

use ig::error::Error;
use ig::protocol::{
    fetch_url, interpret_fetch_response, interpret_list_response, join_targets, list_url,
    status_is_success,
};

fn targets(names: &[&str]) -> Vec<String> {
    names.iter().map(|n| n.to_string()).collect()
}

#[test]
fn test_fetch_available_targets_ok() {
    let body = "target1\ntarget2\ntarget3\n";
    let url = list_url("");
    assert_eq!(url, "/list?format=lines");
    let response = interpret_list_response(200, body.to_string(), String::new());
    match response {
        Ok(listing) => assert_eq!(listing, body),
        Err(_) => panic!("a 200 listing answer must succeed"),
    }
}

#[test]
fn test_fetch_available_targets_bad_request() {
    let url = list_url("");
    assert_eq!(url, "/list?format=lines");
    let response = interpret_list_response(400, String::new(), "bad request".to_string());
    assert!(response.is_err());
    match response {
        Err(Error::Http { status, detail }) => {
            assert_eq!(status, Some(400));
            assert_eq!(detail, "bad request");
        }
        _ => panic!("a 400 listing answer must be a transport error"),
    }
}

#[test]
fn test_fetch_available_targets_server_error() {
    let url = list_url("");
    assert_eq!(url, "/list?format=lines");
    let response = interpret_list_response(500, String::new(), "server error".to_string());
    assert!(response.is_err());
    match response {
        Err(Error::Http { status, .. }) => assert_eq!(status, Some(500)),
        _ => panic!("a 500 listing answer must be a transport error"),
    }
}

#[test]
fn test_fetch_gitignore_ok() {
    let set = targets(&["target1", "target2", "target3"]);
    let body = "target1\ntarget2\ntarget3\n";
    let url = fetch_url("", &set);
    assert_eq!(url, "/target1,target2,target3");
    let joined = join_targets(&set);
    let response = interpret_fetch_response(200, body.to_string(), joined, String::new());
    match response {
        Ok(fetched) => assert_eq!(fetched, body),
        Err(_) => panic!("a 200 fetch answer must succeed"),
    }
}

#[test]
fn test_fetch_gitignore_bad_request() {
    let set = targets(&["target1", "target2", "target3"]);
    let url = fetch_url("", &set);
    assert_eq!(url, "/target1,target2,target3");
    let joined = join_targets(&set);
    let response =
        interpret_fetch_response(400, String::new(), joined, "bad request".to_string());
    assert!(response.is_err());
    match response {
        Err(Error::Http { status, detail }) => {
            assert_eq!(status, Some(400));
            assert_eq!(detail, "bad request");
        }
        _ => panic!("a 400 fetch answer must be a transport error"),
    }
}

#[test]
fn test_fetch_gitignore_server_error() {
    let set = targets(&["target1", "target2", "target3"]);
    let url = fetch_url("", &set);
    assert_eq!(url, "/target1,target2,target3");
    let joined = join_targets(&set);
    let response =
        interpret_fetch_response(500, String::new(), joined, "server error".to_string());
    assert!(response.is_err());
    match response {
        Err(Error::Http { status, .. }) => assert_eq!(status, Some(500)),
        _ => panic!("a 500 fetch answer must be a transport error"),
    }
}

#[test]
fn fetch_not_found_names_the_whole_requested_set() {
    let set = targets(&["bogus"]);
    let joined = join_targets(&set);
    let response = interpret_fetch_response(404, String::new(), joined, String::new());
    match response {
        Err(Error::InvalidTarget(requested)) => assert_eq!(requested, "bogus"),
        _ => panic!("a 404 fetch answer must report the invalid target set"),
    }
}

#[test]
fn join_preserves_order() {
    assert_eq!(join_targets(&targets(&["python", "node"])), "python,node");
    assert_eq!(join_targets(&targets(&["node", "python"])), "node,python");
}

#[test]
fn join_single_and_empty() {
    assert_eq!(join_targets(&targets(&["python"])), "python");
    assert_eq!(join_targets(&targets(&[])), "");
}

#[test]
fn fetch_url_joins_under_base() {
    let set = targets(&["python", "node"]);
    assert_eq!(fetch_url("https://example.test/api", &set), "https://example.test/api/python,node");
}

#[test]
fn list_url_under_base() {
    assert_eq!(
        list_url("https://example.test/api"),
        "https://example.test/api/list?format=lines"
    );
}

#[test]
fn success_range_bounds() {
    assert!(!status_is_success(199));
    assert!(status_is_success(200));
    assert!(status_is_success(204));
    assert!(status_is_success(299));
    assert!(!status_is_success(300));
    assert!(!status_is_success(404));
    assert!(!status_is_success(500));
}
