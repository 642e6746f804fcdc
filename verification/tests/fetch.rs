use cargo_nav::{
    check_status, crate_info_from_document, crate_info_from_json, decode, determine_link, get_api_url,
    is_success, read_response, request_url, user_agent, CrateInfo, Destination, FetchError,
    ResolveError,
};
use serde_json::Value;

/// Answers as the registry does when it knows the crate: status 200 and
/// the given body.
fn get_crate_info(body: &str) -> Result<CrateInfo, FetchError> {
    read_response(200, body.as_bytes())
}

#[test]
fn test_get_crate_info_just_name() {
    let info = get_crate_info(r#"{"crate":{"name":"a"}}"#).unwrap();
    assert_eq!(info.name, "a");
    assert_eq!(info.homepage, None);
    assert_eq!(info.documentation, None);
    assert_eq!(info.repository, None);
}

#[test]
fn test_get_crate_info_all() {
    let info = get_crate_info(
        r#"{"crate":{"name":"a","homepage":"b","documentation":"c","repository":"d","other":"info"}}"#,
    )
    .unwrap();
    assert_eq!(info.name, "a");
    assert_eq!(info.homepage, Some("b".to_owned()));
    assert_eq!(info.documentation, Some("c".to_owned()));
    assert_eq!(info.repository, Some("d".to_owned()));
}

#[test]
fn test_get_crate_info_not_found() {
    let result = read_response(501, b"");
    assert!(result.is_err());
}

#[test]
fn api_url_and_request_url() {
    assert_eq!(get_api_url(), "https://crates.io/api/v1/crates");
    assert_eq!(
        request_url(&get_api_url(), "serde"),
        "https://crates.io/api/v1/crates/serde"
    );
    assert_eq!(request_url("http://127.0.0.1:1234", ""), "http://127.0.0.1:1234/");
}

#[test]
fn bad_status_differs_from_bad_body() {
    let body = br#"{"crate":{"name":"a"}}"#;
    assert_eq!(read_response(404, body), Err(FetchError::BadStatus(404)));
    assert_eq!(read_response(199, body), Err(FetchError::BadStatus(199)));
    assert_eq!(read_response(300, body), Err(FetchError::BadStatus(300)));
    assert_eq!(read_response(200, b"not json"), Err(FetchError::Decode));
    assert_ne!(read_response(500, b"not json"), read_response(200, b"not json"));
    assert!(read_response(299, body).is_ok());
}

#[test]
fn full_answer_end_to_end() {
    let body = br#"{"crate":{"name":"a","homepage":"b","documentation":"c","repository":"d"}}"#;
    let info = read_response(200, body).unwrap();
    assert_eq!(determine_link(&info, &Destination::Documentation), Ok("c".to_owned()));
    assert_eq!(determine_link(&info, &Destination::Repository), Ok("d".to_owned()));
    assert_eq!(
        determine_link(&info, &Destination::Crate),
        Ok("https://crates.io/crates/a".to_owned())
    );
}

#[test]
fn name_only_answer_end_to_end() {
    let info = read_response(200, br#"{"crate":{"name":"a"}}"#).unwrap();
    assert_eq!(
        determine_link(&info, &Destination::Homepage),
        Err(ResolveError::MissingLink("homepage".to_owned()))
    );
    assert_eq!(
        ResolveError::MissingLink("homepage".to_owned()).message(),
        "The homepage link isn't set for that crate."
    );
    assert_eq!(
        info.summary(),
        "no links found for crate 'a'; check https://crates.io/crates/a"
    );
}

#[test]
fn only_a_bad_status_is_an_error() {
    assert_eq!(check_status(200), Ok(()));
    assert_eq!(check_status(299), Ok(()));
    assert_eq!(check_status(199), Err(FetchError::BadStatus(199)));
    assert_eq!(check_status(300), Err(FetchError::BadStatus(300)));
    assert_eq!(check_status(501), Err(FetchError::BadStatus(501)));
}

#[test]
fn success_is_200_to_299() {
    assert!(!is_success(0));
    assert!(!is_success(199));
    assert!(is_success(200));
    assert!(is_success(204));
    assert!(is_success(299));
    assert!(!is_success(300));
    assert!(!is_success(404));
    assert!(!is_success(u16::MAX));
}

#[test]
fn fetch_error_messages() {
    assert_eq!(
        FetchError::BadStatus(404).message(),
        "Got bad status 404 from crates.io API"
    );
    assert_eq!(
        FetchError::BadStatus(0).message(),
        "Got bad status 0 from crates.io API"
    );
    assert_eq!(
        FetchError::BadStatus(65535).message(),
        "Got bad status 65535 from crates.io API"
    );
    assert_eq!(
        FetchError::Transport.message(),
        "Could not reach the crates.io API"
    );
    assert_eq!(
        FetchError::Decode.message(),
        "Could not read the answer of the crates.io API"
    );
}

#[test]
fn user_agent_names_the_program() {
    assert_eq!(user_agent(), "cargo-nav (https://github.com/celeo/cargo-nav)");
}

#[test]
fn null_and_missing_links_are_unset() {
    let info =
        decode(br#"{"crate":{"homepage":null,"name":"a","repository":"r","documentation":null}}"#)
            .unwrap();
    assert_eq!(
        info,
        CrateInfo {
            name: "a".to_owned(),
            homepage: None,
            documentation: None,
            repository: Some("r".to_owned()),
        }
    );
}

#[test]
fn member_order_does_not_matter() {
    let one = decode(br#"{"crate":{"name":"a","homepage":"h","repository":"r"}}"#).unwrap();
    let other = decode(br#"{"crate":{"repository":"r","homepage":"h","name":"a"}}"#).unwrap();
    assert_eq!(one, other);
    assert_eq!(one.summary(), "Homepage: h, Repository: r");
    assert_eq!(other.summary(), "Homepage: h, Repository: r");
}

#[test]
fn unknown_members_are_passed_over() {
    let plain = decode(br#"{"crate":{"name":"a","homepage":"b"}}"#).unwrap();
    let extended = decode(
        br#"{"versions":[1,2],"crate":{"downloads":7,"name":"a","homepage":"b","x":{"name":"z"}},"k":null}"#,
    )
    .unwrap();
    assert_eq!(plain, extended);
}

#[test]
fn bodies_that_do_not_decode() {
    let bodies: [&[u8]; 14] = [
        b"",
        b"not json",
        b"null",
        b"[]",
        b"{}",
        br#"{"crate":null}"#,
        br#"{"crate":"a"}"#,
        br#"{"crate":{}}"#,
        br#"{"crate":{"homepage":"b"}}"#,
        br#"{"crate":{"name":null}}"#,
        br#"{"crate":{"name":7}}"#,
        br#"{"crate":{"name":""}}"#,
        br#"{"crate":{"name":"","homepage":"b"}}"#,
        br#"{"crate":{"name":"a"}} trailing"#,
    ];
    for body in bodies {
        assert_eq!(decode(body), Err(FetchError::Decode));
        assert_eq!(read_response(200, body), Err(FetchError::Decode));
    }
    for body in [
        &br#"{"crate":{"name":"a","homepage":7}}"#[..],
        &br#"{"crate":{"name":"a","documentation":["d"]}}"#[..],
        &br#"{"crate":{"name":"a","repository":{"url":"r"}}}"#[..],
        &br#"{"crate":{"name":"a","repository":false}}"#[..],
    ] {
        assert_eq!(decode(body), Err(FetchError::Decode));
    }
}

#[test]
fn links_are_taken_as_they_are() {
    let info = decode(
        br#"{"crate":{"name":" ","homepage":"","documentation":" not a url ","repository":"\u00e9\n"}}"#,
    )
    .unwrap();
    assert_eq!(info.name, " ");
    assert_eq!(info.homepage, Some(String::new()));
    assert_eq!(info.documentation, Some(" not a url ".to_owned()));
    assert_eq!(info.repository, Some("\u{e9}\n".to_owned()));
    assert_eq!(determine_link(&info, &Destination::H), Ok(String::new()));
}

#[test]
fn decoded_values_are_read_like_bodies() {
    let document: Value =
        serde_json::from_str(r#"{"crate":{"name":"a","documentation":"c"},"other":1}"#).unwrap();
    let expected = CrateInfo {
        name: "a".to_owned(),
        homepage: None,
        documentation: Some("c".to_owned()),
        repository: None,
    };
    assert_eq!(crate_info_from_document(&document), Ok(expected.clone()));
    assert_eq!(crate_info_from_json(&document["crate"]), Ok(expected));
    assert_eq!(crate_info_from_json(&document), Err(FetchError::Decode));
    assert_eq!(
        crate_info_from_document(&document["crate"]),
        Err(FetchError::Decode)
    );
    assert_eq!(
        crate_info_from_json(&Value::String("a".to_owned())),
        Err(FetchError::Decode)
    );
    assert_eq!(crate_info_from_document(&Value::Null), Err(FetchError::Decode));
}
