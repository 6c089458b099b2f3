use luneweb::response::{
    lua_table_to_headers, LuaResponse, LuaResponseKind, LuaResponseValue, ResponseError,
};

fn entry(name: &str, value: &[u8]) -> (String, Vec<u8>) {
    (name.to_string(), value.to_vec())
}

#[test]
fn headers_are_normalized_in_order() {
    let h = lua_table_to_headers(Some(vec![
        entry("Content-Type", b"text/html"),
        entry("X-Custom", b"a"),
        entry("x-custom", b"b"),
    ]))
    .unwrap();
    assert_eq!(
        h,
        vec![
            entry("content-type", b"text/html"),
            entry("x-custom", b"a"),
            entry("x-custom", b"b"),
        ]
    );
}

#[test]
fn no_headers_table_gives_none() {
    assert_eq!(lua_table_to_headers(None), Ok(vec![]));
}

#[test]
fn invalid_header_name_is_refused() {
    assert_eq!(
        lua_table_to_headers(Some(vec![entry("bad name", b"v")])),
        Err(ResponseError::InvalidHeaderName)
    );
    assert_eq!(
        lua_table_to_headers(Some(vec![entry("", b"v")])),
        Err(ResponseError::InvalidHeaderName)
    );
}

#[test]
fn invalid_header_value_is_refused() {
    assert_eq!(
        lua_table_to_headers(Some(vec![entry("ok", b"line\nbreak")])),
        Err(ResponseError::InvalidHeaderValue)
    );
    assert_eq!(
        lua_table_to_headers(Some(vec![entry("ok", b"tab\tis fine \x80")])),
        Ok(vec![entry("ok", b"tab\tis fine \x80")])
    );
}

#[test]
fn first_bad_entry_decides_error() {
    assert_eq!(
        lua_table_to_headers(Some(vec![entry("ok", b"\x7f"), entry("bad name", b"v")])),
        Err(ResponseError::InvalidHeaderValue)
    );
}

#[test]
fn string_response_is_plain_text() {
    let r = LuaResponse::from_lua(LuaResponseValue::Text(b"hello".to_vec())).unwrap();
    assert_eq!(r.kind, LuaResponseKind::PlainText);
    assert_eq!(r.status, 200);
    assert!(r.headers.is_empty());
    assert_eq!(r.body, Some(b"hello".to_vec()));
    let parts = r.into_response().unwrap();
    assert_eq!(parts.status, 200);
    assert_eq!(parts.headers, vec![entry("content-type", b"text/plain")]);
    assert_eq!(parts.body, b"hello".to_vec());
}

#[test]
fn table_response_defaults_status() {
    let r = LuaResponse::from_lua(LuaResponseValue::Table {
        status: None,
        headers: Some(vec![entry("X-A", b"1")]),
        body: Some(b"b".to_vec()),
    })
    .unwrap();
    assert_eq!(r.kind, LuaResponseKind::Table);
    assert_eq!(r.status, 200);
    let parts = r.into_response().unwrap();
    assert_eq!(parts.headers, vec![entry("x-a", b"1")]);
    assert_eq!(parts.body, b"b".to_vec());
}

#[test]
fn table_response_keeps_status() {
    let r = LuaResponse::from_lua(LuaResponseValue::Table {
        status: Some(404),
        headers: None,
        body: Some(vec![]),
    })
    .unwrap();
    assert_eq!(r.into_response().unwrap().status, 404);
}

#[test]
fn table_response_bad_status_is_refused() {
    for status in [0u16, 99, 1000] {
        let r = LuaResponse::from_lua(LuaResponseValue::Table {
            status: Some(status),
            headers: None,
            body: Some(vec![]),
        })
        .unwrap();
        assert_eq!(r.into_response().unwrap_err(), ResponseError::InvalidStatus(status));
    }
    let r = LuaResponse::from_lua(LuaResponseValue::Table {
        status: Some(999),
        headers: None,
        body: Some(vec![]),
    })
    .unwrap();
    assert_eq!(r.into_response().unwrap().status, 999);
}

#[test]
fn table_with_bad_header_is_refused() {
    let r = LuaResponse::from_lua(LuaResponseValue::Table {
        status: None,
        headers: Some(vec![entry("a b", b"1")]),
        body: None,
    });
    assert_eq!(r.unwrap_err(), ResponseError::InvalidHeaderName);
}

#[test]
fn other_value_is_not_a_response() {
    let r = LuaResponse::from_lua(LuaResponseValue::Other("number".to_string()));
    assert_eq!(r.unwrap_err(), ResponseError::NotAResponse("number".to_string()));
}

#[test]
fn header_name_length_limit() {
    let longest = "a".repeat(65535);
    assert_eq!(
        lua_table_to_headers(Some(vec![entry(&longest, b"v")])),
        Ok(vec![entry(&longest, b"v")])
    );
    let too_long = "a".repeat(65536);
    assert_eq!(
        lua_table_to_headers(Some(vec![entry(&too_long, b"v")])),
        Err(ResponseError::InvalidHeaderName)
    );
    assert_eq!(
        lua_table_to_headers(Some(vec![entry("caf\u{e9}", b"v")])),
        Err(ResponseError::InvalidHeaderName)
    );
}
