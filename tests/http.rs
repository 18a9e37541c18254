use webxash3d_metamod::{
    asset_reply_head, client_name, error_response, get_content_type, http_reply, is_head_end,
    parse_request_line, preflight_reply, route, static_asset_path, url_decode, uuid_simple,
    AssetRefusal, HttpReply, RequestHead, Route,
};

const CORS: &str = "Access-Control-Allow-Origin: *\r\nAccess-Control-Allow-Methods: *\r\nAccess-Control-Allow-Headers: *\r\nAccess-Control-Max-Age: 86400";

#[test]
fn content_types() {
    assert_eq!(get_content_type("sound/a.wav"), "audio/wav");
    assert_eq!(get_content_type("x.MP3"), "audio/mpeg");
    assert_eq!(get_content_type("gfx/a.b.Bmp"), "image/bmp");
    assert_eq!(get_content_type("a.tga"), "image/x-tga");
    assert_eq!(get_content_type("a.png"), "image/png");
    assert_eq!(get_content_type("a.jpg"), "image/jpeg");
    assert_eq!(get_content_type("a.JPEG"), "image/jpeg");
    assert_eq!(get_content_type("maps/de_dust.res"), "text/plain");
    assert_eq!(get_content_type("a.txt"), "text/plain");
    assert_eq!(get_content_type("maps/de_dust.bsp"), "application/octet-stream");
    assert_eq!(get_content_type("models/p.mdl"), "application/octet-stream");
    assert_eq!(get_content_type("txt"), "text/plain");
    assert_eq!(get_content_type("noext"), "application/octet-stream");
    assert_eq!(get_content_type("a.wav."), "application/octet-stream");
    assert_eq!(get_content_type(""), "application/octet-stream");
}

#[test]
fn url_decoding() {
    assert_eq!(url_decode("a%20b"), "a b");
    assert_eq!(url_decode("a+b"), "a b");
    assert_eq!(url_decode("%41%62"), "Ab");
    assert_eq!(url_decode("%e9"), "\u{e9}");
    assert_eq!(url_decode("%zz1"), "%zz1");
    assert_eq!(url_decode("%+f"), "\u{f}");
    assert_eq!(url_decode("%+"), "%+");
    assert_eq!(url_decode("%a+"), "%a+");
    assert_eq!(url_decode("100%"), "100%");
    assert_eq!(url_decode("%4"), "%4");
    assert_eq!(url_decode("%é1"), "%é1");
    assert_eq!(url_decode(""), "");
}

#[test]
fn request_lines() {
    assert_eq!(
        parse_request_line("GET /health HTTP/1.1\r\n"),
        ("GET".to_string(), "/health".to_string())
    );
    assert_eq!(parse_request_line("  OPTIONS\t/x "), ("OPTIONS".to_string(), "/x".to_string()));
    assert_eq!(parse_request_line("POST"), ("POST".to_string(), "/".to_string()));
    assert_eq!(parse_request_line(" \r\n"), ("GET".to_string(), "/".to_string()));
}

#[test]
fn routes() {
    assert_eq!(route("OPTIONS", "/anything"), Route::Preflight);
    assert_eq!(route("GET", "/cstrike/sound/a.wav"), Route::StaticAsset);
    assert_eq!(route("GET", "/health"), Route::Health);
    assert_eq!(route("POST", "/health"), Route::NotFound);
    assert_eq!(route("GET", "/cstrike"), Route::NotFound);
}

#[test]
fn reply_texts() {
    assert_eq!(
        preflight_reply(),
        format!("HTTP/1.1 204 No Content\r\n{CORS}\r\nContent-Length: 0\r\nConnection: close\r\n\r\n")
    );
    assert_eq!(
        error_response("403 Forbidden", "Access denied"),
        format!("HTTP/1.1 403 Forbidden\r\n{CORS}\r\nContent-Type: text/plain\r\nContent-Length: 13\r\nConnection: close\r\n\r\nAccess denied")
    );
    assert_eq!(
        error_response("200 OK", "é"),
        format!("HTTP/1.1 200 OK\r\n{CORS}\r\nContent-Type: text/plain\r\nContent-Length: 2\r\nConnection: close\r\n\r\né")
    );
    assert_eq!(
        asset_reply_head("sound/a.wav", 1234),
        format!("HTTP/1.1 200 OK\r\n{CORS}\r\nContent-Type: audio/wav\r\nContent-Length: 1234\r\nConnection: close\r\n\r\n")
    );
}

#[test]
fn http_replies() {
    match http_reply("GET /health HTTP/1.1\r\n") {
        HttpReply::Text(t) => assert_eq!(
            t,
            format!("HTTP/1.1 200 OK\r\n{CORS}\r\nContent-Type: text/plain\r\nContent-Length: 2\r\nConnection: close\r\n\r\nOK")
        ),
        HttpReply::Asset(_) => panic!("expected text"),
    }
    match http_reply("GET /nope HTTP/1.1\r\n") {
        HttpReply::Text(t) => assert!(t.starts_with("HTTP/1.1 404 Not Found\r\n") && t.ends_with("Not Found")),
        HttpReply::Asset(_) => panic!("expected text"),
    }
    match http_reply("OPTIONS / HTTP/1.1\r\n") {
        HttpReply::Text(t) => assert_eq!(t, preflight_reply()),
        HttpReply::Asset(_) => panic!("expected text"),
    }
    match http_reply("GET /cstrike/gfx/a.tga HTTP/1.1\r\n") {
        HttpReply::Asset(p) => assert_eq!(p, "/cstrike/gfx/a.tga"),
        HttpReply::Text(_) => panic!("expected an asset"),
    }
}

#[test]
fn asset_paths() {
    assert_eq!(static_asset_path("/cstrike/sound/a%20b.wav"), Ok("sound/a b.wav".to_string()));
    assert_eq!(static_asset_path("/cstrike/maps"), Ok("maps".to_string()));
    assert_eq!(static_asset_path("/cstrike/sound/../x"), Err(AssetRefusal::AccessDenied));
    assert_eq!(static_asset_path("/cstrike/%2e%2e/x"), Err(AssetRefusal::AccessDenied));
    assert_eq!(static_asset_path("/cstrike//etc"), Err(AssetRefusal::AccessDenied));
    assert_eq!(static_asset_path("/cstrike/dlls/mp.so"), Err(AssetRefusal::FolderNotAllowed));
    assert_eq!(static_asset_path("/cstrike/Sound/a.wav"), Err(AssetRefusal::FolderNotAllowed));
    assert_eq!(static_asset_path("/other/sound"), Err(AssetRefusal::FolderNotAllowed));
    assert_eq!(AssetRefusal::AccessDenied.message(), "Access denied");
    assert_eq!(AssetRefusal::FolderNotAllowed.message(), "Folder not allowed");
}

#[test]
fn websocket_upgrade_detection() {
    let mut h = RequestHead::new("GET /ws HTTP/1.1\r\n");
    assert!(!h.is_websocket_upgrade());
    h.add_header("Host: example\r\n");
    h.add_header("UPGRADE: WebSocket\r\n");
    assert!(!h.is_websocket_upgrade());
    h.add_header("Sec-WebSocket-Key: dGhlIHNhbXBsZQ== \r\n");
    assert!(h.is_websocket_upgrade());

    let mut h = RequestHead::new("GET /websocket HTTP/1.1");
    h.add_header("upgrade: websocket");
    h.add_header("sec-websocket-key:   \r\n");
    assert!(!h.is_websocket_upgrade());

    let mut h = RequestHead::new("GET /health HTTP/1.1");
    h.add_header("upgrade: websocket");
    h.add_header("sec-websocket-key: k");
    assert!(!h.is_websocket_upgrade());
}

#[test]
fn head_end_lines() {
    assert!(is_head_end(0, "x"));
    assert!(is_head_end(2, "\r\n"));
    assert!(is_head_end(1, "\n"));
    assert!(!is_head_end(3, "a\r\n"));
}

#[test]
fn time_tokens() {
    assert_eq!(uuid_simple(0, 0), "00");
    assert_eq!(uuid_simple(0x65a1b2c3, 255), "65a1b2c3ff");
    assert_eq!(uuid_simple(u64::MAX, 16), "ffffffffffffffff10");
    assert_eq!(client_name("10.0.0.2:5555", 26, 1), "10.0.0.2:5555-1a1");
}
