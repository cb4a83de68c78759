use blockchain_rpc_lib::rpc::{
    backend_port, backend_unreachable, backend_ws_scheme, backend_ws_url, forward_from_backend,
    forward_from_client, route_request, upstream_uri, CloseInfo, Incoming, Relay, RequestAction, WsFrame,
};

#[test]
fn routing_order() {
    assert_eq!(route_request(false, true, true, true, 0, 10), RequestAction::Deny);
    assert_eq!(route_request(true, true, true, true, 100, 10), RequestAction::WebSocket);
    assert_eq!(route_request(true, true, true, false, 5, 10), RequestAction::Forward);
    assert_eq!(route_request(true, false, false, false, 11, 10), RequestAction::PayloadTooLarge);
    assert_eq!(route_request(true, false, false, false, 10, 10), RequestAction::Forward);
}

#[test]
fn upstream_targets() {
    assert_eq!(upstream_uri("http://backend:9944/", Some("/")), "http://backend:9944/");
    assert_eq!(upstream_uri("http://backend:9944", Some("/rpc?x=1")), "http://backend:9944/rpc?x=1");
    assert_eq!(upstream_uri("http://backend:9944///", None), "http://backend:9944/");
    assert_eq!(upstream_uri("", None), "/");
}

#[test]
fn backend_websocket_endpoint() {
    assert_eq!(backend_ws_scheme("https"), "wss");
    assert_eq!(backend_ws_scheme("wss"), "wss");
    assert_eq!(backend_ws_scheme("http"), "ws");
    assert_eq!(backend_ws_url("https", Some("node.example"), "/ws"), "wss://node.example/ws");
    assert_eq!(backend_ws_url("http", None, "/"), "ws://localhost/");
    assert_eq!(backend_port(Some(9944)), 9944);
    assert_eq!(backend_port(None), 80);
}

#[test]
fn text_round_trip_through_bridge() {
    let hello = WsFrame::Text("hello".to_string());
    assert_eq!(forward_from_client(Incoming::Frame(hello.clone())), Relay::Forward(hello.clone()));
    assert_eq!(forward_from_backend(Incoming::Frame(hello.clone())), Relay::Forward(hello));
    let bye = WsFrame::Close(Some(CloseInfo { code: 1000, reason: "bye".to_string() }));
    assert_eq!(forward_from_client(Incoming::Frame(bye)), Relay::CloseAndStop(WsFrame::Close(None)));
}

#[test]
fn data_frames_pass_unchanged() {
    let frames = vec![
        WsFrame::Text("a".to_string()),
        WsFrame::Binary(vec![0, 1, 2, 255]),
        WsFrame::Ping(vec![9]),
        WsFrame::Pong(vec![]),
        WsFrame::Text(String::new()),
    ];
    for f in frames {
        assert_eq!(forward_from_client(Incoming::Frame(f.clone())), Relay::Forward(f.clone()));
        assert_eq!(forward_from_backend(Incoming::Frame(f.clone())), Relay::Forward(f));
    }
}

#[test]
fn backend_close_is_preserved() {
    let close = WsFrame::Close(Some(CloseInfo { code: 4001, reason: "maintenance".to_string() }));
    assert_eq!(forward_from_backend(Incoming::Frame(close.clone())), Relay::CloseAndStop(close));
    assert_eq!(
        forward_from_backend(Incoming::Frame(WsFrame::Close(None))),
        Relay::CloseAndStop(WsFrame::Close(None))
    );
    assert_eq!(forward_from_backend(Incoming::Frame(WsFrame::Raw)), Relay::Ignore);
}

#[test]
fn failures_close_the_bridge() {
    assert_eq!(forward_from_client(Incoming::Failed), Relay::CloseAndStop(WsFrame::Close(None)));
    assert_eq!(
        forward_from_backend(Incoming::Failed),
        Relay::CloseAndStop(WsFrame::Close(Some(CloseInfo { code: 1011, reason: "Backend error".to_string() })))
    );
    assert_eq!(
        backend_unreachable(true),
        WsFrame::Close(Some(CloseInfo { code: 1002, reason: "Backend connection failed".to_string() }))
    );
    assert_eq!(
        backend_unreachable(false),
        WsFrame::Close(Some(CloseInfo { code: 1002, reason: "Backend handshake failed".to_string() }))
    );
}
