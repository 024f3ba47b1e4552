//! MCP tools refuse without a live lease and talk to the guest only.

use base64::Engine;
use berthos::action::{action_argv, GuestOp};
use berthos::clock::Timestamp;
use berthos::json::{object1, object2, object3, string_array, Json};
use berthos::mcp::{
    api_from_response, parse_keys, read_document, read_json, require_i32, split_keys, CallStep,
    ClientConfig, ClientFile, HttpOutcome, Mcp, McpContent, McpError, Method, NodeClient,
    NodeRequest, ToolAction, ToolResult,
};
use berthos::rpc::RpcStep;
use berthos::session::{Lease, LeaseId, LeaseState, Quote};

const PNG: &[u8] = &[
    0x89, 0x50, 0x4E, 0x47, 0x0D, 0x0A, 0x1A, 0x0A, 0x00, 0x00, 0x00, 0x0D, 0x49, 0x48, 0x44, 0x52,
    0x00, 0x00, 0x00, 0x01, 0x00, 0x00, 0x00, 0x01, 0x08, 0x06, 0x00, 0x00, 0x00, 0x1F, 0x15, 0xC4,
    0x89, 0x00, 0x00, 0x00, 0x0A, 0x49, 0x44, 0x41, 0x54, 0x78, 0x9C, 0x63, 0x00, 0x01, 0x00, 0x00,
    0x05, 0x00, 0x01, 0x0D, 0x0A, 0x2D, 0xB4, 0x00, 0x00, 0x00, 0x00, 0x49, 0x45, 0x4E, 0x44, 0xAE,
    0x42, 0x60, 0x82,
];
const TOKEN: &str = "lease_secret";
const URL: &str = "http://127.0.0.1:7432/";

fn seed_pair(url: &str, token: &str) -> ClientFile {
    ClientFile::Read(ClientConfig {
        url: url.into(),
        token: token.into(),
    })
}

fn sample_lease() -> Lease {
    Lease {
        id: LeaseId("l_1".into()),
        state: LeaseState::Live,
        quote: Quote::linux_isolated(2, 4, 40).unwrap(),
        started_at: Timestamp::from_unix_timestamp(1_767_225_600).unwrap(),
        ended_at: None,
        viewer_url: Some("http://127.0.0.1:6080/".into()),
    }
}

fn json_answer(status: u16, body: &str) -> HttpOutcome {
    HttpOutcome::Answered {
        status,
        content_type: Some("application/json".into()),
        body: Ok(body.as_bytes().to_vec()),
    }
}

fn text_of(result: &ToolResult) -> String {
    result
        .content
        .iter()
        .filter_map(|c| match c {
            McpContent::Text { text } => Some(text.as_str()),
            McpContent::Image { .. } => None,
        })
        .collect::<Vec<_>>()
        .join("\n")
}

fn parse(text: &str) -> Json {
    Json::parse(text.as_bytes()).unwrap()
}

/// Runs a tool against a node that lists `leases` and answers an action with
/// `outcome`. Gives back the result and the requests that were sent.
fn run(
    name: &str,
    args: &Json,
    file: ClientFile,
    leases: Result<Vec<Lease>, McpError>,
    outcome: HttpOutcome,
) -> (ToolResult, Vec<NodeRequest>) {
    let mcp = Mcp::new("/home/berthos");
    let mut sent = vec![];
    let action = match mcp.call_tool(name, args) {
        CallStep::Finished(result) => return (result, sent),
        CallStep::ReadClient(action) => action,
        other => panic!("{other:?}"),
    };
    let (action, client) = match mcp.client_read(action, file) {
        CallStep::Finished(result) => return (result, sent),
        CallStep::ListLeases(action, client) => (action, client),
        other => panic!("{other:?}"),
    };
    sent.push(client.list_leases());
    let (action, client, id) = match mcp.leases_listed(action, client, leases) {
        CallStep::Finished(result) => return (result, sent),
        CallStep::Act(action, client, id) => (action, client, id),
        other => panic!("{other:?}"),
    };
    sent.push(client.action_request(&action, &id));
    (mcp.acted(&action, &client, &id, outcome), sent)
}

#[test]
fn initialize_and_tools_list() {
    let mcp = Mcp::new("/home/berthos");
    assert_eq!(mcp.home(), "/home/berthos");
    let init = match mcp.handle_line(
        r#"{"jsonrpc":"2.0","id":1,"method":"initialize","params":{"protocolVersion":"2024-11-05"}}"#,
    ) {
        RpcStep::Reply(json) => json,
        other => panic!("{other:?}"),
    };
    let server = init.get("result").and_then(|r| r.get("serverInfo")).unwrap();
    assert_eq!(server.text_field("name"), Some("berth"));
    let listed = match mcp.handle_line(r#"{"jsonrpc":"2.0","id":2,"method":"tools/list"}"#) {
        RpcStep::Reply(json) => json,
        other => panic!("{other:?}"),
    };
    let names: Vec<&str> = listed
        .get("result")
        .and_then(|r| r.get("tools"))
        .and_then(Json::as_array)
        .unwrap()
        .iter()
        .map(|t| t.text_field("name").unwrap())
        .collect();
    assert_eq!(
        names,
        [
            "berth_screenshot",
            "berth_click",
            "berth_type",
            "berth_key",
            "berth_end"
        ]
    );
}

#[test]
fn screenshot_without_pair_or_lease_fails() {
    let (result, sent) = run(
        "berth_screenshot",
        &parse("{}"),
        ClientFile::Unreadable,
        Ok(vec![]),
        HttpOutcome::Transport("unused".into()),
    );
    assert!(result.is_error);
    assert!(
        text_of(&result).contains("pair") || text_of(&result).contains("lease"),
        "{}",
        text_of(&result)
    );
    assert!(sent.is_empty());
}

#[test]
fn tools_refuse_when_lease_list_empty() {
    for name in [
        "berth_screenshot",
        "berth_click",
        "berth_type",
        "berth_key",
        "berth_end",
    ] {
        let args = match name {
            "berth_click" => parse(r#"{ "x": 1, "y": 2 }"#),
            "berth_type" => parse(r#"{ "text": "hi" }"#),
            "berth_key" => parse(r#"{ "keys": ["Return"] }"#),
            _ => parse("{}"),
        };
        let (result, sent) = run(
            name,
            &args,
            seed_pair(URL, TOKEN),
            Ok(vec![]),
            HttpOutcome::Transport("unused".into()),
        );
        assert!(result.is_error, "{name} {}", text_of(&result));
        assert!(
            text_of(&result).contains("no live lease"),
            "{name} {}",
            text_of(&result)
        );
        assert_eq!(sent.len(), 1);
        assert_eq!(sent[0].method, Method::Get);
        assert_eq!(sent[0].url, "http://127.0.0.1:7432/v1/leases");
        assert_eq!(sent[0].authorization, format!("Bearer {TOKEN}"));
    }
}

#[test]
fn screenshot_returns_guest_png() {
    let (result, sent) = run(
        "berth_screenshot",
        &parse("{}"),
        seed_pair(URL, TOKEN),
        Ok(vec![sample_lease()]),
        HttpOutcome::Answered {
            status: 200,
            content_type: Some("image/png".into()),
            body: Ok(PNG.to_vec()),
        },
    );
    assert!(!result.is_error, "{}", text_of(&result));
    assert_eq!(sent[1].method, Method::Get);
    assert_eq!(
        sent[1].url,
        "http://127.0.0.1:7432/v1/leases/l_1/screenshot"
    );
    assert_eq!(sent[1].authorization, format!("Bearer {TOKEN}"));
    match &result.content[0] {
        McpContent::Image { mime_type, data } => {
            assert_eq!(mime_type, "image/png");
            let raw = base64::engine::general_purpose::STANDARD
                .decode(data)
                .expect("b64");
            assert_eq!(raw, PNG);
        }
        other => panic!("{other:?}"),
    }
}

#[test]
fn click_type_go_to_guest_actions() {
    let (click, sent) = run(
        "berth_click",
        &parse(r#"{ "x": 10, "y": 20, "button": "right" }"#),
        seed_pair(URL, TOKEN),
        Ok(vec![sample_lease()]),
        json_answer(200, r#"{ "ok": true, "target": "guest" }"#),
    );
    assert!(!click.is_error, "{}", text_of(&click));
    assert_eq!(sent[1].method, Method::Post);
    assert_eq!(sent[1].url, "http://127.0.0.1:7432/v1/leases/l_1/actions");
    assert_eq!(sent[1].authorization, format!("Bearer {TOKEN}"));
    let body = sent[1].body.as_ref().unwrap();
    assert_eq!(body.text_field("op"), Some("click"));
    assert_eq!(body.get("x").and_then(Json::as_i64), Some(10));
    assert_eq!(body.get("y").and_then(Json::as_i64), Some(20));
    assert_eq!(body.text_field("button"), Some("right"));

    let (typed, sent) = run(
        "berth_type",
        &parse(r#"{ "text": "hello" }"#),
        seed_pair(URL, TOKEN),
        Ok(vec![sample_lease()]),
        json_answer(200, r#"{ "ok": true, "target": "guest" }"#),
    );
    assert!(!typed.is_error, "{}", text_of(&typed));
    let body = sent[1].body.as_ref().unwrap();
    assert_eq!(body.text_field("op"), Some("type"));
    assert_eq!(body.text_field("text"), Some("hello"));
}

#[test]
fn end_lease_deletes_live_guest() {
    let (ended, sent) = run(
        "berth_end",
        &parse("{}"),
        seed_pair(URL, TOKEN),
        Ok(vec![sample_lease()]),
        json_answer(200, r#"{ "lease_id": "l_1", "billed_seconds": 60 }"#),
    );
    assert!(!ended.is_error, "{}", text_of(&ended));
    assert!(text_of(&ended).contains("ended"));
    assert_eq!(sent[1].method, Method::Delete);
    assert_eq!(sent[1].url, "http://127.0.0.1:7432/v1/leases/l_1");
    assert_eq!(sent[1].authorization, format!("Bearer {TOKEN}"));
}

#[test]
fn unauthorized_token_is_error() {
    let listed = read_json(&json_answer(401, r#"{"error":"unknown pairing token"}"#));
    let refusal = match listed {
        Err(e) => e,
        Ok(_) => panic!("a refusal is no list"),
    };
    let (result, _) = run(
        "berth_screenshot",
        &parse("{}"),
        seed_pair(URL, "stale"),
        Err(refusal),
        HttpOutcome::Transport("unused".into()),
    );
    assert!(result.is_error);
    assert!(text_of(&result).contains("unknown pairing token"));
}

#[test]
fn a_lease_that_is_gone_needs_no_ending() {
    let end = |outcome| {
        run(
            "berth_end",
            &parse("{}"),
            seed_pair(URL, TOKEN),
            Ok(vec![sample_lease()]),
            outcome,
        )
        .0
    };
    let gone = end(json_answer(404, r#"{"error":"lease not found"}"#));
    assert!(!gone.is_error);
    assert_eq!(text_of(&gone), "lease l_1 gone");
    let failed = end(json_answer(500, "oops"));
    assert!(failed.is_error);
    assert_eq!(text_of(&failed), "http 500");
    let lost = end(HttpOutcome::Transport("refused".into()));
    assert_eq!(text_of(&lost), "could not reach node: refused");
}

#[test]
fn bad_arguments_are_refused_before_anything_is_sent() {
    for (name, args, text) in [
        ("berth_click", "{}", "x is required"),
        ("berth_click", r#"{"x":1}"#, "y is required"),
        ("berth_click", r#"{"x":"1","y":2}"#, "x must be an integer"),
        ("berth_click", r#"{"x":1.5,"y":2}"#, "x must be an integer"),
        ("berth_click", r#"{"x":2147483648,"y":2}"#, "x is out of range"),
        ("berth_type", "{}", "text is required"),
        ("berth_type", r#"{"text":""}"#, "text is empty"),
        ("berth_key", "{}", "keys is required"),
        ("berth_key", r#"{"keys":" + "}"#, "keys is empty"),
        ("berth_key", r#"{"keys":[1]}"#, "keys is empty"),
        ("berth_key", r#"{"keys":1}"#, "keys must be a string or array of strings"),
        ("berth_drag", "{}", "unknown tool `berth_drag`"),
    ] {
        let (result, sent) = run(
            name,
            &parse(args),
            seed_pair(URL, TOKEN),
            Ok(vec![sample_lease()]),
            HttpOutcome::Transport("unused".into()),
        );
        assert!(result.is_error, "{name} {args}");
        assert_eq!(text_of(&result), text, "{name} {args}");
        assert!(sent.is_empty());
    }
}

#[test]
fn clicks_are_left_clicks_by_default() {
    let (_, sent) = run(
        "berth_click",
        &parse(r#"{"x":-1,"y":2}"#),
        seed_pair(URL, TOKEN),
        Ok(vec![sample_lease()]),
        json_answer(200, "{}"),
    );
    let body = sent[1].body.as_ref().unwrap();
    assert_eq!(body.text_field("button"), Some("left"));
    assert_eq!(body.get("x").and_then(Json::as_i64), Some(-1));
}

#[test]
fn keys_are_chords() {
    assert_eq!(split_keys(" ctrl + s "), ["ctrl", "s"]);
    assert_eq!(split_keys("++a"), ["a"]);
    assert!(split_keys("").is_empty());
    let list = parse(r#"["ctrl+s", 1, "Return"]"#);
    assert_eq!(parse_keys(Some(&list)).unwrap(), ["ctrl", "s", "Return"]);
    let (_, sent) = run(
        "berth_key",
        &parse(r#"{"keys":"ctrl+alt+Delete"}"#),
        seed_pair(URL, TOKEN),
        Ok(vec![sample_lease()]),
        json_answer(200, "{}"),
    );
    let keys = sent[1].body.as_ref().unwrap().get("keys").unwrap();
    let keys: Vec<&str> = keys.as_array().unwrap().iter().filter_map(Json::as_str).collect();
    assert_eq!(keys, ["ctrl", "alt", "Delete"]);
}

#[test]
fn client_files() {
    let load = |file| match ClientConfig::load(file) {
        Ok(_) => String::new(),
        Err(e) => e.message(),
    };
    assert_eq!(load(seed_pair(URL, TOKEN)), "");
    assert_eq!(load(seed_pair(URL, "")), "client.toml has an empty token");
    assert_eq!(
        load(ClientFile::Unreadable),
        "not paired; run berth pair and create a linux lease"
    );
    assert_eq!(load(ClientFile::Malformed("bad".into())), "config: bad");
}

#[test]
fn answers_are_read() {
    assert!(matches!(
        read_document(204, None, Some(Json::Bool(true))),
        Ok(Json::Null)
    ));
    assert!(matches!(
        read_document(204, Some("application/json; charset=utf-8"), Some(Json::Bool(true))),
        Ok(Json::Bool(true))
    ));
    assert!(matches!(read_document(200, None, None), Ok(Json::Null)));
    assert!(matches!(read_document(302, None, None), Err(McpError::Api { status: 302, .. })));
    assert_eq!(
        api_from_response(418, Some(&object1("error", Json::string("teapot")))).message(),
        "teapot"
    );
    assert_eq!(api_from_response(418, None).message(), "http 418");
    let broken = HttpOutcome::Answered {
        status: 200,
        content_type: None,
        body: Err("reset".into()),
    };
    let client = NodeClient {
        url: URL.into(),
        token: TOKEN.into(),
    };
    assert_eq!(client.get_bytes(broken).unwrap_err().message(), "io: reset");
    assert_eq!(McpError::Json("x".into()).message(), "json: x");
}

#[test]
fn long_pictures_are_cut() {
    let client = NodeClient {
        url: URL.into(),
        token: TOKEN.into(),
    };
    let long = HttpOutcome::Answered {
        status: 200,
        content_type: None,
        body: Ok(vec![7; 8 * 1024 * 1024 + 1]),
    };
    assert_eq!(client.get_bytes(long).unwrap().len(), 8 * 1024 * 1024);
}

#[test]
fn integers_at_the_edge() {
    let args = parse(r#"{"a":-2147483648,"b":2147483647,"c":-2147483649}"#);
    assert_eq!(require_i32(&args, "a"), Ok(i32::MIN));
    assert_eq!(require_i32(&args, "b"), Ok(i32::MAX));
    assert_eq!(require_i32(&args, "c").unwrap_err().message(), "c is out of range");
}

fn reply(line: &str) -> Option<Json> {
    match Mcp::new("h").handle_line(line) {
        RpcStep::Reply(json) => Some(json),
        RpcStep::Silent => None,
        other => panic!("{other:?}"),
    }
}

fn code_of(json: &Json) -> Option<i64> {
    json.get("error").and_then(|e| e.get("code")).and_then(Json::as_i64)
}

#[test]
fn replies_carry_the_id() {
    let ping = reply(r#"{"id":"abc","method":"ping"}"#).unwrap();
    assert_eq!(ping.text_field("id"), Some("abc"));
    assert_eq!(ping.text_field("jsonrpc"), Some("2.0"));
    let unknown = reply(r#"{"id":7,"method":"nope"}"#).unwrap();
    assert_eq!(unknown.get("id").and_then(Json::as_i64), Some(7));
    assert_eq!(code_of(&unknown), Some(-32601));
    assert_eq!(
        unknown.get("error").and_then(|e| e.text_field("message")),
        Some("method not found: nope")
    );
}

#[test]
fn notifications_are_not_answered() {
    assert!(reply(r#"{"method":"notifications/initialized"}"#).is_none());
    assert!(reply(r#"{"id":1,"method":"initialized"}"#).is_none());
    for method in ["ping", "initialize", "tools/list", "nope"] {
        let line = format!(r#"{{"jsonrpc":"2.0","method":"{method}"}}"#);
        assert!(reply(&line).is_none(), "{method}");
        let line = format!(r#"{{"jsonrpc":"2.0","id":null,"method":"{method}"}}"#);
        assert!(reply(&line).is_some(), "{method}");
    }
    assert!(reply(r#"{"method":"nope"}"#).is_none());
    assert!(reply("   ").is_none());
}

#[test]
fn a_notification_calls_its_tool_and_gets_no_reply() {
    let mcp = Mcp::new("h");
    let line = r#"{"method":"tools/call","params":{"name":"berth_end"}}"#;
    match mcp.handle_line(line) {
        RpcStep::Call { id, name, arguments } => {
            assert!(id.is_none());
            assert_eq!(name, "berth_end");
            assert_eq!(arguments, Json::Object(vec![]));
            assert!(mcp.called(id, &ToolResult::text("yes")).is_none());
        }
        other => panic!("{other:?}"),
    }
    let null = mcp.called(Some(Json::Null), &ToolResult::text("yes")).unwrap();
    assert_eq!(null.get("id"), Some(&Json::Null));
}

#[test]
fn messages_that_are_none_are_errors() {
    let invalid = reply(r#"{"id":1}"#).unwrap();
    assert_eq!(code_of(&invalid), Some(-32600));
    assert_eq!(code_of(&reply("[]").unwrap()), Some(-32600));
    let broken = reply("{").unwrap();
    assert_eq!(code_of(&broken), Some(-32700));
    assert!(matches!(broken.get("id"), Some(Json::Null)));
    let message = broken.get("error").and_then(|e| e.text_field("message")).unwrap();
    assert!(message.starts_with("parse error: "), "{message}");
}

#[test]
fn tool_calls_are_framed() {
    let mcp = Mcp::new("h");
    let line = r#"{"id":3,"method":"tools/call","params":{"name":"berth_end","arguments":{"a":1}}}"#;
    let (id, name, arguments) = match mcp.handle_line(line) {
        RpcStep::Call {
            id,
            name,
            arguments,
        } => (id, name, arguments),
        other => panic!("{other:?}"),
    };
    assert_eq!(name, "berth_end");
    assert_eq!(arguments.get("a").and_then(Json::as_i64), Some(1));
    let answer = mcp.called(id, &ToolResult::err("no")).unwrap();
    assert_eq!(answer.get("id").and_then(Json::as_i64), Some(3));
    let result = answer.get("result").unwrap();
    assert_eq!(result.get("isError").and_then(Json::as_bool), Some(true));
    let content = result.get("content").and_then(|c| c.at(0)).unwrap();
    assert_eq!(content.text_field("type"), Some("text"));
    assert_eq!(content.text_field("text"), Some("no"));
    assert!(ToolResult::text("yes").to_json().get("isError").is_none());
}

#[test]
fn images_are_framed() {
    let image = McpContent::Image {
        data: "AAAA".into(),
        mime_type: "image/png".into(),
    };
    let json = image.to_json();
    assert_eq!(json.text_field("type"), Some("image"));
    assert_eq!(json.text_field("data"), Some("AAAA"));
    assert_eq!(json.text_field("mimeType"), Some("image/png"));
}

#[test]
fn documents_are_handled_as_lines_are() {
    let mcp = Mcp::new("h");
    assert!(matches!(
        mcp.handle_document("x", Err("why".into())),
        RpcStep::Reply(_)
    ));
    assert!(matches!(mcp.handle_document(" ", Err("why".into())), RpcStep::Silent));
    let message = object2("method", Json::string("ping"), "id", Json::integer(1));
    assert!(matches!(mcp.handle_document("x", Ok(message)), RpcStep::Reply(_)));
    let call = object3(
        "method",
        Json::string("tools/call"),
        "id",
        Json::Null,
        "params",
        string_array(&vec![]),
    );
    match mcp.handle_rpc(&call) {
        RpcStep::Call { name, .. } => assert_eq!(name, ""),
        other => panic!("{other:?}"),
    }
}

#[test]
fn pictures_are_base64() {
    let mcp = Mcp::new("h");
    let client = NodeClient {
        url: URL.into(),
        token: TOKEN.into(),
    };
    for (bytes, text) in [
        ("", ""),
        ("f", "Zg=="),
        ("fo", "Zm8="),
        ("foo", "Zm9v"),
        ("foob", "Zm9vYg=="),
        ("fooba", "Zm9vYmE="),
        ("foobar", "Zm9vYmFy"),
        ("~~~???>>>", "fn5+Pz8/Pj4+"),
    ] {
        let outcome = HttpOutcome::Answered {
            status: 200,
            content_type: Some("image/png".into()),
            body: Ok(bytes.as_bytes().to_vec()),
        };
        let result = mcp.screenshot(&client, outcome).unwrap();
        assert_eq!(
            result.content,
            [McpContent::Image {
                data: text.into(),
                mime_type: "image/png".into()
            }]
        );
    }
}

#[test]
fn accepted_input_has_an_argv() {
    let mcp = Mcp::new("h");
    let step = mcp.call_tool("berth_key", &parse(r#"{"keys":[" + ", "ctrl+s"]}"#));
    match step {
        CallStep::ReadClient(ToolAction::Key { keys }) => {
            assert_eq!(keys, ["ctrl", "s"]);
            assert!(action_argv(&GuestOp::Key { keys }).is_ok());
        }
        other => panic!("{other:?}"),
    }
    let step = mcp.call_tool("berth_type", &parse(r#"{"text":" "}"#));
    match step {
        CallStep::ReadClient(ToolAction::Type { text }) => {
            assert!(action_argv(&GuestOp::Type { text }).is_ok());
        }
        other => panic!("{other:?}"),
    }
}
