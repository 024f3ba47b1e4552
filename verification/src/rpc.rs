//! JSON-RPC framing of the MCP server: one message per line.

use vstd::prelude::*;

use crate::json::{
    json_document, json_views, lemma_array_view, lemma_lookup, object1, object2, object3, object4,
    string_array, Json, JsonView,
};
use crate::mcp::{result_json, Mcp, ToolResult, DEFAULT_MCP_VERSION, SERVER_VERSION};
use crate::text::{concat, same, texts, trim, trimmed};

verus! {

/// The line was no JSON document.
pub const PARSE_ERROR: i64 = -32700;

/// The message has no method.
pub const INVALID_REQUEST: i64 = -32600;

/// The method is not one of the server's.
pub const METHOD_NOT_FOUND: i64 = -32601;

/// A JSON text.
pub open spec fn text_json(s: Seq<char>) -> JsonView {
    JsonView::Str(s)
}

/// A JSON integer.
pub open spec fn code_json(n: i64) -> JsonView {
    JsonView::Number(Some(n), crate::decimal::signed_decimal(n as int))
}

/// The object without members.
pub open spec fn empty_json() -> JsonView {
    JsonView::Object(Seq::empty())
}

/// The id that a reply carries: the one that was asked with, or null.
pub open spec fn reply_id(id: Option<JsonView>) -> JsonView {
    match id {
        Some(id) => id,
        None => JsonView::Null,
    }
}

/// A reply with a result.
pub open spec fn ok_json(id: Option<JsonView>, result: JsonView) -> JsonView {
    JsonView::Object(
        seq![("jsonrpc"@, text_json("2.0"@)), ("id"@, reply_id(id)), ("result"@, result)],
    )
}

/// A reply with an error.
pub open spec fn error_json(id: Option<JsonView>, code: i64, message: Seq<char>) -> JsonView {
    JsonView::Object(
        seq![
            ("jsonrpc"@, text_json("2.0"@)),
            ("id"@, reply_id(id)),
            (
                "error"@,
                JsonView::Object(
                    seq![("code"@, code_json(code)), ("message"@, text_json(message))],
                ),
            ),
        ],
    )
}

/// What the server says of itself.
pub open spec fn initialize_json(params: JsonView) -> JsonView {
    JsonView::Object(
        seq![
            (
                "protocolVersion"@,
                text_json(
                    match params.text_field("protocolVersion"@) {
                        Some(version) => version,
                        None => DEFAULT_MCP_VERSION@,
                    },
                ),
            ),
            (
                "capabilities"@,
                JsonView::Object(
                    seq![
                        (
                            "tools"@,
                            JsonView::Object(seq![("listChanged"@, JsonView::Bool(false))]),
                        ),
                    ],
                ),
            ),
            (
                "serverInfo"@,
                JsonView::Object(
                    seq![
                        ("name"@, text_json("berth"@)),
                        ("version"@, text_json(SERVER_VERSION@)),
                    ],
                ),
            ),
            (
                "instructions"@,
                text_json(
                    "Drive the live isolated Linux guest with berth_screenshot / berth_click / berth_type / berth_key / berth_end. Tools refuse if no lease is live. Never drive the host desktop."@,
                ),
            ),
        ],
    )
}

/// A tool as it is listed.
pub open spec fn tool_json(
    name: Seq<char>,
    description: Seq<char>,
    input_schema: JsonView,
) -> JsonView {
    JsonView::Object(
        seq![
            ("name"@, text_json(name)),
            ("description"@, text_json(description)),
            ("inputSchema"@, input_schema),
        ],
    )
}

/// A list of texts as JSON.
pub open spec fn texts_json(items: Seq<Seq<char>>) -> JsonView {
    JsonView::Array(items.map_values(|s: Seq<char>| JsonView::Str(s)))
}

/// `{ "type": name }`.
pub open spec fn type_json(name: Seq<char>) -> JsonView {
    JsonView::Object(seq![("type"@, text_json(name))])
}

/// The schema of a tool without arguments.
pub open spec fn no_arguments_json() -> JsonView {
    JsonView::Object(seq![("type"@, text_json("object"@)), ("properties"@, empty_json())])
}

/// The schema of a tool with arguments.
pub open spec fn arguments_json(properties: JsonView, required: Seq<Seq<char>>) -> JsonView {
    JsonView::Object(
        seq![
            ("type"@, text_json("object"@)),
            ("properties"@, properties),
            ("required"@, texts_json(required)),
        ],
    )
}

/// The tools, in the order in which they are listed.
pub open spec fn tools_json() -> Seq<JsonView> {
    seq![
        tool_json(
            "berth_screenshot"@,
            "Capture the live guest desktop as a PNG. Refuses if no lease is live. Never captures the host display."@,
            no_arguments_json(),
        ),
        tool_json(
            "berth_click"@,
            "Click in the live guest at pixel coordinates (origin top-left). Refuses if no lease is live."@,
            arguments_json(
                JsonView::Object(
                    seq![
                        ("x"@, type_json("integer"@)),
                        ("y"@, type_json("integer"@)),
                        (
                            "button"@,
                            JsonView::Object(
                                seq![
                                    ("type"@, text_json("string"@)),
                                    ("enum"@, texts_json(seq!["left"@, "right"@, "middle"@])),
                                ],
                            ),
                        ),
                    ],
                ),
                seq!["x"@, "y"@],
            ),
        ),
        tool_json(
            "berth_type"@,
            "Type text into the live guest desktop. Refuses if no lease is live."@,
            arguments_json(
                JsonView::Object(seq![("text"@, type_json("string"@))]),
                seq!["text"@],
            ),
        ),
        tool_json(
            "berth_key"@,
            "Press a key or chord in the live guest. Refuses if no lease is live."@,
            arguments_json(
                JsonView::Object(
                    seq![
                        (
                            "keys"@,
                            JsonView::Object(
                                seq![
                                    ("type"@, texts_json(seq!["string"@, "array"@])),
                                    ("items"@, type_json("string"@)),
                                ],
                            ),
                        ),
                    ],
                ),
                seq!["keys"@],
            ),
        ),
        tool_json(
            "berth_end"@,
            "End the live lease (destroy the guest and its loopback view). Refuses if no lease is live."@,
            no_arguments_json(),
        ),
    ]
}

/// What a message asks for, with its texts.
pub enum RpcView {
    /// Send this reply.
    Reply(JsonView),
    /// Send nothing.
    Silent,
    /// Call a tool.
    Call {
        /// Id to reply with.
        id: Option<JsonView>,
        /// Tool.
        name: Seq<char>,
        /// Its arguments.
        arguments: JsonView,
    },
}

/// A member of a message; the empty object where it is missing.
pub open spec fn member_or_empty(msg: JsonView, key: Seq<char>) -> JsonView {
    match msg.field(key) {
        Some(value) => value,
        None => empty_json(),
    }
}

/// The reply to a message that called a tool. A notification gets none.
pub open spec fn call_reply(id: Option<JsonView>, result: JsonView) -> Option<JsonView> {
    match id {
        Some(_) => Some(ok_json(id, result)),
        None => None,
    }
}

/// What a message asks for.
pub open spec fn asked(msg: JsonView) -> RpcView {
    let method = msg.text_or_empty("method"@);
    let id = msg.field("id"@);
    let params = member_or_empty(msg, "params"@);
    if method.len() == 0 {
        RpcView::Reply(error_json(id, INVALID_REQUEST, "invalid request"@))
    } else if method == "tools/call"@ {
        RpcView::Call {
            id,
            name: params.text_or_empty("name"@),
            arguments: member_or_empty(params, "arguments"@),
        }
    } else if id is None {
        RpcView::Silent
    } else if method == "initialize"@ {
        RpcView::Reply(ok_json(id, initialize_json(params)))
    } else if method == "notifications/initialized"@ || method == "initialized"@ {
        RpcView::Silent
    } else if method == "ping"@ {
        RpcView::Reply(ok_json(id, empty_json()))
    } else if method == "tools/list"@ {
        RpcView::Reply(
            ok_json(id, JsonView::Object(seq![("tools"@, JsonView::Array(tools_json()))])),
        )
    } else {
        RpcView::Reply(error_json(id, METHOD_NOT_FOUND, "method not found: "@ + method))
    }
}

/// What a line that is no JSON document is answered.
pub open spec fn parse_error_json(reason: Seq<char>) -> JsonView {
    error_json(None, PARSE_ERROR, "parse error: "@ + reason)
}

/// What a line asks for, its document having been read as `document`.
pub open spec fn line_asked(line: Seq<char>, document: Result<JsonView, Seq<char>>) -> RpcView {
    if trimmed(line).len() == 0 {
        RpcView::Silent
    } else {
        match document {
            Ok(msg) => asked(msg),
            Err(reason) => RpcView::Reply(parse_error_json(reason)),
        }
    }
}

/// What a message asks for.
#[derive(Debug)]
pub enum RpcStep {
    /// Send this reply.
    Reply(Json),
    /// Send nothing.
    Silent,
    /// Call a tool, and reply with [`Mcp::called`], where it has a reply.
    Call {
        /// Id to reply with.
        id: Option<Json>,
        /// Tool.
        name: String,
        /// Its arguments.
        arguments: Json,
    },
}

/// What an optional value holds.
pub open spec fn opt_value(value: Option<Json>) -> Option<JsonView> {
    match value {
        Some(json) => Some(json@),
        None => None,
    }
}

impl View for RpcStep {
    type V = RpcView;

    open spec fn view(&self) -> RpcView {
        match self {
            RpcStep::Reply(json) => RpcView::Reply(json@),
            RpcStep::Silent => RpcView::Silent,
            RpcStep::Call { id, name, arguments } => RpcView::Call {
                id: opt_value(*id),
                name: name@,
                arguments: arguments@,
            },
        }
    }
}

fn empty_object() -> (r: Json)
    ensures
        r@ == empty_json(),
{
    let list: Vec<(String, Json)> = Vec::new();
    proof {
        crate::json::lemma_object_view(list);
        assert(crate::json::member_views(list@) =~= Seq::empty());
    }
    Json::Object(list)
}

fn id_or_null(id: Option<Json>) -> (r: Json)
    ensures
        r@ == reply_id(opt_value(id)),
{
    match id {
        Some(id) => id,
        None => Json::Null,
    }
}

/// A reply with a result.
pub fn rpc_ok(id: Option<Json>, result: Json) -> (r: Json)
    ensures
        r@ == ok_json(opt_value(id), result@),
{
    object3("jsonrpc", Json::string("2.0"), "id", id_or_null(id), "result", result)
}

/// A reply with an error.
pub fn rpc_error(id: Option<Json>, code: i64, message: &str) -> (r: Json)
    ensures
        r@ == error_json(opt_value(id), code, message@),
{
    object3(
        "jsonrpc",
        Json::string("2.0"),
        "id",
        id_or_null(id),
        "error",
        object2("code", Json::integer(code), "message", Json::string(message)),
    )
}

/// What the server says of itself.
pub fn initialize_result(params: &Json) -> (r: Json)
    ensures
        r@ == initialize_json(params@),
{
    let version = match params.text_field("protocolVersion") {
        Some(version) => version,
        None => DEFAULT_MCP_VERSION,
    };
    let capabilities = object1("tools", object1("listChanged", Json::Bool(false)));
    let server = object2("name", Json::string("berth"), "version", Json::string(SERVER_VERSION));
    let r = object4(
        "protocolVersion",
        Json::string(version),
        "capabilities",
        capabilities,
        "serverInfo",
        server,
        "instructions",
        Json::string(
            "Drive the live isolated Linux guest with berth_screenshot / berth_click / berth_type / berth_key / berth_end. Tools refuse if no lease is live. Never drive the host desktop.",
        ),
    );
    assert(r@->Object_0 =~= initialize_json(params@)->Object_0);
    r
}

fn typed(name: &str) -> (r: Json)
    ensures
        r@ == type_json(name@),
{
    object1("type", Json::string(name))
}

fn list1(a: &str) -> (r: Json)
    ensures
        r@ == texts_json(seq![a@]),
{
    let items: Vec<String> = vec![a.to_string()];
    assert(texts(items@) =~= seq![a@]);
    string_array(&items)
}

fn list2(a: &str, b: &str) -> (r: Json)
    ensures
        r@ == texts_json(seq![a@, b@]),
{
    let items: Vec<String> = vec![a.to_string(), b.to_string()];
    assert(texts(items@) =~= seq![a@, b@]);
    string_array(&items)
}

fn list3(a: &str, b: &str, c: &str) -> (r: Json)
    ensures
        r@ == texts_json(seq![a@, b@, c@]),
{
    let items: Vec<String> = vec![a.to_string(), b.to_string(), c.to_string()];
    assert(texts(items@) =~= seq![a@, b@, c@]);
    string_array(&items)
}

fn no_arguments() -> (r: Json)
    ensures
        r@ == no_arguments_json(),
{
    object2("type", Json::string("object"), "properties", empty_object())
}

fn with_arguments(properties: Json, required: Json) -> (r: Json)
    ensures
        r@ == JsonView::Object(
            seq![
                ("type"@, text_json("object"@)),
                ("properties"@, properties@),
                ("required"@, required@),
            ],
        ),
{
    object3("type", Json::string("object"), "properties", properties, "required", required)
}

fn tool(name: &str, description: &str, input_schema: Json) -> (r: Json)
    ensures
        r@ == tool_json(name@, description@, input_schema@),
{
    object3(
        "name",
        Json::string(name),
        "description",
        Json::string(description),
        "inputSchema",
        input_schema,
    )
}

/// The tools, in the order in which they are listed.
pub fn tools() -> (r: Vec<Json>)
    ensures
        json_views(r@) == tools_json(),
{
    let r: Vec<Json> = vec![
        tool(
            "berth_screenshot",
            "Capture the live guest desktop as a PNG. Refuses if no lease is live. Never captures the host display.",
            no_arguments(),
        ),
        tool(
            "berth_click",
            "Click in the live guest at pixel coordinates (origin top-left). Refuses if no lease is live.",
            with_arguments(
                object3(
                    "x",
                    typed("integer"),
                    "y",
                    typed("integer"),
                    "button",
                    object2(
                        "type",
                        Json::string("string"),
                        "enum",
                        list3("left", "right", "middle"),
                    ),
                ),
                list2("x", "y"),
            ),
        ),
        tool(
            "berth_type",
            "Type text into the live guest desktop. Refuses if no lease is live.",
            with_arguments(object1("text", typed("string")), list1("text")),
        ),
        tool(
            "berth_key",
            "Press a key or chord in the live guest. Refuses if no lease is live.",
            with_arguments(
                object1(
                    "keys",
                    object2("type", list2("string", "array"), "items", typed("string")),
                ),
                list1("keys"),
            ),
        ),
        tool(
            "berth_end",
            "End the live lease (destroy the guest and its loopback view). Refuses if no lease is live.",
            no_arguments(),
        ),
    ];
    assert(json_views(r@) =~= tools_json());
    r
}

fn member(msg: &Json, key: &str) -> (r: Json)
    ensures
        r@ == member_or_empty(msg@, key@),
{
    match msg.get(key) {
        Some(value) => value.duplicate(),
        None => empty_object(),
    }
}

impl Mcp {
    /// What one JSON-RPC message asks for. Notifications are not answered, but
    /// a tool that one calls is called.
    pub fn handle_rpc(&self, msg: &Json) -> (r: RpcStep)
        ensures
            r@ == asked(msg@),
    {
        let method = msg.text_or_empty("method");
        let method = method.as_str();
        let id = match msg.get("id") {
            Some(id) => Some(id.duplicate()),
            None => None,
        };
        let params = member(msg, "params");
        if method.is_empty() {
            return RpcStep::Reply(rpc_error(id, INVALID_REQUEST, "invalid request"));
        }
        if same(method, "tools/call") {
            return RpcStep::Call {
                id,
                name: params.text_or_empty("name"),
                arguments: member(&params, "arguments"),
            };
        }
        if id.is_none() {
            return RpcStep::Silent;
        }
        if same(method, "initialize") {
            RpcStep::Reply(rpc_ok(id, initialize_result(&params)))
        } else if same(method, "notifications/initialized") || same(method, "initialized") {
            RpcStep::Silent
        } else if same(method, "ping") {
            RpcStep::Reply(rpc_ok(id, empty_object()))
        } else if same(method, "tools/list") {
            let list = tools();
            proof {
                lemma_array_view(list);
            }
            RpcStep::Reply(rpc_ok(id, object1("tools", Json::Array(list))))
        } else {
            RpcStep::Reply(
                rpc_error(id, METHOD_NOT_FOUND, concat("method not found: ", method).as_str()),
            )
        }
    }

    /// The reply to a message that called a tool, if it is to be answered.
    pub fn called(&self, id: Option<Json>, result: &ToolResult) -> (r: Option<Json>)
        ensures
            opt_value(r) == call_reply(opt_value(id), result_json(*result)),
    {
        if id.is_none() {
            return None;
        }
        Some(rpc_ok(id, result.to_json()))
    }

    /// What one line of input asks for.
    pub fn handle_line(&self, line: &str) -> (r: RpcStep)
        ensures
            r@ == line_asked(
                line@,
                json_document(vstd::utf8::encode_utf8(trimmed(line@))),
            ),
    {
        let text = trim(line);
        let document = Json::parse(text.as_str().as_bytes());
        self.handle_document(line, document)
    }

    /// What one line of input asks for, its document having been read.
    pub fn handle_document(&self, line: &str, document: Result<Json, String>) -> (r: RpcStep)
        ensures
            r@ == line_asked(
                line@,
                match document {
                    Ok(msg) => Ok::<JsonView, Seq<char>>(msg@),
                    Err(reason) => Err::<JsonView, Seq<char>>(reason@),
                },
            ),
    {
        if trim(line).as_str().is_empty() {
            return RpcStep::Silent;
        }
        match document {
            Ok(msg) => self.handle_rpc(&msg),
            Err(reason) => RpcStep::Reply(
                rpc_error(None, PARSE_ERROR, concat("parse error: ", reason.as_str()).as_str()),
            ),
        }
    }
}

/// A reply carries the id that was asked with.
pub proof fn law_reply_carries_the_id(msg: JsonView)
    ensures
        asked(msg) matches RpcView::Reply(reply) ==> reply.field("id"@) == Some(
            reply_id(msg.field("id"@)),
        ) && reply.text_field("jsonrpc"@) == Some("2.0"@),
        asked(msg) matches RpcView::Call { id, name, arguments } ==> id == msg.field("id"@),
{
    match asked(msg) {
        RpcView::Reply(reply) => {
            lemma_second_member(reply, msg.field("id"@));
        },
        _ => {},
    }
}

proof fn lemma_second_member(reply: JsonView, id: Option<JsonView>)
    requires
        reply matches JsonView::Object(list) && list.len() >= 2 && list[0] == (
            "jsonrpc"@,
            text_json("2.0"@),
        ) && list[1] == ("id"@, reply_id(id)),
    ensures
        reply.field("id"@) == Some(reply_id(id)),
        reply.text_field("jsonrpc"@) == Some("2.0"@),
{
    reveal_strlit("jsonrpc");
    reveal_strlit("id");
    let list = reply->Object_0;
    assert("jsonrpc"@.len() != "id"@.len());
    lemma_lookup(list, 0, "jsonrpc"@);
    lemma_lookup(list, 1, "id"@);
}

/// A message with a method and without an id is a notification, and is not
/// answered: nothing is replied at once, nor after the tool that it may call.
pub proof fn law_notifications_are_not_answered(msg: JsonView, result: JsonView)
    requires
        msg.field("id"@) is None,
        msg.text_or_empty("method"@).len() > 0,
    ensures
        !(asked(msg) is Reply),
        asked(msg) matches RpcView::Call { id, name, arguments } ==> call_reply(id, result) is None,
{
}

/// A tool is called whether or not the message is a notification.
pub proof fn law_tools_are_called_with_or_without_an_id(msg: JsonView)
    requires
        msg.text_or_empty("method"@) == "tools/call"@,
    ensures
        asked(msg) is Call,
        asked(msg)->name == member_or_empty(msg, "params"@).text_or_empty("name"@),
        asked(msg)->arguments == member_or_empty(
            member_or_empty(msg, "params"@),
            "arguments"@,
        ),
{
    reveal_strlit("tools/call");
}

} // verus!
