//! The JSON-RPC framing of the tools.

use vstd::prelude::*;

use crate::json::{lemma_lookup, JsonView};
use crate::laws::metering::{lemma_not_found, says_text};
use crate::laws::tools::law_tools_ask_for_what_they_are_given;
use crate::mcp::{asked_action, content_json, result_json, McpContent, ToolResult};
use crate::rpc::{
    arguments_json, asked, error_json, initialize_json, line_asked, no_arguments_json, ok_json,
    tool_json, tools_json, type_json, RpcView,
};
use crate::text::trimmed;

verus! {

/// The reply answers the message with this id; a message without one is
/// answered with null.
pub open spec fn answers(reply: JsonView, id: Option<JsonView>) -> bool {
    &&& reply.field("jsonrpc"@) == Some(JsonView::Str("2.0"@))
    &&& reply.field("id"@) == Some(
        match id {
            Some(id) => id,
            None => JsonView::Null,
        },
    )
}

/// The reply is an error of this code, in these words.
pub open spec fn is_error(reply: JsonView, code: i64, message: Seq<char>) -> bool {
    &&& reply.field("error"@) matches Some(error)
    &&& error.field("code"@) matches Some(value)
    &&& value.integer() == Some(code)
    &&& error.field("message"@) == Some(JsonView::Str(message))
    &&& reply.field("result"@) is None
}

/// The reply holds this result.
pub open spec fn is_result(reply: JsonView, result: JsonView) -> bool {
    &&& reply.field("result"@) == Some(result)
    &&& reply.field("error"@) is None
}

/// A reply answers its message, and is either a result or an error.
pub proof fn law_replies_are_framed(
    id: Option<JsonView>,
    result: JsonView,
    code: i64,
    message: Seq<char>,
)
    ensures
        answers(ok_json(id, result), id),
        is_result(ok_json(id, result), result),
        answers(error_json(id, code, message), id),
        is_error(error_json(id, code, message), code, message),
{
    reveal_strlit("jsonrpc");
    reveal_strlit("id");
    reveal_strlit("result");
    reveal_strlit("error");
    reveal_strlit("code");
    reveal_strlit("message");
    assert("jsonrpc"@.len() == 7 && "id"@.len() == 2 && "result"@.len() == 6 && "error"@.len() == 5
        && "code"@.len() == 4 && "message"@.len() == 7);
    let good = ok_json(id, result)->Object_0;
    lemma_lookup(good, 0, "jsonrpc"@);
    lemma_lookup(good, 1, "id"@);
    lemma_lookup(good, 2, "result"@);
    lemma_not_found(good, "error"@);
    let bad = error_json(id, code, message)->Object_0;
    lemma_lookup(bad, 0, "jsonrpc"@);
    lemma_lookup(bad, 1, "id"@);
    lemma_lookup(bad, 2, "error"@);
    lemma_not_found(bad, "result"@);
    let error = bad[2].1->Object_0;
    lemma_lookup(error, 0, "code"@);
    lemma_lookup(error, 1, "message"@);
}

/// A message with a method and an id is answered by its method: the server's
/// own words on `initialize`, nothing on `ping`, the tools on `tools/list`, and
/// an error where the method is unknown. A message without a method is no
/// request, whether it has an id or not.
pub proof fn law_messages_are_answered_by_their_method(msg: JsonView)
    ensures
        ({
            let id = msg.field("id"@);
            let method = match msg.field("method"@) {
                Some(JsonView::Str(method)) => method,
                _ => Seq::empty(),
            };
            if method.len() == 0 {
                asked(msg) matches RpcView::Reply(reply) && answers(reply, id) && is_error(
                    reply,
                    -32600i64,
                    "invalid request"@,
                )
            } else if method == "tools/call"@ {
                asked(msg) matches RpcView::Call { id: with, name, arguments } && with == id
            } else if id is None || method == "notifications/initialized"@ || method
                == "initialized"@ {
                asked(msg) == RpcView::Silent
            } else if method == "ping"@ {
                asked(msg) matches RpcView::Reply(reply) && answers(reply, id) && is_result(
                    reply,
                    JsonView::Object(Seq::empty()),
                )
            } else if method == "tools/list"@ {
                &&& asked(msg) matches RpcView::Reply(reply)
                &&& answers(reply, id)
                &&& reply.field("result"@) matches Some(result)
                &&& result.field("tools"@) == Some(JsonView::Array(tools_json()))
            } else if method == "initialize"@ {
                &&& asked(msg) matches RpcView::Reply(reply)
                &&& answers(reply, id)
                &&& reply.field("result"@) matches Some(result)
                &&& says_text(
                    result,
                    "protocolVersion"@,
                    match msg.field("params"@) {
                        Some(params) => match params.field("protocolVersion"@) {
                            Some(JsonView::Str(version)) => version,
                            _ => "2024-11-05"@,
                        },
                        None => "2024-11-05"@,
                    },
                )
                &&& result.field("serverInfo"@) matches Some(server)
                &&& says_text(server, "name"@, "berth"@)
            } else {
                asked(msg) matches RpcView::Reply(reply) && answers(reply, id) && is_error(
                    reply,
                    -32601i64,
                    "method not found: "@ + method,
                )
            }
        }),
{
    let id = msg.field("id"@);
    let method = msg.text_or_empty("method"@);
    reveal_strlit("initialize");
    reveal_strlit("notifications/initialized");
    reveal_strlit("initialized");
    reveal_strlit("ping");
    reveal_strlit("tools/list");
    reveal_strlit("tools/call");
    assert("initialize"@.len() == 10 && "notifications/initialized"@.len() == 25
        && "initialized"@.len() == 11 && "ping"@.len() == 4 && "tools/list"@.len() == 10
        && "tools/call"@.len() == 10);
    assert("initialize"@[0] == 'i' && "tools/list"@[0] == 't' && "tools/call"@[0] == 't'
        && "tools/list"@[6] == 'l' && "tools/call"@[6] == 'c');
    let params = match msg.field("params"@) {
        Some(params) => params,
        None => JsonView::Object(Seq::empty()),
    };
    lemma_not_found(Seq::empty(), "protocolVersion"@);
    law_replies_are_framed(id, initialize_json(params), -32600i64, "invalid request"@);
    law_replies_are_framed(
        id,
        JsonView::Object(Seq::empty()),
        -32601i64,
        "method not found: "@ + method,
    );
    let listed = JsonView::Object(seq![("tools"@, JsonView::Array(tools_json()))]);
    law_replies_are_framed(id, listed, 0, method);
    lemma_lookup(listed->Object_0, 0, "tools"@);
    reveal_strlit("protocolVersion");
    reveal_strlit("capabilities");
    reveal_strlit("serverInfo");
    reveal_strlit("name");
    assert("protocolVersion"@.len() == 15 && "capabilities"@.len() == 12 && "serverInfo"@.len()
        == 10);
    let said = initialize_json(params)->Object_0;
    lemma_lookup(said, 0, "protocolVersion"@);
    lemma_lookup(said, 2, "serverInfo"@);
    lemma_lookup(said[2].1->Object_0, 0, "name"@);
}

/// A line of white space asks for nothing, and a line that is no document is a
/// parse error.
pub proof fn law_lines_are_documents(line: Seq<char>, document: Result<JsonView, Seq<char>>)
    ensures
        trimmed(line).len() == 0 ==> line_asked(line, document) == RpcView::Silent,
        trimmed(line).len() > 0 ==> match document {
            Ok(msg) => line_asked(line, document) == asked(msg),
            Err(reason) => line_asked(line, document) matches RpcView::Reply(reply) && answers(
                reply,
                None,
            ) && is_error(reply, -32700i64, "parse error: "@ + reason),
        },
{
    match document {
        Err(reason) => {
            law_replies_are_framed(None, JsonView::Null, -32700i64, "parse error: "@ + reason);
        },
        Ok(_) => {},
    }
}

/// `key` is listed as a required argument of a tool.
pub open spec fn requires_argument(tool: JsonView, key: Seq<char>) -> bool {
    &&& tool.field("inputSchema"@) matches Some(schema)
    &&& schema.field("required"@) matches Some(JsonView::Array(items))
    &&& items.contains(JsonView::Str(key))
}

proof fn lemma_tool(name: Seq<char>, description: Seq<char>, schema: JsonView)
    ensures
        says_text(tool_json(name, description, schema), "name"@, name),
        tool_json(name, description, schema).field("inputSchema"@) == Some(schema),
{
    reveal_strlit("name");
    reveal_strlit("description");
    reveal_strlit("inputSchema");
    assert("name"@.len() == 4 && "description"@.len() == 11 && "inputSchema"@.len() == 11);
    assert("description"@[0] == 'd' && "inputSchema"@[0] == 'i');
    let list = tool_json(name, description, schema)->Object_0;
    lemma_lookup(list, 0, "name"@);
    lemma_lookup(list, 2, "inputSchema"@);
}

proof fn lemma_required(properties: JsonView, required: Seq<Seq<char>>, key: Seq<char>)
    ensures
        no_arguments_json().field("required"@) is None,
        arguments_json(properties, required).field("required"@) matches Some(
            JsonView::Array(items),
        ) && (items.contains(JsonView::Str(key)) <==> required.contains(key)),
{
    reveal_strlit("type");
    reveal_strlit("properties");
    reveal_strlit("required");
    assert("type"@.len() == 4 && "properties"@.len() == 10 && "required"@.len() == 8);
    lemma_not_found(no_arguments_json()->Object_0, "required"@);
    let list = arguments_json(properties, required)->Object_0;
    lemma_lookup(list, 2, "required"@);
    let items = required.map_values(|s: Seq<char>| JsonView::Str(s));
    if items.contains(JsonView::Str(key)) {
        let i = choose|i: int| 0 <= i < items.len() && items[i] == JsonView::Str(key);
        assert(required[i] == key);
    }
    if required.contains(key) {
        let i = choose|i: int| 0 <= i < required.len() && required[i] == key;
        assert(items[i] == JsonView::Str(key));
    }
}

/// The tools that are listed are the tools there are, each under its own name
/// and with the arguments that it needs.
pub proof fn law_listed_tools_are_the_tools_there_are()
    ensures
        tools_json().len() == 5,
        says_text(tools_json()[0], "name"@, "berth_screenshot"@),
        says_text(tools_json()[1], "name"@, "berth_click"@),
        says_text(tools_json()[2], "name"@, "berth_type"@),
        says_text(tools_json()[3], "name"@, "berth_key"@),
        says_text(tools_json()[4], "name"@, "berth_end"@),
        forall|key: Seq<char>| !#[trigger] requires_argument(tools_json()[0], key),
        forall|key: Seq<char>| #[trigger]
            requires_argument(tools_json()[1], key) <==> key == "x"@ || key == "y"@,
        forall|key: Seq<char>| #[trigger]
            requires_argument(tools_json()[2], key) <==> key == "text"@,
        forall|key: Seq<char>| #[trigger]
            requires_argument(tools_json()[3], key) <==> key == "keys"@,
        forall|key: Seq<char>| !#[trigger] requires_argument(tools_json()[4], key),
{
    let tools = tools_json();
    assert(tools.len() == 5);
    lemma_tool(
        tools[0]->Object_0[0].1->Str_0,
        tools[0]->Object_0[1].1->Str_0,
        tools[0]->Object_0[2].1,
    );
    lemma_tool(
        tools[1]->Object_0[0].1->Str_0,
        tools[1]->Object_0[1].1->Str_0,
        tools[1]->Object_0[2].1,
    );
    lemma_tool(
        tools[2]->Object_0[0].1->Str_0,
        tools[2]->Object_0[1].1->Str_0,
        tools[2]->Object_0[2].1,
    );
    lemma_tool(
        tools[3]->Object_0[0].1->Str_0,
        tools[3]->Object_0[1].1->Str_0,
        tools[3]->Object_0[2].1,
    );
    lemma_tool(
        tools[4]->Object_0[0].1->Str_0,
        tools[4]->Object_0[1].1->Str_0,
        tools[4]->Object_0[2].1,
    );
    assert forall|key: Seq<char>| !#[trigger] requires_argument(tools[0], key) by {
        lemma_required(JsonView::Null, Seq::empty(), key);
    }
    assert forall|key: Seq<char>| #[trigger] requires_argument(tools[1], key) <==> key == "x"@
        || key == "y"@ by {
        let schema = tools[1]->Object_0[2].1;
        let both = seq!["x"@, "y"@];
        lemma_required(schema->Object_0[1].1, both, key);
        assert(both[0] == "x"@ && both[1] == "y"@);
    }
    assert forall|key: Seq<char>| #[trigger] requires_argument(tools[2], key) <==> key
        == "text"@ by {
        let schema = tools[2]->Object_0[2].1;
        let one = seq!["text"@];
        lemma_required(schema->Object_0[1].1, one, key);
        assert(one[0] == "text"@);
    }
    assert forall|key: Seq<char>| #[trigger] requires_argument(tools[3], key) <==> key
        == "keys"@ by {
        let schema = tools[3]->Object_0[2].1;
        let one = seq!["keys"@];
        lemma_required(schema->Object_0[1].1, one, key);
        assert(one[0] == "keys"@);
    }
    assert forall|key: Seq<char>| !#[trigger] requires_argument(tools[4], key) by {
        lemma_required(JsonView::Null, Seq::empty(), key);
    }
}

/// A tool that is called without an argument that it is listed to need asks
/// for nothing.
pub proof fn law_listed_arguments_are_needed(
    i: int,
    name: Seq<char>,
    key: Seq<char>,
    args: JsonView,
)
    requires
        0 <= i < 5,
        says_text(tools_json()[i], "name"@, name),
        requires_argument(tools_json()[i], key),
        args.field(key) is None,
    ensures
        asked_action(name, args) is Err,
{
    law_listed_tools_are_the_tools_there_are();
    law_tools_ask_for_what_they_are_given(name, args);
    let tool = tools_json()[i];
    if i == 0 {
        assert(tool == tools_json()[0]);
    } else if i == 1 {
        assert(tool == tools_json()[1]);
    } else if i == 2 {
        assert(tool == tools_json()[2]);
    } else if i == 3 {
        assert(tool == tools_json()[3]);
        reveal_strlit("berth_screenshot");
        reveal_strlit("berth_click");
        reveal_strlit("berth_type");
        reveal_strlit("berth_key");
        assert("berth_key"@.len() == 9 && "berth_screenshot"@.len() == 16 && "berth_click"@.len()
            == 11 && "berth_type"@.len() == 10);
    } else {
        assert(tool == tools_json()[4]);
    }
}

/// The document of a tool result says whether the tool failed, and shows each
/// item as what it is.
pub proof fn law_result_document_says_what_the_result_says(result: ToolResult)
    ensures
        ({
            let doc = result_json(result);
            &&& result.is_error <==> doc.field("isError"@) == Some(JsonView::Bool(true))
            &&& !result.is_error ==> doc.field("isError"@) is None
            &&& doc.field("content"@) matches Some(JsonView::Array(items))
            &&& items.len() == result.content@.len()
            &&& forall|i: int|
                0 <= i < items.len() ==> match #[trigger] result.content@[i] {
                    McpContent::Text { text } => says_text(items[i], "type"@, "text"@)
                        && says_text(items[i], "text"@, text@),
                    McpContent::Image { data, mime_type } => says_text(
                        items[i],
                        "type"@,
                        "image"@,
                    ) && says_text(items[i], "data"@, data@) && says_text(
                        items[i],
                        "mimeType"@,
                        mime_type@,
                    ),
                }
        }),
{
    reveal_strlit("content");
    reveal_strlit("isError");
    reveal_strlit("type");
    reveal_strlit("text");
    reveal_strlit("data");
    reveal_strlit("mimeType");
    assert("content"@.len() == 7 && "isError"@.len() == 7 && "type"@.len() == 4 && "text"@.len()
        == 4 && "data"@.len() == 4 && "mimeType"@.len() == 8);
    assert("content"@[0] == 'c' && "isError"@[0] == 'i' && "type"@[1] == 'y' && "text"@[1] == 'e'
        && "data"@[1] == 'a');
    let list = result_json(result)->Object_0;
    lemma_lookup(list, 0, "content"@);
    if result.is_error {
        lemma_lookup(list, 1, "isError"@);
    } else {
        lemma_not_found(list, "isError"@);
    }
    let items = list[0].1->Array_0;
    assert forall|i: int| 0 <= i < items.len() implies match #[trigger] result.content@[i] {
        McpContent::Text { text } => says_text(items[i], "type"@, "text"@) && says_text(
            items[i],
            "text"@,
            text@,
        ),
        McpContent::Image { data, mime_type } => says_text(items[i], "type"@, "image"@)
            && says_text(items[i], "data"@, data@) && says_text(
            items[i],
            "mimeType"@,
            mime_type@,
        ),
    } by {
        let item = content_json(result.content@[i])->Object_0;
        assert(items[i] == content_json(result.content@[i]));
        lemma_lookup(item, 0, "type"@);
        match result.content@[i] {
            McpContent::Text { text } => {
                lemma_lookup(item, 1, "text"@);
            },
            McpContent::Image { data, mime_type } => {
                lemma_lookup(item, 1, "data"@);
                lemma_lookup(item, 2, "mimeType"@);
            },
        }
    }
}

/// The schema says that `key` is of this type.
pub open spec fn is_typed(tool: JsonView, key: Seq<char>, kind: Seq<char>) -> bool {
    &&& tool.field("inputSchema"@) matches Some(schema)
    &&& schema.field("properties"@) matches Some(properties)
    &&& properties.field(key) matches Some(property)
    &&& says_text(property, "type"@, kind)
}

proof fn lemma_properties(properties: JsonView, required: Seq<Seq<char>>, kind: Seq<char>)
    ensures
        arguments_json(properties, required).field("properties"@) == Some(properties),
        says_text(type_json(kind), "type"@, kind),
{
    reveal_strlit("type");
    reveal_strlit("properties");
    assert("type"@.len() == 4 && "properties"@.len() == 10);
    lemma_lookup(arguments_json(properties, required)->Object_0, 1, "properties"@);
    lemma_lookup(type_json(kind)->Object_0, 0, "type"@);
}

/// The listed arguments are of the types that the tools take: pixels are
/// integers, and buttons and text are strings.
pub proof fn law_listed_arguments_have_their_types()
    ensures
        is_typed(tools_json()[1], "x"@, "integer"@),
        is_typed(tools_json()[1], "y"@, "integer"@),
        is_typed(tools_json()[1], "button"@, "string"@),
        is_typed(tools_json()[2], "text"@, "string"@),
{
    let tools = tools_json();
    reveal_strlit("x");
    reveal_strlit("y");
    reveal_strlit("button");
    reveal_strlit("type");
    assert("x"@[0] == 'x' && "y"@[0] == 'y' && "x"@.len() == 1 && "y"@.len() == 1 && "button"@.len()
        == 6);
    let click = tools[1]->Object_0[2].1;
    lemma_tool(tools[1]->Object_0[0].1->Str_0, tools[1]->Object_0[1].1->Str_0, click);
    let of_click = click->Object_0[1].1;
    lemma_properties(of_click, seq!["x"@, "y"@], "integer"@);
    lemma_lookup(of_click->Object_0, 0, "x"@);
    lemma_lookup(of_click->Object_0, 1, "y"@);
    lemma_lookup(of_click->Object_0, 2, "button"@);
    lemma_lookup(of_click->Object_0[2].1->Object_0, 0, "type"@);
    let typing = tools[2]->Object_0[2].1;
    lemma_tool(tools[2]->Object_0[0].1->Str_0, tools[2]->Object_0[1].1->Str_0, typing);
    let of_typing = typing->Object_0[1].1;
    lemma_properties(of_typing, seq!["text"@], "string"@);
    lemma_lookup(of_typing->Object_0, 0, "text"@);
}

} // verus!
