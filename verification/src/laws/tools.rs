//! What a tool asks for is what the guest's driver is told to do.

use vstd::prelude::*;

use crate::action::{op_argv, Button, OpView};
use crate::decimal::{decimal, signed_decimal};
use crate::encoding::base64_text;
use crate::http::{asked_op, bearer, lemma_bearer_of_header, ActionBody};
use crate::json::{json_document, lemma_lookup, JsonView};
use crate::laws::metering::{lemma_not_found, says_text};
use crate::laws::text::{joined, lacks, law_joined_pieces_split_again};
use crate::mcp::{
    action_body, action_method, action_path, asked_action, chord_keys, chords_keys,
    client_refusal, has_failed, integer_argument, is_action_result, is_end_result, is_request,
    json_reply, keys_argument, trimmed_pieces,
    ActionView, CallStep, ClientFile, HttpOutcome, McpContent, McpError, McpErrorView, Method, NodeClient, NodeRequest,
    ToolResult,
};
use crate::text::{opt_string, texts, trimmed, without_trailing};

verus! {

/// The member `key` of a document is the integer `n`, or missing.
pub open spec fn reads_integer(doc: JsonView, key: Seq<char>, n: Option<i32>) -> bool {
    match doc.field(key) {
        None => n is None,
        Some(value) => n matches Some(n) && value.integer() == Some(n as i64),
    }
}

/// The member `key` of a document is the text, or missing.
pub open spec fn reads_text(doc: JsonView, key: Seq<char>, text: Option<Seq<char>>) -> bool {
    match doc.field(key) {
        None => text is None,
        Some(value) => text matches Some(text) && value == JsonView::Str(text),
    }
}

/// `body` is what a node reads out of the members of a posted document.
pub open spec fn is_read_from(body: ActionBody, doc: JsonView) -> bool {
    &&& says_text(doc, "op"@, body.op@)
    &&& reads_integer(doc, "x"@, body.x)
    &&& reads_integer(doc, "y"@, body.y)
    &&& reads_text(doc, "button"@, opt_string(body.button))
    &&& reads_text(doc, "text"@, opt_string(body.text))
    &&& match doc.field("keys"@) {
        None => body.keys is None,
        Some(value) => body.keys matches Some(keys) && value matches JsonView::Array(items)
            && items.len() == keys@.len() && forall|i: int|
            0 <= i < items.len() ==> #[trigger] items[i] == JsonView::Str(keys@[i]@),
    }
}

proof fn lemma_body_words()
    ensures
        "op"@.len() == 2,
        "x"@ != "y"@,
        "x"@.len() == 1,
        "y"@.len() == 1,
        "button"@.len() == 6,
        "text"@ != "keys"@,
        "text"@.len() == 4,
        "keys"@.len() == 4,
        "click"@.len() == 5,
        "type"@.len() == 4,
        "key"@.len() == 3,
        "screenshot"@.len() == 10,
        "left"@.len() == 4,
        "right"@.len() == 5,
        "middle"@.len() == 6,
{
    reveal_strlit("op");
    reveal_strlit("x");
    reveal_strlit("y");
    reveal_strlit("button");
    reveal_strlit("text");
    reveal_strlit("keys");
    reveal_strlit("click");
    reveal_strlit("type");
    reveal_strlit("key");
    reveal_strlit("screenshot");
    reveal_strlit("left");
    reveal_strlit("right");
    reveal_strlit("middle");
    assert("x"@[0] == 'x' && "y"@[0] == 'y');
    assert("text"@[0] == 't' && "keys"@[0] == 'k');
}

/// Client and node agree on the action body: whatever a tool posts, the node
/// reads out of it the op that the tool was asked for. A click is at the same
/// pixel with the named button, typing is of the same text, and the keys are
/// the same keys.
pub proof fn law_client_and_node_agree_on_the_action(
    action: ActionView,
    doc: JsonView,
    body: ActionBody,
)
    requires
        action_body(action) == Some(doc),
        is_read_from(body, doc),
    ensures
        match action {
            ActionView::Click { x, y, button } => {
                &&& button == "left"@ ==> asked_op(body) == Ok::<OpView, Seq<char>>(
                    OpView::Click { x, y, button: Button::Left },
                )
                &&& button == "right"@ ==> asked_op(body) == Ok::<OpView, Seq<char>>(
                    OpView::Click { x, y, button: Button::Right },
                )
                &&& button == "middle"@ ==> asked_op(body) == Ok::<OpView, Seq<char>>(
                    OpView::Click { x, y, button: Button::Middle },
                )
                &&& button != "left"@ && button != "right"@ && button != "middle"@ ==> asked_op(
                    body,
                ) is Err
            },
            ActionView::Type { text } => asked_op(body) == Ok::<OpView, Seq<char>>(
                OpView::Type { text },
            ),
            ActionView::Key { keys } => asked_op(body) == Ok::<OpView, Seq<char>>(
                OpView::Key { keys },
            ),
            _ => false,
        },
{
    lemma_body_words();
    let list = doc->Object_0;
    lemma_lookup(list, 0, "op"@);
    match action {
        ActionView::Click { x, y, button } => {
            lemma_lookup(list, 1, "x"@);
            lemma_lookup(list, 2, "y"@);
            lemma_lookup(list, 3, "button"@);
            assert(body.x == Some(x) && body.y == Some(y));
            assert(opt_string(body.button) == Some(button));
        },
        ActionView::Type { text } => {
            lemma_lookup(list, 1, "text"@);
            assert(opt_string(body.text) == Some(text));
        },
        ActionView::Key { keys } => {
            lemma_lookup(list, 1, "keys"@);
            let items = keys.map_values(|s: Seq<char>| JsonView::Str(s));
            assert(doc.field("keys"@) == Some(JsonView::Array(items)));
            let read = body.keys->Some_0@;
            assert(texts(read) =~= keys) by {
                assert forall|i: int| 0 <= i < keys.len() implies texts(read)[i] == keys[i] by {
                    assert(items[i] == JsonView::Str(keys[i]));
                    assert(items[i] == JsonView::Str(read[i]@));
                }
            }
        },
        _ => {},
    }
}

/// What is posted can be read at all: for every posted action there are the
/// members that the node asks for, of the kind it asks for.
pub proof fn law_posted_members_are_those_the_node_reads(action: ActionView, doc: JsonView)
    requires
        action_body(action) == Some(doc),
    ensures
        match action {
            ActionView::Click { x, y, button } => {
                &&& says_text(doc, "op"@, "click"@)
                &&& reads_integer(doc, "x"@, Some(x))
                &&& reads_integer(doc, "y"@, Some(y))
                &&& says_text(doc, "button"@, button)
            },
            ActionView::Type { text } => {
                &&& says_text(doc, "op"@, "type"@)
                &&& says_text(doc, "text"@, text)
                &&& doc.field("keys"@) is None
            },
            ActionView::Key { keys } => {
                &&& says_text(doc, "op"@, "key"@)
                &&& doc.field("keys"@) matches Some(JsonView::Array(items))
                &&& items.len() == keys.len()
                &&& forall|i: int|
                    0 <= i < items.len() ==> #[trigger] items[i] == JsonView::Str(keys[i])
                &&& doc.field("text"@) is None
            },
            _ => false,
        },
{
    lemma_body_words();
    let list = doc->Object_0;
    lemma_lookup(list, 0, "op"@);
    match action {
        ActionView::Click { x, y, button } => {
            lemma_lookup(list, 1, "x"@);
            lemma_lookup(list, 2, "y"@);
            lemma_lookup(list, 3, "button"@);
        },
        ActionView::Type { text } => {
            lemma_lookup(list, 1, "text"@);
            lemma_not_found(list, "keys"@);
        },
        ActionView::Key { keys } => {
            lemma_lookup(list, 1, "keys"@);
            lemma_not_found(list, "text"@);
        },
        _ => {},
    }
}

/// The driver is told what the op is: the pixel, the button, the text or the
/// keys, and nothing more.
pub proof fn law_driver_is_told_the_op(op: OpView)
    ensures
        match op {
            OpView::Screenshot => op_argv(op) == Ok::<Seq<Seq<char>>, Seq<char>>(
                seq!["/usr/local/bin/driver"@, "screenshot"@],
            ),
            OpView::Click { x, y, button } => {
                &&& op_argv(op) matches Ok(argv)
                &&& argv.len() == 5
                &&& argv[0] == "/usr/local/bin/driver"@
                &&& argv[1] == "click"@
                &&& argv[2] == signed_decimal(x as int)
                &&& argv[3] == signed_decimal(y as int)
                &&& argv[4] == "left"@ <==> button == Button::Left
                &&& argv[4] == "right"@ <==> button == Button::Right
                &&& argv[4] == "middle"@ <==> button == Button::Middle
            },
            OpView::Type { text } => if text.len() == 0 {
                op_argv(op) is Err
            } else {
                op_argv(op) == Ok::<Seq<Seq<char>>, Seq<char>>(
                    seq!["/usr/local/bin/driver"@, "type"@, text],
                )
            },
            OpView::Key { keys } => {
                &&& keys.len() == 0 ==> op_argv(op) is Err
                &&& op_argv(op) matches Ok(argv) ==> argv == seq![
                    "/usr/local/bin/driver"@,
                    "key"@,
                ] + keys
            },
        },
{
    lemma_body_words();
}

/// A tool asks for what it is named after, with the arguments it was given. A
/// click without a button is with the left one; arguments that are missing or
/// of the wrong kind, and tools that nobody knows, ask for nothing.
pub proof fn law_tools_ask_for_what_they_are_given(name: Seq<char>, args: JsonView)
    ensures
        name == "berth_screenshot"@ ==> asked_action(name, args) == Ok::<ActionView, McpErrorView>(
            ActionView::Screenshot,
        ),
        name == "berth_end"@ ==> asked_action(name, args) == Ok::<ActionView, McpErrorView>(
            ActionView::End,
        ),
        name == "berth_click"@ ==> match (args.field("x"@), args.field("y"@)) {
            (
                Some(JsonView::Number(Some(x), _)),
                Some(JsonView::Number(Some(y), _)),
            ) => if i32::MIN <= x <= i32::MAX && i32::MIN <= y <= i32::MAX {
                &&& asked_action(name, args) matches Ok(ActionView::Click { x: cx, y: cy, button })
                &&& cx == x && cy == y
                &&& match args.field("button"@) {
                    Some(JsonView::Str(named)) => button == named,
                    _ => button == "left"@,
                }
            } else {
                asked_action(name, args) is Err
            },
            _ => asked_action(name, args) is Err,
        },
        name == "berth_type"@ ==> match args.field("text"@) {
            Some(JsonView::Str(text)) => if text.len() > 0 {
                asked_action(name, args) == Ok::<ActionView, McpErrorView>(
                    ActionView::Type { text },
                )
            } else {
                asked_action(name, args) is Err
            },
            _ => asked_action(name, args) is Err,
        },
        name == "berth_key"@ ==> match asked_action(name, args) {
            Ok(action) => action matches ActionView::Key { keys } && keys.len() > 0,
            Err(_) => true,
        },
        name != "berth_screenshot"@ && name != "berth_click"@ && name != "berth_type"@ && name
            != "berth_key"@ && name != "berth_end"@ ==> asked_action(name, args) == Err::<
            ActionView,
            McpErrorView,
        >(McpErrorView::Usage("unknown tool `"@ + name + "`"@)),
{
    reveal_strlit("berth_screenshot");
    reveal_strlit("berth_click");
    reveal_strlit("berth_type");
    reveal_strlit("berth_key");
    reveal_strlit("berth_end");
    assert("berth_screenshot"@.len() == 16 && "berth_click"@.len() == 11 && "berth_type"@.len()
        == 10 && "berth_key"@.len() == 9 && "berth_end"@.len() == 9);
    assert("berth_key"@[6] == 'k' && "berth_end"@[6] == 'e');
}

/// A request goes to the lease it is about, on the client's node, with the
/// client's token, as the node reads it: a picture is fetched, an end is a
/// deletion, and everything else is posted.
pub proof fn law_requests_go_to_the_lease(
    request: NodeRequest,
    client: NodeClient,
    action: ActionView,
    lease_id: Seq<char>,
)
    requires
        is_request(
            request,
            client,
            action_method(action),
            action_path(action, lease_id),
            action_body(action),
        ),
    ensures
        bearer(Some(request.authorization@)) == Some(client.token@),
        ({
            let node = without_trailing(client.url@, '/');
            match action {
                ActionView::Screenshot => request.method == Method::Get && request.url@ == node
                    + "/v1/leases/"@ + lease_id + "/screenshot"@ && request.body is None,
                ActionView::End => request.method == Method::Delete && request.url@ == node
                    + "/v1/leases/"@ + lease_id && request.body is None,
                _ => request.method == Method::Post && request.url@ == node + "/v1/leases/"@
                    + lease_id + "/actions"@ && request.body is Some,
            }
        }),
{
    lemma_bearer_of_header(client.token@);
    let node = without_trailing(client.url@, '/');
    assert(node + ("/v1/leases/"@ + lease_id + "/screenshot"@) =~= node + "/v1/leases/"@ + lease_id
        + "/screenshot"@);
    assert(node + ("/v1/leases/"@ + lease_id + "/actions"@) =~= node + "/v1/leases/"@ + lease_id
        + "/actions"@);
    assert(node + ("/v1/leases/"@ + lease_id) =~= node + "/v1/leases/"@ + lease_id);
}

/// The node answered with a status of success.
pub open spec fn succeeded(outcome: HttpOutcome) -> bool {
    outcome matches HttpOutcome::Answered { status, content_type, body } && 200 <= status <= 299
}

/// The text of a result that is one text.
pub open spec fn shows_text(result: ToolResult, text: Seq<char>) -> bool {
    &&& result.content@.len() == 1
    &&& result.content@[0] matches McpContent::Text { text: shown }
    &&& shown@ == text
}

/// A tool fails exactly where the node could not be reached, refused, or sent
/// a picture that could not be read; but a lease that is gone needs no ending.
/// A picture is handed on as it came, and a refusal in the node's own words.
pub proof fn law_results_tell_what_the_node_said(
    result: ToolResult,
    action: ActionView,
    lease_id: Seq<char>,
    outcome: HttpOutcome,
)
    requires
        is_action_result(result, action, lease_id, outcome),
    ensures
        result.content@.len() == 1,
        match action {
            ActionView::Screenshot => match outcome {
                HttpOutcome::Answered { status, content_type, body: Ok(bytes) } => {
                    &&& result.is_error == !(200 <= status <= 299)
                    &&& 200 <= status <= 299 && bytes@.len() <= 8 * 1024 * 1024 ==> {
                        &&& result.content@[0] matches McpContent::Image { data, mime_type }
                        &&& data@ == base64_text(bytes@)
                        &&& mime_type@ == "image/png"@
                    }
                },
                _ => result.is_error,
            },
            ActionView::End => {
                &&& succeeded(outcome) ==> !result.is_error && shows_text(
                    result,
                    "lease "@ + lease_id + " ended"@,
                )
                &&& outcome matches HttpOutcome::Answered { status, content_type, body } ==> {
                    &&& status == 404 ==> !result.is_error && shows_text(
                        result,
                        "lease "@ + lease_id + " gone"@,
                    )
                    &&& status != 404 && !(200 <= status <= 299) ==> result.is_error
                }
                &&& outcome is Transport ==> result.is_error
            },
            _ => {
                &&& result.is_error == !succeeded(outcome)
                &&& succeeded(outcome) ==> shows_text(result, "OK"@)
            },
        },
        result.is_error && !(action is End && outcome matches HttpOutcome::Answered {
            status: 404,
            ..
        }) ==> match outcome {
            HttpOutcome::Transport(reason) => shows_text(
                result,
                "could not reach node: "@ + reason@,
            ),
            HttpOutcome::Answered { status, content_type, body: Ok(bytes) } => (
            json_document(bytes@) matches Ok(doc) && doc.field("error"@) matches Some(
                JsonView::Str(message),
            )) ==> shows_text(result, json_document(bytes@)->Ok_0.field("error"@)->0->Str_0),
            _ => true,
        },
{
}

/// A key as it is named in a chord: some text without a plus sign, and without
/// white space around it.
pub open spec fn is_key_name(key: Seq<char>) -> bool {
    key.len() > 0 && lacks(key, '+') && trimmed(key) == key
}

proof fn lemma_key_names_are_kept(keys: Seq<Seq<char>>)
    requires
        forall|i: int| 0 <= i < keys.len() ==> is_key_name(#[trigger] keys[i]),
    ensures
        trimmed_pieces(keys) == keys,
    decreases keys.len(),
{
    if keys.len() > 0 {
        let front = keys.drop_last();
        assert forall|i: int| 0 <= i < front.len() implies is_key_name(#[trigger] front[i]) by {
            assert(front[i] == keys[i]);
        }
        lemma_key_names_are_kept(front);
        assert(is_key_name(keys[keys.len() - 1]));
        assert(front.push(keys.last()) =~= keys);
    } else {
        assert(keys =~= Seq::empty());
    }
}

proof fn lemma_single_keys(keys: Seq<Seq<char>>, items: Seq<JsonView>)
    requires
        items.len() == keys.len(),
        forall|i: int| 0 <= i < keys.len() ==> is_key_name(#[trigger] keys[i]),
        forall|i: int| 0 <= i < keys.len() ==> #[trigger] items[i] == JsonView::Str(keys[i]),
    ensures
        chords_keys(items) == keys,
    decreases keys.len(),
{
    if keys.len() > 0 {
        let n = keys.len() - 1;
        let front = keys.drop_last();
        let before = items.drop_last();
        assert forall|i: int| 0 <= i < front.len() implies is_key_name(#[trigger] front[i]) by {
            assert(front[i] == keys[i]);
        }
        assert forall|i: int| 0 <= i < front.len() implies #[trigger] before[i] == JsonView::Str(
            front[i],
        ) by {
            assert(before[i] == items[i]);
        }
        lemma_single_keys(front, before);
        let last = seq![keys[n]];
        assert(is_key_name(keys[n]));
        assert(items[n] == JsonView::Str(keys[n]));
        law_joined_pieces_split_again(last, '+');
        assert(joined(last, '+') == keys[n]);
        lemma_key_names_are_kept(last);
        assert(chord_keys(keys[n]) == last);
        assert(front + last =~= keys);
    } else {
        assert(keys =~= Seq::empty());
        assert(items =~= Seq::empty());
    }
}

/// The keys that are pressed are the keys that were named, in their order,
/// whether as one chord with plus signs between them or as a list.
pub proof fn law_named_keys_are_pressed(keys: Seq<Seq<char>>, items: Seq<JsonView>)
    requires
        keys.len() > 0,
        forall|i: int| 0 <= i < keys.len() ==> is_key_name(#[trigger] keys[i]),
        items.len() == keys.len(),
        forall|i: int| 0 <= i < keys.len() ==> #[trigger] items[i] == JsonView::Str(keys[i]),
    ensures
        keys_argument(Some(JsonView::Str(joined(keys, '+')))) == Ok::<
            Seq<Seq<char>>,
            McpErrorView,
        >(keys),
        keys_argument(Some(JsonView::Array(items))) == Ok::<Seq<Seq<char>>, McpErrorView>(keys),
        op_argv(OpView::Key { keys }) is Ok,
{
    assert forall|i: int| 0 <= i < keys.len() implies lacks(#[trigger] keys[i], '+') by {
        assert(is_key_name(keys[i]));
    }
    law_joined_pieces_split_again(keys, '+');
    lemma_key_names_are_kept(keys);
    lemma_single_keys(keys, items);
    assert(is_key_name(keys[0]));
    assert(trimmed(keys[0]).len() > 0);
}

/// `berth_key` asks for the keys of its `keys` argument; what is neither a text
/// nor a list names no keys, and neither does what names nothing.
pub proof fn law_key_tool_asks_for_its_keys(args: JsonView)
    ensures
        asked_action("berth_key"@, args) == match keys_argument(args.field("keys"@)) {
            Ok(keys) => Ok::<ActionView, McpErrorView>(ActionView::Key { keys }),
            Err(e) => Err::<ActionView, McpErrorView>(e),
        },
        !(args.field("keys"@) matches Some(JsonView::Str(_))) && !(args.field("keys"@) matches Some(
            JsonView::Array(_),
        )) ==> keys_argument(args.field("keys"@)) is Err,
        keys_argument(Some(JsonView::Array(Seq::empty()))) is Err,
{
    law_tools_ask_for_what_they_are_given("berth_key"@, args);
    reveal_strlit("berth_screenshot");
    reveal_strlit("berth_click");
    reveal_strlit("berth_type");
    reveal_strlit("berth_key");
    reveal_strlit("berth_end");
    assert("berth_screenshot"@.len() == 16 && "berth_click"@.len() == 11 && "berth_type"@.len()
        == 10 && "berth_key"@.len() == 9 && "berth_end"@.len() == 9);
    assert("berth_key"@[6] == 'k' && "berth_end"@[6] == 'e');
}

/// A client file is of use exactly where it was read and holds a token.
pub proof fn law_client_files_need_a_token(file: ClientFile)
    ensures
        client_refusal(file) is None <==> (file matches ClientFile::Read(config)
            && config.token@.len() > 0),
        file is Unreadable ==> client_refusal(file) matches Some(McpErrorView::Usage(_)),
        file matches ClientFile::Malformed(reason) ==> client_refusal(file) == Some(
            McpErrorView::Config(reason@),
        ),
{
}

/// An answer of success gives the document that it holds; any other is the
/// node's refusal, with its status.
pub proof fn law_answers_are_read_by_their_status(
    status: u16,
    content_type: Option<Seq<char>>,
    doc: JsonView,
)
    ensures
        200 <= status <= 299 && status != 204 ==> json_reply(status, content_type, Some(doc)) == Ok::<
            JsonView,
            McpErrorView,
        >(doc),
        !(200 <= status <= 299) ==> (json_reply(status, content_type, Some(doc)) matches Err(
            McpErrorView::Api { status: told, message },
        ) && told == status && (doc.field("error"@) matches Some(JsonView::Str(words)) ==> message
            == words)),
        !(200 <= status <= 299) ==> (json_reply(status, content_type, None) matches Err(
            McpErrorView::Api { status: told, message },
        ) && told == status && message == "http "@ + decimal(status as nat)),
{
}

/// A call that has failed is over, and its result is an error that says why.
pub proof fn law_failed_calls_are_errors(step: CallStep, e: McpErrorView)
    requires
        has_failed(step, e),
    ensures
        step matches CallStep::Finished(result) && result.is_error && shows_text(
            result,
            match e {
                McpErrorView::Usage(words) => words,
                McpErrorView::Api { status, message } => message,
                McpErrorView::Http(reason) => "could not reach node: "@ + reason,
                McpErrorView::Json(reason) => "json: "@ + reason,
                McpErrorView::Io(reason) => "io: "@ + reason,
                McpErrorView::Config(reason) => "config: "@ + reason,
            },
        ),
{
}

/// What is wrong with an argument is named.
pub proof fn law_wrong_arguments_are_named(args: JsonView, key: Seq<char>)
    ensures
        match args.field(key) {
            None => integer_argument(args, key) == Err::<i32, McpErrorView>(
                McpErrorView::Usage(key + " is required"@),
            ),
            Some(JsonView::Number(Some(n), _)) => if i32::MIN <= n <= i32::MAX {
                integer_argument(args, key) == Ok::<i32, McpErrorView>(n as i32)
            } else {
                integer_argument(args, key) == Err::<i32, McpErrorView>(
                    McpErrorView::Usage(key + " is out of range"@),
                )
            },
            Some(_) => integer_argument(args, key) == Err::<i32, McpErrorView>(
                McpErrorView::Usage(key + " must be an integer"@),
            ),
        },
        keys_argument(None) == Err::<Seq<Seq<char>>, McpErrorView>(
            McpErrorView::Usage("keys is required"@),
        ),
        keys_argument(Some(JsonView::Null)) == Err::<Seq<Seq<char>>, McpErrorView>(
            McpErrorView::Usage("keys must be a string or array of strings"@),
        ),
        keys_argument(Some(JsonView::Array(Seq::empty()))) == Err::<Seq<Seq<char>>, McpErrorView>(
            McpErrorView::Usage("keys is empty"@),
        ),
{
}

/// Ending a lease succeeds where the node ended it and where it was gone, and
/// fails as the node did otherwise.
pub proof fn law_ends_are_told_as_the_node_told_them(
    r: Result<ToolResult, McpError>,
    lease_id: Seq<char>,
    reply: Result<JsonView, McpErrorView>,
)
    requires
        is_end_result(r, lease_id, reply),
    ensures
        reply is Ok ==> (r matches Ok(result) && !result.is_error && shows_text(
            result,
            "lease "@ + lease_id + " ended"@,
        )),
        reply matches Err(McpErrorView::Api { status, message }) && status == 404 ==> (
        r matches Ok(result) && !result.is_error && shows_text(
            result,
            "lease "@ + lease_id + " gone"@,
        )),
        reply matches Err(e) && !(e matches McpErrorView::Api { status, message } && status == 404)
            ==> (r matches Err(failure) && failure@ == reply->Err_0),
{
}

} // verus!
