//! MCP server for a live isolated Linux guest.
//!
//! Tools talk to the node over loopback HTTP with the `lease` bearer.
//! They refuse when no lease is live. They never target the host desktop.
//!
//! The server decides what to ask and what the answers mean; reading the
//! client file and talking to the node is left to the caller, step by step.

use vstd::prelude::*;
use vstd::string::*;

use crate::action::{op_argv, OpView};
use crate::decimal::{decimal, print_u64, signed_decimal};
use crate::encoding::{
    base64_text, encode_base64, law_base64_loses_nothing, MAX_ENCODED_BYTES,
};
use crate::json::{
    json_document, json_views, lemma_array_view, object1, object2, object3, object4, opt_json,
    string_array, Json, JsonView,
};
use crate::session::Lease;
use crate::text::{
    concat, concat3, contains, contains_text, lemma_trimmed_again, opt_string, opt_text, same,
    split, split_pieces, texts, trim, trim_end_slashes, trimmed, without_trailing,
};

verus! {

/// Version that the server reports.
pub const SERVER_VERSION: &'static str = "0.1.0";

/// MCP version spoken where the client asks for none.
pub const DEFAULT_MCP_VERSION: &'static str = "2024-11-05";

/// MCP content item.
#[derive(Debug, PartialEq, Eq)]
pub enum McpContent {
    /// Text payload.
    Text {
        /// Message.
        text: String,
    },
    /// PNG (or other) image, base64.
    Image {
        /// Base64 payload.
        data: String,
        /// MIME type.
        mime_type: String,
    },
}

/// Result of `tools/call`.
#[derive(Debug, PartialEq, Eq)]
pub struct ToolResult {
    /// Content blocks.
    pub content: Vec<McpContent>,
    /// True when the tool failed.
    pub is_error: bool,
}

/// A content item as JSON.
pub open spec fn content_json(content: McpContent) -> JsonView {
    match content {
        McpContent::Text { text } => JsonView::Object(
            seq![("type"@, JsonView::Str("text"@)), ("text"@, JsonView::Str(text@))],
        ),
        McpContent::Image { data, mime_type } => JsonView::Object(
            seq![
                ("type"@, JsonView::Str("image"@)),
                ("data"@, JsonView::Str(data@)),
                ("mimeType"@, JsonView::Str(mime_type@)),
            ],
        ),
    }
}

/// A tool result as JSON. Only a failure says whether it is one.
pub open spec fn result_json(result: ToolResult) -> JsonView {
    let content = JsonView::Array(result.content@.map_values(|c: McpContent| content_json(c)));
    if result.is_error {
        JsonView::Object(seq![("content"@, content), ("isError"@, JsonView::Bool(true))])
    } else {
        JsonView::Object(seq![("content"@, content)])
    }
}

/// `result` is one text, and a failure or not.
pub open spec fn is_text_result(result: ToolResult, text: Seq<char>, is_error: bool) -> bool {
    &&& result.content@.len() == 1
    &&& result.content@[0] matches McpContent::Text { text: shown }
    &&& shown@ == text
    &&& result.is_error == is_error
}

/// `result` is one PNG.
pub open spec fn is_png_result(result: ToolResult, png: Seq<u8>) -> bool {
    &&& result.content@.len() == 1
    &&& result.content@[0] matches McpContent::Image { data, mime_type }
    &&& data@ == base64_text(png)
    &&& mime_type@ == "image/png"@
    &&& !result.is_error
}

impl McpContent {
    /// This item as JSON.
    pub fn to_json(&self) -> (r: Json)
        ensures
            r@ == content_json(*self),
    {
        match self {
            McpContent::Text { text } => object2(
                "type",
                Json::string("text"),
                "text",
                Json::string(text.as_str()),
            ),
            McpContent::Image { data, mime_type } => object3(
                "type",
                Json::string("image"),
                "data",
                Json::string(data.as_str()),
                "mimeType",
                Json::string(mime_type.as_str()),
            ),
        }
    }
}

impl ToolResult {
    /// Plain-text success.
    pub fn text(text: &str) -> (r: ToolResult)
        ensures
            is_text_result(r, text@, false),
    {
        ToolResult { content: vec![McpContent::Text { text: text.to_string() }], is_error: false }
    }

    /// Plain-text error.
    pub fn err(text: &str) -> (r: ToolResult)
        ensures
            is_text_result(r, text@, true),
    {
        ToolResult { content: vec![McpContent::Text { text: text.to_string() }], is_error: true }
    }

    /// This result as JSON.
    pub fn to_json(&self) -> (r: Json)
        ensures
            r@ == result_json(*self),
    {
        let mut items: Vec<Json> = Vec::new();
        let mut i: usize = 0;
        while i < self.content.len()
            invariant
                i <= self.content@.len(),
                items@.len() == i,
                forall|k: int|
                    0 <= k < i ==> (#[trigger] items@[k])@ == content_json(self.content@[k]),
            decreases self.content@.len() - i,
        {
            items.push(self.content[i].to_json());
            i += 1;
        }
        proof {
            lemma_array_view(items);
            assert(json_views(items@) =~= self.content@.map_values(
                |c: McpContent| content_json(c),
            ));
        }
        let content = Json::Array(items);
        if self.is_error {
            object2("content", content, "isError", Json::Bool(true))
        } else {
            object1("content", content)
        }
    }
}

/// MCP failures.
#[derive(Debug, PartialEq, Eq)]
pub enum McpError {
    /// Bad tool arguments or missing pair/lease.
    Usage(String),
    /// Node HTTP error.
    Api {
        /// Status code.
        status: u16,
        /// Body message.
        message: String,
    },
    /// Transport.
    Http(String),
    /// JSON.
    Json(String),
    /// IO.
    Io(String),
    /// Config TOML.
    Config(String),
}

/// An MCP failure with its text.
pub enum McpErrorView {
    /// Bad tool arguments or missing pair/lease.
    Usage(Seq<char>),
    /// Node HTTP error.
    Api {
        /// Status code.
        status: u16,
        /// Body message.
        message: Seq<char>,
    },
    /// Transport.
    Http(Seq<char>),
    /// JSON.
    Json(Seq<char>),
    /// IO.
    Io(Seq<char>),
    /// Config TOML.
    Config(Seq<char>),
}

impl View for McpError {
    type V = McpErrorView;

    open spec fn view(&self) -> McpErrorView {
        match self {
            McpError::Usage(m) => McpErrorView::Usage(m@),
            McpError::Api { status, message } => McpErrorView::Api {
                status: *status,
                message: message@,
            },
            McpError::Http(m) => McpErrorView::Http(m@),
            McpError::Json(m) => McpErrorView::Json(m@),
            McpError::Io(m) => McpErrorView::Io(m@),
            McpError::Config(m) => McpErrorView::Config(m@),
        }
    }
}

/// Text of an MCP failure.
pub open spec fn mcp_error_text(e: McpErrorView) -> Seq<char> {
    match e {
        McpErrorView::Usage(m) => m,
        McpErrorView::Api { status, message } => message,
        McpErrorView::Http(m) => "could not reach node: "@ + m,
        McpErrorView::Json(m) => "json: "@ + m,
        McpErrorView::Io(m) => "io: "@ + m,
        McpErrorView::Config(m) => "config: "@ + m,
    }
}

impl McpError {
    /// Human-readable reason.
    pub fn message(&self) -> (r: String)
        ensures
            r@ == mcp_error_text(self@),
    {
        match self {
            McpError::Usage(m) => m.clone(),
            McpError::Api { status, message } => message.clone(),
            McpError::Http(m) => concat("could not reach node: ", m.as_str()),
            McpError::Json(m) => concat("json: ", m.as_str()),
            McpError::Io(m) => concat("io: ", m.as_str()),
            McpError::Config(m) => concat("config: ", m.as_str()),
        }
    }

    fn usage(text: &str) -> (r: McpError)
        ensures
            r@ == McpErrorView::Usage(text@),
    {
        McpError::Usage(text.to_string())
    }
}

/// A required integer argument.
pub open spec fn integer_argument(args: JsonView, key: Seq<char>) -> Result<i32, McpErrorView> {
    match args.field(key) {
        None => Err(McpErrorView::Usage(key + " is required"@)),
        Some(value) => match value.integer() {
            Some(n) => if i32::MIN <= n <= i32::MAX {
                Ok(n as i32)
            } else {
                Err(McpErrorView::Usage(key + " is out of range"@))
            },
            None => Err(McpErrorView::Usage(key + " must be an integer"@)),
        },
    }
}

/// A required integer argument.
pub fn require_i32(args: &Json, key: &str) -> (r: Result<i32, McpError>)
    ensures
        match r {
            Ok(n) => integer_argument(args@, key@) == Ok::<i32, McpErrorView>(n),
            Err(e) => integer_argument(args@, key@) == Err::<i32, McpErrorView>(e@),
        },
{
    match args.get(key) {
        None => Err(McpError::Usage(concat(key, " is required"))),
        Some(value) => match value.as_i64() {
            Some(n) => if i32::MIN as i64 <= n && n <= i32::MAX as i64 {
                Ok(n as i32)
            } else {
                Err(McpError::Usage(concat(key, " is out of range")))
            },
            None => Err(McpError::Usage(concat(key, " must be an integer"))),
        },
    }
}

/// The pieces without the white space around them, blank ones left out.
pub open spec fn trimmed_pieces(pieces: Seq<Seq<char>>) -> Seq<Seq<char>>
    decreases pieces.len(),
{
    if pieces.len() == 0 {
        Seq::empty()
    } else {
        let before = trimmed_pieces(pieces.drop_last());
        let piece = trimmed(pieces.last());
        if piece.len() == 0 {
            before
        } else {
            before.push(piece)
        }
    }
}

/// The keys of a chord such as `ctrl+s`.
pub open spec fn chord_keys(chord: Seq<char>) -> Seq<Seq<char>> {
    trimmed_pieces(split_pieces(chord, '+'))
}

/// The keys of every chord in a list, in order. What is no text is left out.
pub open spec fn chords_keys(items: Seq<JsonView>) -> Seq<Seq<char>>
    decreases items.len(),
{
    if items.len() == 0 {
        Seq::empty()
    } else {
        let before = chords_keys(items.drop_last());
        match items.last().text() {
            Some(chord) => before + chord_keys(chord),
            None => before,
        }
    }
}

/// The required `keys` argument.
pub open spec fn keys_argument(value: Option<JsonView>) -> Result<Seq<Seq<char>>, McpErrorView> {
    match value {
        None => Err(McpErrorView::Usage("keys is required"@)),
        Some(value) => match value {
            JsonView::Str(chord) => some_keys(chord_keys(chord)),
            JsonView::Array(items) => some_keys(chords_keys(items)),
            _ => Err(McpErrorView::Usage("keys must be a string or array of strings"@)),
        },
    }
}

/// The keys, unless there are none.
pub open spec fn some_keys(keys: Seq<Seq<char>>) -> Result<Seq<Seq<char>>, McpErrorView> {
    if keys.len() == 0 {
        Err(McpErrorView::Usage("keys is empty"@))
    } else {
        Ok(keys)
    }
}

/// The keys of a chord such as `ctrl+s`.
pub fn split_keys(text: &str) -> (r: Vec<String>)
    ensures
        texts(r@) == chord_keys(text@),
{
    let pieces = split(text, '+');
    let ghost all = texts(pieces@);
    let mut keys: Vec<String> = Vec::new();
    let mut i: usize = 0;
    assert(texts(keys@) =~= Seq::empty());
    assert(all.take(0) =~= Seq::empty());
    while i < pieces.len()
        invariant
            all == texts(pieces@),
            i <= pieces@.len(),
            texts(keys@) == trimmed_pieces(all.take(i as int)),
        decreases pieces@.len() - i,
    {
        assert(all.take(i + 1).drop_last() =~= all.take(i as int));
        let piece = trim(pieces[i].as_str());
        let ghost before = keys@;
        if !piece.as_str().is_empty() {
            keys.push(piece);
            assert(texts(keys@) =~= texts(before).push(piece@));
        }
        i += 1;
    }
    assert(all.take(i as int) =~= all);
    keys
}

fn push_all(list: &mut Vec<String>, more: &Vec<String>)
    ensures
        texts(final(list)@) == texts(old(list)@) + texts(more@),
{
    let ghost start = texts(list@);
    let mut i: usize = 0;
    assert(start + texts(more@).take(0) =~= start);
    while i < more.len()
        invariant
            i <= more@.len(),
            texts(list@) == start + texts(more@).take(i as int),
        decreases more@.len() - i,
    {
        let ghost before = list@;
        list.push(more[i].clone());
        assert(texts(list@) =~= texts(before).push(more@[i as int]@));
        assert(start + texts(more@).take(i + 1) =~= (start + texts(more@).take(i as int)).push(
            more@[i as int]@,
        ));
        i += 1;
    }
    assert(texts(more@).take(i as int) =~= texts(more@));
}

fn split_each(items: &Vec<Json>) -> (r: Vec<String>)
    ensures
        texts(r@) == chords_keys(json_views(items@)),
{
    let ghost all = json_views(items@);
    let mut keys: Vec<String> = Vec::new();
    let mut i: usize = 0;
    assert(texts(keys@) =~= Seq::empty());
    assert(all.take(0) =~= Seq::empty());
    while i < items.len()
        invariant
            all == json_views(items@),
            i <= items@.len(),
            texts(keys@) == chords_keys(all.take(i as int)),
        decreases items@.len() - i,
    {
        assert(all.take(i + 1).drop_last() =~= all.take(i as int));
        if let Some(chord) = items[i].as_str() {
            push_all(&mut keys, &split_keys(chord));
        }
        i += 1;
    }
    assert(all.take(i as int) =~= all);
    keys
}

/// The required `keys` argument: a chord, or a list of chords.
pub fn parse_keys(value: Option<&Json>) -> (r: Result<Vec<String>, McpError>)
    ensures
        match r {
            Ok(keys) => keys_argument(opt_json(value)) == Ok::<Seq<Seq<char>>, McpErrorView>(
                texts(keys@),
            ),
            Err(e) => keys_argument(opt_json(value)) == Err::<Seq<Seq<char>>, McpErrorView>(e@),
        },
{
    let keys = match value {
        None => {
            return Err(McpError::usage("keys is required"));
        },
        Some(json) => match json {
            Json::Str(chord) => split_keys(chord.as_str()),
            Json::Array(items) => {
                proof {
                    lemma_array_view(*items);
                }
                split_each(items)
            },
            _ => {
                return Err(McpError::usage("keys must be a string or array of strings"));
            },
        },
    };
    if keys.len() == 0 {
        return Err(McpError::usage("keys is empty"));
    }
    Ok(keys)
}

/// What a tool asks of the node.
#[derive(Debug, PartialEq, Eq)]
pub enum ToolAction {
    /// Fetch a PNG of the guest.
    Screenshot,
    /// Click in the guest.
    Click {
        /// Horizontal pixel.
        x: i32,
        /// Vertical pixel.
        y: i32,
        /// Button by name.
        button: String,
    },
    /// Type into the guest.
    Type {
        /// Text to type.
        text: String,
    },
    /// Key or chord in the guest.
    Key {
        /// Key names.
        keys: Vec<String>,
    },
    /// End the lease.
    End,
}

/// What a tool asks of the node, with its texts.
pub enum ActionView {
    /// Fetch a PNG of the guest.
    Screenshot,
    /// Click in the guest.
    Click {
        /// Horizontal pixel.
        x: i32,
        /// Vertical pixel.
        y: i32,
        /// Button by name.
        button: Seq<char>,
    },
    /// Type into the guest.
    Type {
        /// Text to type.
        text: Seq<char>,
    },
    /// Key or chord in the guest.
    Key {
        /// Key names.
        keys: Seq<Seq<char>>,
    },
    /// End the lease.
    End,
}

impl View for ToolAction {
    type V = ActionView;

    open spec fn view(&self) -> ActionView {
        match self {
            ToolAction::Screenshot => ActionView::Screenshot,
            ToolAction::Click { x, y, button } => ActionView::Click {
                x: *x,
                y: *y,
                button: button@,
            },
            ToolAction::Type { text } => ActionView::Type { text: text@ },
            ToolAction::Key { keys } => ActionView::Key { keys: texts(keys@) },
            ToolAction::End => ActionView::End,
        }
    }
}

/// What `berth_click` asks of the node.
pub open spec fn asked_click(args: JsonView) -> Result<ActionView, McpErrorView> {
    match (integer_argument(args, "x"@), integer_argument(args, "y"@)) {
        (Err(e), _) => Err(e),
        (_, Err(e)) => Err(e),
        (Ok(x), Ok(y)) => Ok(
            ActionView::Click {
                x,
                y,
                button: match args.text_field("button"@) {
                    Some(name) => name,
                    None => "left"@,
                },
            },
        ),
    }
}

/// What `berth_type` asks of the node.
pub open spec fn asked_type(args: JsonView) -> Result<ActionView, McpErrorView> {
    match args.text_field("text"@) {
        None => Err(McpErrorView::Usage("text is required"@)),
        Some(text) => if text.len() == 0 {
            Err(McpErrorView::Usage("text is empty"@))
        } else {
            Ok(ActionView::Type { text })
        },
    }
}

/// What `berth_key` asks of the node.
pub open spec fn asked_key(args: JsonView) -> Result<ActionView, McpErrorView> {
    match keys_argument(args.field("keys"@)) {
        Ok(keys) => Ok(ActionView::Key { keys }),
        Err(e) => Err(e),
    }
}

/// What a tool asks of the node.
pub open spec fn asked_action(name: Seq<char>, args: JsonView) -> Result<ActionView, McpErrorView> {
    if name == "berth_screenshot"@ {
        Ok(ActionView::Screenshot)
    } else if name == "berth_click"@ {
        asked_click(args)
    } else if name == "berth_type"@ {
        asked_type(args)
    } else if name == "berth_key"@ {
        asked_key(args)
    } else if name == "berth_end"@ {
        Ok(ActionView::End)
    } else {
        Err(McpErrorView::Usage("unknown tool `"@ + name + "`"@))
    }
}

/// The view of what planning an action came to.
pub open spec fn planned_action(r: Result<ToolAction, McpError>) -> Result<
    ActionView,
    McpErrorView,
> {
    match r {
        Ok(action) => Ok(action@),
        Err(e) => Err(e@),
    }
}

/// What a client file says.
#[derive(Debug, PartialEq, Eq)]
pub struct ClientConfig {
    /// Node URL.
    pub url: String,
    /// Bearer token.
    pub token: String,
}

/// What reading `client.toml` came to.
#[derive(Debug, PartialEq, Eq)]
pub enum ClientFile {
    /// It could not be read.
    Unreadable,
    /// It is not what it should be; the reason.
    Malformed(String),
    /// It says this.
    Read(ClientConfig),
}

/// Why a client file is of no use.
pub open spec fn client_refusal(file: ClientFile) -> Option<McpErrorView> {
    match file {
        ClientFile::Unreadable => Some(
            McpErrorView::Usage("not paired; run berth pair and create a linux lease"@),
        ),
        ClientFile::Malformed(reason) => Some(McpErrorView::Config(reason@)),
        ClientFile::Read(config) => if config.token@.len() == 0 {
            Some(McpErrorView::Usage("client.toml has an empty token"@))
        } else {
            None
        },
    }
}

impl ClientConfig {
    /// The client config, from what reading its file came to.
    pub fn load(file: ClientFile) -> (r: Result<ClientConfig, McpError>)
        ensures
            match r {
                Ok(config) => client_refusal(file) is None && file == ClientFile::Read(config),
                Err(e) => client_refusal(file) == Some(e@),
            },
    {
        match file {
            ClientFile::Unreadable => Err(
                McpError::usage("not paired; run berth pair and create a linux lease"),
            ),
            ClientFile::Malformed(reason) => Err(McpError::Config(reason)),
            ClientFile::Read(config) => {
                if config.token.as_str().is_empty() {
                    return Err(McpError::usage("client.toml has an empty token"));
                }
                Ok(config)
            },
        }
    }
}

/// How a request is sent.
#[derive(Debug, Clone, Copy, PartialEq, Eq, Structural)]
pub enum Method {
    /// `GET`.
    Get,
    /// `POST` with a JSON body.
    Post,
    /// `DELETE`.
    Delete,
}

/// A request to the node.
#[derive(Debug)]
pub struct NodeRequest {
    /// How it is sent.
    pub method: Method,
    /// Where it is sent.
    pub url: String,
    /// `Authorization` header.
    pub authorization: String,
    /// JSON body, if it has one.
    pub body: Option<Json>,
}

/// A paired client of a node.
#[derive(Debug, PartialEq, Eq)]
pub struct NodeClient {
    /// Node URL.
    pub url: String,
    /// Bearer token.
    pub token: String,
}

/// The URL of `path` on the client's node.
pub open spec fn node_url(client: NodeClient, path: Seq<char>) -> Seq<char> {
    without_trailing(client.url@, '/') + path
}

/// `request` is sent by the client to `path` on its node, with its bearer.
pub open spec fn is_request(
    request: NodeRequest,
    client: NodeClient,
    method: Method,
    path: Seq<char>,
    body: Option<JsonView>,
) -> bool {
    &&& request.method == method
    &&& request.url@ == node_url(client, path)
    &&& request.authorization@ == "Bearer "@ + client.token@
    &&& match (request.body, body) {
        (Some(sent), Some(asked)) => sent@ == asked,
        (None, None) => true,
        _ => false,
    }
}

/// The path of a lease.
pub open spec fn lease_path(lease_id: Seq<char>) -> Seq<char> {
    "/v1/leases/"@ + lease_id
}

/// An integer as JSON.
pub open spec fn integer_json(n: int) -> JsonView {
    JsonView::Number(Some(n as i64), signed_decimal(n))
}

/// The body of an action, if it is one that is posted.
pub open spec fn action_body(action: ActionView) -> Option<JsonView> {
    match action {
        ActionView::Click { x, y, button } => Some(
            JsonView::Object(
                seq![
                    ("op"@, JsonView::Str("click"@)),
                    ("x"@, integer_json(x as int)),
                    ("y"@, integer_json(y as int)),
                    ("button"@, JsonView::Str(button)),
                ],
            ),
        ),
        ActionView::Type { text } => Some(
            JsonView::Object(
                seq![("op"@, JsonView::Str("type"@)), ("text"@, JsonView::Str(text))],
            ),
        ),
        ActionView::Key { keys } => Some(
            JsonView::Object(
                seq![
                    ("op"@, JsonView::Str("key"@)),
                    ("keys"@, JsonView::Array(keys.map_values(|s: Seq<char>| JsonView::Str(s)))),
                ],
            ),
        ),
        ActionView::Screenshot => None,
        ActionView::End => None,
    }
}

/// How an action is sent.
pub open spec fn action_method(action: ActionView) -> Method {
    match action {
        ActionView::Screenshot => Method::Get,
        ActionView::End => Method::Delete,
        _ => Method::Post,
    }
}

/// Where an action is sent.
pub open spec fn action_path(action: ActionView, lease_id: Seq<char>) -> Seq<char> {
    match action {
        ActionView::Screenshot => lease_path(lease_id) + "/screenshot"@,
        ActionView::End => lease_path(lease_id),
        _ => lease_path(lease_id) + "/actions"@,
    }
}

impl NodeClient {
    fn request(&self, method: Method, path: &str, body: Option<Json>) -> (r: NodeRequest)
        ensures
            is_request(
                r,
                *self,
                method,
                path@,
                match body {
                    Some(json) => Some(json@),
                    None => None,
                },
            ),
    {
        NodeRequest {
            method,
            url: concat(trim_end_slashes(self.url.as_str()).as_str(), path),
            authorization: concat("Bearer ", self.token.as_str()),
            body,
        }
    }

    /// `GET /v1/leases`.
    pub fn list_leases(&self) -> (r: NodeRequest)
        ensures
            is_request(r, *self, Method::Get, "/v1/leases"@, None),
    {
        self.request(Method::Get, "/v1/leases", None)
    }

    /// The request that carries out an action on a lease.
    pub fn action_request(&self, action: &ToolAction, lease_id: &str) -> (r: NodeRequest)
        ensures
            is_request(
                r,
                *self,
                action_method(action@),
                action_path(action@, lease_id@),
                action_body(action@),
            ),
    {
        let lease = concat("/v1/leases/", lease_id);
        match action {
            ToolAction::Screenshot => self.request(
                Method::Get,
                concat(lease.as_str(), "/screenshot").as_str(),
                None,
            ),
            ToolAction::Click { x, y, button } => self.request(
                Method::Post,
                concat(lease.as_str(), "/actions").as_str(),
                Some(
                    object4(
                        "op",
                        Json::string("click"),
                        "x",
                        Json::integer(*x as i64),
                        "y",
                        Json::integer(*y as i64),
                        "button",
                        Json::string(button.as_str()),
                    ),
                ),
            ),
            ToolAction::Type { text } => self.request(
                Method::Post,
                concat(lease.as_str(), "/actions").as_str(),
                Some(object2("op", Json::string("type"), "text", Json::string(text.as_str()))),
            ),
            ToolAction::Key { keys } => self.request(
                Method::Post,
                concat(lease.as_str(), "/actions").as_str(),
                Some(object2("op", Json::string("key"), "keys", string_array(keys))),
            ),
            ToolAction::End => self.request(Method::Delete, lease.as_str(), None),
        }
    }
}

/// What came of a request.
#[derive(Debug, PartialEq, Eq)]
pub enum HttpOutcome {
    /// The node could not be reached; the reason.
    Transport(String),
    /// The node answered.
    Answered {
        /// HTTP status.
        status: u16,
        /// `Content-Type` header.
        content_type: Option<String>,
        /// The body, or why it could not be read.
        body: Result<Vec<u8>, String>,
    },
}

/// A status that means success.
pub open spec fn is_success(status: u16) -> bool {
    200 <= status < 300
}

/// What an answer's body says, if it is a JSON document.
pub open spec fn body_document(body: Result<Vec<u8>, String>) -> Option<JsonView> {
    match body {
        Ok(bytes) => match json_document(bytes@) {
            Ok(doc) => Some(doc),
            Err(_) => None,
        },
        Err(_) => None,
    }
}

/// The failure that an unsuccessful answer stands for.
pub open spec fn api_failure(status: u16, doc: Option<JsonView>) -> McpErrorView {
    McpErrorView::Api {
        status,
        message: match doc {
            Some(doc) => match doc.text_field("error"@) {
                Some(message) => message,
                None => "http "@ + decimal(status as nat),
            },
            None => "http "@ + decimal(status as nat),
        },
    }
}

/// What an answer with this body says.
pub open spec fn json_reply(
    status: u16,
    content_type: Option<Seq<char>>,
    doc: Option<JsonView>,
) -> Result<JsonView, McpErrorView> {
    if !is_success(status) {
        Err(api_failure(status, doc))
    } else if status != 204 || (content_type matches Some(kind) && contains_text(
        kind,
        "application/json"@,
    )) {
        Ok(
            match doc {
                Some(doc) => doc,
                None => JsonView::Null,
            },
        )
    } else {
        Ok(JsonView::Null)
    }
}

/// The view of what reading an answer came to.
pub open spec fn reply_view(r: Result<Json, McpError>) -> Result<JsonView, McpErrorView> {
    match r {
        Ok(json) => Ok(json@),
        Err(e) => Err(e@),
    }
}

/// The failure that an unsuccessful answer stands for: its own words, or its
/// status.
pub fn api_from_response(status: u16, doc: Option<&Json>) -> (r: McpError)
    ensures
        r@ == api_failure(status, opt_json(doc)),
{
    if let Some(json) = doc {
        if let Some(message) = json.text_field("error") {
            return McpError::Api { status, message: message.to_string() };
        }
    }
    McpError::Api { status, message: concat("http ", print_u64(status as u64).as_str()) }
}

/// What an answer says whose body holds `doc`.
pub fn read_document(status: u16, content_type: Option<&str>, doc: Option<Json>) -> (r: Result<
    Json,
    McpError,
>)
    ensures
        reply_view(r) == json_reply(
            status,
            opt_text(content_type),
            match doc {
                Some(json) => Some(json@),
                None => None,
            },
        ),
{
    if !(200 <= status && status < 300) {
        return Err(
            api_from_response(
                status,
                match &doc {
                    Some(json) => Some(json),
                    None => None,
                },
            ),
        );
    }
    let is_json = match content_type {
        Some(kind) => contains(kind, "application/json"),
        None => false,
    };
    if is_json || status != 204 {
        return match doc {
            Some(json) => Ok(json),
            None => Ok(Json::Null),
        };
    }
    Ok(Json::Null)
}

fn parse_body(body: &Result<Vec<u8>, String>) -> (r: Option<Json>)
    ensures
        match r {
            Some(json) => body_document(*body) == Some(json@),
            None => body_document(*body) is None,
        },
{
    match body {
        Ok(bytes) => match Json::parse(bytes.as_slice()) {
            Ok(json) => Some(json),
            Err(_) => None,
        },
        Err(_) => None,
    }
}

/// What came of a request that is answered with JSON.
pub fn read_json(outcome: &HttpOutcome) -> (r: Result<Json, McpError>)
    ensures
        match *outcome {
            HttpOutcome::Transport(reason) => r matches Err(e) && e@ == McpErrorView::Http(
                reason@,
            ),
            HttpOutcome::Answered { status, content_type, body } => reply_view(r) == json_reply(
                status,
                opt_string(content_type),
                body_document(body),
            ),
        },
{
    match outcome {
        HttpOutcome::Transport(reason) => Err(McpError::Http(reason.clone())),
        HttpOutcome::Answered { status, content_type, body } => {
            let kind = match content_type {
                Some(kind) => Some(kind.as_str()),
                None => None,
            };
            read_document(*status, kind, parse_body(body))
        },
    }
}

/// What came of a request that is answered with a picture. Of a longer answer
/// the first eight MiB are kept.
pub open spec fn bytes_reply(outcome: HttpOutcome) -> Result<Seq<u8>, McpErrorView> {
    match outcome {
        HttpOutcome::Transport(reason) => Err(McpErrorView::Http(reason@)),
        HttpOutcome::Answered { status, content_type, body } => if !is_success(status) {
            Err(api_failure(status, body_document(body)))
        } else {
            match body {
                Ok(bytes) => if bytes@.len() <= MAX_ENCODED_BYTES {
                    Ok(bytes@)
                } else {
                    Ok(bytes@.take(MAX_ENCODED_BYTES as int))
                },
                Err(reason) => Err(McpErrorView::Io(reason@)),
            }
        },
    }
}

impl NodeClient {
    /// What came of a request that is answered with a picture.
    pub fn get_bytes(&self, outcome: HttpOutcome) -> (r: Result<Vec<u8>, McpError>)
        ensures
            match r {
                Ok(bytes) => bytes_reply(outcome) == Ok::<Seq<u8>, McpErrorView>(bytes@)
                    && bytes@.len() <= MAX_ENCODED_BYTES,
                Err(e) => bytes_reply(outcome) == Err::<Seq<u8>, McpErrorView>(e@),
            },
    {
        match outcome {
            HttpOutcome::Transport(reason) => Err(McpError::Http(reason)),
            HttpOutcome::Answered { status, content_type, body } => {
                if !(200 <= status && status < 300) {
                    let doc = parse_body(&body);
                    return Err(
                        api_from_response(
                            status,
                            match &doc {
                                Some(json) => Some(json),
                                None => None,
                            },
                        ),
                    );
                }
                match body {
                    Ok(bytes) => {
                        let mut kept = bytes;
                        if kept.len() > MAX_ENCODED_BYTES {
                            kept.truncate(MAX_ENCODED_BYTES);
                            assert(kept@ =~= bytes@.take(MAX_ENCODED_BYTES as int));
                        }
                        Ok(kept)
                    },
                    Err(reason) => Err(McpError::Io(reason)),
                }
            },
        }
    }
}

/// Where a tool call stands: what the caller has to do next, or the result.
#[derive(Debug, PartialEq, Eq)]
pub enum CallStep {
    /// Read `client.toml`, and go on with [`Mcp::client_read`].
    ReadClient(ToolAction),
    /// List the node's leases, and go on with [`Mcp::leases_listed`].
    ListLeases(ToolAction, NodeClient),
    /// Carry out the action on the lease, and go on with [`Mcp::acted`].
    Act(ToolAction, NodeClient, String),
    /// Nothing is left to do.
    Finished(ToolResult),
}

/// The call has failed for this reason.
pub open spec fn has_failed(step: CallStep, e: McpErrorView) -> bool {
    step matches CallStep::Finished(result) && is_text_result(result, mcp_error_text(e), true)
}

/// What a tool says where the node has no lease.
pub open spec fn no_lease_text() -> Seq<char> {
    "no live lease; create one with berth up --os linux (this repo does not take payment)"@
}

/// The result of ending a lease. A lease that is gone already needs no
/// ending.
pub open spec fn is_end_result(
    r: Result<ToolResult, McpError>,
    lease_id: Seq<char>,
    reply: Result<JsonView, McpErrorView>,
) -> bool {
    match reply {
        Ok(_) => r matches Ok(result) && is_text_result(
            result,
            "lease "@ + lease_id + " ended"@,
            false,
        ),
        Err(McpErrorView::Api { status: 404, message }) => r matches Ok(result) && is_text_result(
            result,
            "lease "@ + lease_id + " gone"@,
            false,
        ),
        Err(e) => r matches Err(failure) && failure@ == e,
    }
}

/// MCP server bound to a Berthos home (client.toml).
#[derive(Debug, PartialEq, Eq)]
pub struct Mcp {
    home: String,
}

impl Mcp {
    /// The directory that holds `client.toml`.
    pub closed spec fn home_text(&self) -> Seq<char> {
        self.home@
    }

    /// New server that reads `$BERTHOS_HOME` / `~/.berthos`.
    pub fn new(home: &str) -> (r: Mcp)
        ensures
            r.home_text() == home@,
    {
        Mcp { home: home.to_string() }
    }

    /// The directory that holds `client.toml`.
    pub fn home(&self) -> (r: &str)
        ensures
            r@ == self.home_text(),
    {
        self.home.as_str()
    }

    fn failed(e: &McpError) -> (r: CallStep)
        ensures
            has_failed(r, e@),
    {
        CallStep::Finished(ToolResult::err(e.message().as_str()))
    }

    /// Start of a tool call. Errors become `isError` results.
    pub fn call_tool(&self, name: &str, arguments: &Json) -> (r: CallStep)
        ensures
            match asked_action(name@, arguments@) {
                Ok(asked) => r matches CallStep::ReadClient(action) && action@ == asked,
                Err(e) => has_failed(r, e),
            },
    {
        match self.dispatch(name, arguments) {
            Ok(action) => CallStep::ReadClient(action),
            Err(e) => Mcp::failed(&e),
        }
    }

    fn dispatch(&self, name: &str, args: &Json) -> (r: Result<ToolAction, McpError>)
        ensures
            planned_action(r) == asked_action(name@, args@),
    {
        if same(name, "berth_screenshot") {
            Ok(ToolAction::Screenshot)
        } else if same(name, "berth_click") {
            self.click(args)
        } else if same(name, "berth_type") {
            self.type_text(args)
        } else if same(name, "berth_key") {
            self.key(args)
        } else if same(name, "berth_end") {
            Ok(ToolAction::End)
        } else {
            Err(McpError::Usage(concat3("unknown tool `", name, "`")))
        }
    }

    /// What `berth_click` asks of the node.
    pub fn click(&self, args: &Json) -> (r: Result<ToolAction, McpError>)
        ensures
            planned_action(r) == asked_click(args@),
    {
        let x: i32 = match require_i32(args, "x") {
            Ok(x) => x,
            Err(e) => {
                return Err(e);
            },
        };
        let y: i32 = match require_i32(args, "y") {
            Ok(y) => y,
            Err(e) => {
                return Err(e);
            },
        };
        let button = match args.text_field("button") {
            Some(name) => name,
            None => "left",
        };
        Ok(ToolAction::Click { x, y, button: button.to_string() })
    }

    /// What `berth_type` asks of the node.
    pub fn type_text(&self, args: &Json) -> (r: Result<ToolAction, McpError>)
        ensures
            planned_action(r) == asked_type(args@),
    {
        match args.text_field("text") {
            None => Err(McpError::usage("text is required")),
            Some(text) => {
                if text.is_empty() {
                    return Err(McpError::usage("text is empty"));
                }
                Ok(ToolAction::Type { text: text.to_string() })
            },
        }
    }

    /// What `berth_key` asks of the node.
    pub fn key(&self, args: &Json) -> (r: Result<ToolAction, McpError>)
        ensures
            planned_action(r) == asked_key(args@),
    {
        match parse_keys(args.get("keys")) {
            Ok(keys) => Ok(ToolAction::Key { keys }),
            Err(e) => Err(e),
        }
    }

    /// Goes on once `client.toml` was read.
    pub fn client_read(&self, action: ToolAction, file: ClientFile) -> (r: CallStep)
        ensures
            match client_refusal(file) {
                Some(e) => has_failed(r, e),
                None => file matches ClientFile::Read(config) && r == CallStep::ListLeases(
                    action,
                    NodeClient { url: config.url, token: config.token },
                ),
            },
    {
        match ClientConfig::load(file) {
            Ok(config) => CallStep::ListLeases(
                action,
                NodeClient { url: config.url, token: config.token },
            ),
            Err(e) => Mcp::failed(&e),
        }
    }

    /// The lease that the tools work on: the first of the node's leases. The
    /// tools refuse where there is none.
    pub fn require_live(&self, leases: &Vec<Lease>) -> (r: Result<String, McpError>)
        ensures
            if leases@.len() > 0 {
                r matches Ok(id) && id@ == leases@[0].id.0@
            } else {
                r matches Err(e) && e@ == McpErrorView::Usage(no_lease_text())
            },
    {
        if leases.len() == 0 {
            return Err(
                McpError::usage(
                    "no live lease; create one with berth up --os linux (this repo does not take payment)",
                ),
            );
        }
        Ok(leases[0].id.0.clone())
    }

    /// Goes on once the node's leases were listed.
    pub fn leases_listed(
        &self,
        action: ToolAction,
        client: NodeClient,
        leases: Result<Vec<Lease>, McpError>,
    ) -> (r: CallStep)
        ensures
            match leases {
                Err(e) => has_failed(r, e@),
                Ok(leases) => if leases@.len() > 0 {
                    &&& r matches CallStep::Act(next, by, lease_id)
                    &&& next == action
                    &&& by == client
                    &&& lease_id@ == leases@[0].id.0@
                } else {
                    has_failed(r, McpErrorView::Usage(no_lease_text()))
                },
            },
    {
        match leases {
            Err(e) => Mcp::failed(&e),
            Ok(leases) => match self.require_live(&leases) {
                Ok(lease_id) => CallStep::Act(action, client, lease_id),
                Err(e) => Mcp::failed(&e),
            },
        }
    }

    /// The result of `berth_screenshot`, from what fetching the picture came
    /// to.
    pub fn screenshot(&self, client: &NodeClient, outcome: HttpOutcome) -> (r: Result<
        ToolResult,
        McpError,
    >)
        ensures
            match bytes_reply(outcome) {
                Ok(png) => r matches Ok(result) && is_png_result(result, png),
                Err(e) => r matches Err(failure) && failure@ == e,
            },
    {
        match client.get_bytes(outcome) {
            Ok(png) => Ok(
                ToolResult {
                    content: vec![
                        McpContent::Image {
                            data: encode_base64(png.as_slice()),
                            mime_type: "image/png".to_string(),
                        },
                    ],
                    is_error: false,
                },
            ),
            Err(e) => Err(e),
        }
    }

    /// The result of `berth_end`, from what the deletion was answered.
    pub fn end(&self, lease_id: &str, reply: Result<Json, McpError>) -> (r: Result<
        ToolResult,
        McpError,
    >)
        ensures
            is_end_result(r, lease_id@, reply_view(reply)),
    {
        match reply {
            Ok(_) => {
                let text = concat3("lease ", lease_id, " ended");
                Ok(ToolResult::text(text.as_str()))
            },
            Err(e) => {
                if let McpError::Api { status, message } = &e {
                    if *status == 404 {
                        let text = concat3("lease ", lease_id, " gone");
                        return Ok(ToolResult::text(text.as_str()));
                    }
                }
                Err(e)
            },
        }
    }

    /// Ends the call once the action was carried out.
    pub fn acted(
        &self,
        action: &ToolAction,
        client: &NodeClient,
        lease_id: &str,
        outcome: HttpOutcome,
    ) -> (r: ToolResult)
        ensures
            is_action_result(r, action@, lease_id@, outcome),
    {
        let result = match action {
            ToolAction::Screenshot => self.screenshot(client, outcome),
            ToolAction::End => self.end(lease_id, read_json(&outcome)),
            _ => match read_json(&outcome) {
                Ok(_) => Ok(ToolResult::text("OK")),
                Err(e) => Err(e),
            },
        };
        match result {
            Ok(result) => result,
            Err(e) => ToolResult::err(e.message().as_str()),
        }
    }
}

/// What an answer with JSON came to.
pub open spec fn answered(outcome: HttpOutcome) -> Result<JsonView, McpErrorView> {
    match outcome {
        HttpOutcome::Transport(reason) => Err(McpErrorView::Http(reason@)),
        HttpOutcome::Answered { status, content_type, body } => json_reply(
            status,
            opt_string(content_type),
            body_document(body),
        ),
    }
}

/// `result` is what a tool returns whose action came to `outcome`.
pub open spec fn is_action_result(
    result: ToolResult,
    action: ActionView,
    lease_id: Seq<char>,
    outcome: HttpOutcome,
) -> bool {
    match action {
        ActionView::Screenshot => match bytes_reply(outcome) {
            Ok(png) => is_png_result(result, png),
            Err(e) => is_text_result(result, mcp_error_text(e), true),
        },
        ActionView::End => match answered(outcome) {
            Ok(_) => is_text_result(result, "lease "@ + lease_id + " ended"@, false),
            Err(McpErrorView::Api { status: 404, message }) => is_text_result(
                result,
                "lease "@ + lease_id + " gone"@,
                false,
            ),
            Err(e) => is_text_result(result, mcp_error_text(e), true),
        },
        _ => match answered(outcome) {
            Ok(_) => is_text_result(result, "OK"@, false),
            Err(e) => is_text_result(result, mcp_error_text(e), true),
        },
    }
}

/// A picture that the guest sent is the picture that the client gets: its
/// text stands for no other bytes.
pub proof fn law_picture_arrives_unchanged(result: ToolResult, sent: Seq<u8>, read: Seq<u8>)
    requires
        is_png_result(result, sent),
        is_png_result(result, read),
    ensures
        sent == read,
{
    law_base64_loses_nothing(sent, read);
}

proof fn lemma_trimmed_pieces_are_not_blank(pieces: Seq<Seq<char>>)
    ensures
        forall|i: int|
            0 <= i < trimmed_pieces(pieces).len() ==> trimmed(
                #[trigger] trimmed_pieces(pieces)[i],
            ).len() > 0,
    decreases pieces.len(),
{
    if pieces.len() > 0 {
        lemma_trimmed_pieces_are_not_blank(pieces.drop_last());
        lemma_trimmed_again(pieces.last());
        let before = trimmed_pieces(pieces.drop_last());
        let all = trimmed_pieces(pieces);
        assert forall|i: int| 0 <= i < all.len() implies trimmed(#[trigger] all[i]).len() > 0 by {
            if i < before.len() {
                assert(all[i] == before[i]);
            }
        }
    }
}

proof fn lemma_chords_keys_are_not_blank(items: Seq<JsonView>)
    ensures
        forall|i: int|
            0 <= i < chords_keys(items).len() ==> trimmed(#[trigger] chords_keys(items)[i]).len()
                > 0,
    decreases items.len(),
{
    if items.len() > 0 {
        lemma_chords_keys_are_not_blank(items.drop_last());
        match items.last().text() {
            Some(chord) => {
                lemma_trimmed_pieces_are_not_blank(split_pieces(chord, '+'));
                let before = chords_keys(items.drop_last());
                let more = chord_keys(chord);
                let all = chords_keys(items);
                assert forall|i: int| 0 <= i < all.len() implies trimmed(#[trigger] all[i]).len()
                    > 0 by {
                    if i < before.len() {
                        assert(all[i] == before[i]);
                    } else {
                        assert(all[i] == more[i - before.len()]);
                    }
                }
            },
            None => {},
        }
    }
}

/// What the typing tools accept, the guest's driver can be asked to do: there
/// is something to type, and some key to press.
pub proof fn law_accepted_input_reaches_the_driver(name: Seq<char>, args: JsonView)
    ensures
        match asked_action(name, args) {
            Ok(ActionView::Type { text }) => op_argv(OpView::Type { text }) is Ok,
            Ok(ActionView::Key { keys }) => op_argv(OpView::Key { keys }) is Ok,
            _ => true,
        },
{
    match asked_action(name, args) {
        Ok(ActionView::Key { keys }) => {
            match args.field("keys"@) {
                Some(JsonView::Str(chord)) => {
                    lemma_trimmed_pieces_are_not_blank(split_pieces(chord, '+'));
                },
                Some(JsonView::Array(items)) => {
                    lemma_chords_keys_are_not_blank(items);
                },
                _ => {},
            }
            assert(trimmed(keys[0]).len() > 0);
        },
        _ => {},
    }
}

} // verus!
