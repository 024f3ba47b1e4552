//! Map protocol actions onto the guest driver.
//!
//! Every argv starts at `/usr/local/bin/driver` inside the isolated Linux
//! guest. Host `xdotool`, host `import`, and host `DISPLAY` are never used.

use vstd::prelude::*;

use crate::decimal::{lemma_decimal_digits, print_i64, signed_decimal};
use crate::text::{
    ascii_lower, concat3, contains, contains_text, lowercase, occurs_at, opt_text, same,
    starts_with, starts_with_text, texts, to_lower, trim, trimmed,
};

verus! {

/// Guest driver seam (`action.sh` behind this symlink).
pub const ACTION_BIN: &'static str = "/usr/local/bin/driver";

/// PNG signature used to reject non-frames.
pub const PNG_MAGIC: [u8; 8] = [0x89, 0x50, 0x4E, 0x47, 0x0D, 0x0A, 0x1A, 0x0A];

/// 1×1 transparent PNG returned by the in-memory guest.
pub const MINIMAL_PNG: [u8; 67] = [
    0x89, 0x50, 0x4E, 0x47, 0x0D, 0x0A, 0x1A, 0x0A, 0x00, 0x00, 0x00, 0x0D, 0x49, 0x48, 0x44, 0x52,
    0x00, 0x00, 0x00, 0x01, 0x00, 0x00, 0x00, 0x01, 0x08, 0x06, 0x00, 0x00, 0x00, 0x1F, 0x15, 0xC4,
    0x89, 0x00, 0x00, 0x00, 0x0A, 0x49, 0x44, 0x41, 0x54, 0x78, 0x9C, 0x63, 0x00, 0x01, 0x00, 0x00,
    0x05, 0x00, 0x01, 0x0D, 0x0A, 0x2D, 0xB4, 0x00, 0x00, 0x00, 0x00, 0x49, 0x45, 0x4E, 0x44, 0xAE,
    0x42, 0x60, 0x82,
];

/// Mouse button for a guest click.
#[derive(Debug, Clone, Copy, PartialEq, Eq, Structural)]
pub enum Button {
    /// Primary.
    Left,
    /// Secondary.
    Right,
    /// Middle / wheel.
    Middle,
}

/// An input or capture op that runs *inside* the live guest.
#[derive(Debug, PartialEq, Eq)]
pub enum GuestOp {
    /// PNG of the guest Xvfb.
    Screenshot,
    /// Click at last-frame pixel coordinates (origin top-left).
    Click {
        /// Horizontal pixel.
        x: i32,
        /// Vertical pixel.
        y: i32,
        /// Which button.
        button: Button,
    },
    /// Type into the guest.
    Type {
        /// Text to type. Must be non-empty.
        text: String,
    },
    /// Key or chord in the guest.
    Key {
        /// Key names (`Return`, `ctrl`, `s`).
        keys: Vec<String>,
    },
}

/// A guest op with its texts.
pub enum OpView {
    /// PNG of the guest Xvfb.
    Screenshot,
    /// Click at pixel coordinates.
    Click {
        /// Horizontal pixel.
        x: i32,
        /// Vertical pixel.
        y: i32,
        /// Which button.
        button: Button,
    },
    /// Type into the guest.
    Type {
        /// Text to type.
        text: Seq<char>,
    },
    /// Key or chord in the guest.
    Key {
        /// Key names.
        keys: Seq<Seq<char>>,
    },
}

impl View for GuestOp {
    type V = OpView;

    open spec fn view(&self) -> OpView {
        match self {
            GuestOp::Screenshot => OpView::Screenshot,
            GuestOp::Click { x, y, button } => OpView::Click { x: *x, y: *y, button: *button },
            GuestOp::Type { text } => OpView::Type { text: text@ },
            GuestOp::Key { keys } => OpView::Key { keys: texts(keys@) },
        }
    }
}

/// Why an op cannot be turned into guest argv.
#[derive(Debug, PartialEq, Eq)]
pub enum ActionError {
    /// Caller asked for something the driver will not do.
    Invalid(String),
}

impl View for ActionError {
    type V = Seq<char>;

    open spec fn view(&self) -> Seq<char> {
        match self {
            ActionError::Invalid(message) => message@,
        }
    }
}

impl ActionError {
    /// Human-readable reason.
    pub fn message(&self) -> (r: String)
        ensures
            r@ == self@,
    {
        match self {
            ActionError::Invalid(message) => message.clone(),
        }
    }
}

/// The driver's name for a button.
pub open spec fn button_text(button: Button) -> Seq<char> {
    match button {
        Button::Left => "left"@,
        Button::Right => "right"@,
        Button::Middle => "middle"@,
    }
}

/// Nothing but white space in any of the keys.
pub open spec fn all_blank(keys: Seq<Seq<char>>) -> bool {
    forall|i: int| 0 <= i < keys.len() ==> trimmed(#[trigger] keys[i]).len() == 0
}

/// The argv of an op, or why it has none.
pub open spec fn op_argv(op: OpView) -> Result<Seq<Seq<char>>, Seq<char>> {
    match op {
        OpView::Screenshot => Ok(seq![ACTION_BIN@, "screenshot"@]),
        OpView::Click { x, y, button } => Ok(
            seq![
                ACTION_BIN@,
                "click"@,
                signed_decimal(x as int),
                signed_decimal(y as int),
                button_text(button),
            ],
        ),
        OpView::Type { text } => if text.len() == 0 {
            Err("text is empty"@)
        } else {
            Ok(seq![ACTION_BIN@, "type"@, text])
        },
        OpView::Key { keys } => if all_blank(keys) {
            Err("keys is empty"@)
        } else {
            Ok(seq![ACTION_BIN@, "key"@] + keys)
        },
    }
}

/// The button a name stands for; the left one where there is no name.
pub open spec fn named_button(raw: Option<Seq<char>>) -> Result<Button, Seq<char>> {
    match raw {
        None => Ok(Button::Left),
        Some(name) => if name == "left"@ {
            Ok(Button::Left)
        } else if name == "right"@ {
            Ok(Button::Right)
        } else if name == "middle"@ {
            Ok(Button::Middle)
        } else {
            Err("unknown button `"@ + name + "`; expected left, right, or middle"@)
        },
    }
}

/// `path` names a display socket of the host.
pub open spec fn is_host_display(path: Seq<char>) -> bool {
    ||| contains_text(lowercase(path), ".x11-unix"@)
    ||| contains_text(lowercase(path), "/tmp/.x11"@)
    ||| contains_text(lowercase(path), "wayland"@)
}

/// An argument that would reach a display of the host.
pub open spec fn reaches_host(arg: Seq<char>) -> bool {
    is_host_display(arg) || starts_with_text(lowercase(arg), "display="@)
}

/// `argv` would talk to a host display instead of the guest driver.
pub open spec fn targets_host(argv: Seq<Seq<char>>) -> bool {
    ||| argv.len() == 0
    ||| argv[0] != ACTION_BIN@
    ||| exists|i: int| 0 <= i < argv.len() && reaches_host(#[trigger] argv[i])
}

/// `data` begins with the PNG signature.
pub open spec fn is_png(data: Seq<u8>) -> bool {
    data.len() >= 8 && data.take(8) == PNG_MAGIC@
}

/// The big-endian number in the four bytes at `at`.
pub open spec fn be32(data: Seq<u8>, at: int) -> int {
    data[at] * 0x100_0000 + data[at + 1] * 0x1_0000 + data[at + 2] * 0x100 + data[at + 3]
}

/// Width and height from the IHDR chunk, if `data` is long enough to hold
/// one, carries the PNG signature and has the chunk where it belongs.
pub open spec fn ihdr_dimensions(data: Seq<u8>) -> Option<(int, int)> {
    if data.len() >= 24 && is_png(data) && data.subrange(12, 16) == seq![
        0x49u8,
        0x48u8,
        0x44u8,
        0x52u8,
    ] {
        Some((be32(data, 16), be32(data, 20)))
    } else {
        None
    }
}

/// Map a guest op onto `driver` argv (including the binary).
pub fn action_argv(op: &GuestOp) -> (r: Result<Vec<String>, ActionError>)
    ensures
        match r {
            Ok(argv) => op_argv(op@) == Ok::<Seq<Seq<char>>, Seq<char>>(texts(argv@)),
            Err(e) => op_argv(op@) == Err::<Seq<Seq<char>>, Seq<char>>(e@),
        },
{
    match op {
        GuestOp::Screenshot => {
            let argv: Vec<String> = vec![ACTION_BIN.to_string(), "screenshot".to_string()];
            assert(texts(argv@) =~= seq![ACTION_BIN@, "screenshot"@]);
            Ok(argv)
        },
        GuestOp::Click { x, y, button } => {
            let argv: Vec<String> = vec![
                ACTION_BIN.to_string(),
                "click".to_string(),
                print_i64(*x as i64),
                print_i64(*y as i64),
                button_arg(*button).to_string(),
            ];
            assert(texts(argv@) =~= seq![
                ACTION_BIN@,
                "click"@,
                signed_decimal(*x as int),
                signed_decimal(*y as int),
                button_text(*button),
            ]);
            Ok(argv)
        },
        GuestOp::Type { text } => {
            if text.as_str().is_empty() {
                return Err(ActionError::Invalid("text is empty".to_string()));
            }
            let argv: Vec<String> = vec![
                ACTION_BIN.to_string(),
                "type".to_string(),
                text.clone(),
            ];
            assert(texts(argv@) =~= seq![ACTION_BIN@, "type"@, text@]);
            Ok(argv)
        },
        GuestOp::Key { keys } => {
            if blank_only(keys) {
                return Err(ActionError::Invalid("keys is empty".to_string()));
            }
            let mut argv: Vec<String> = vec![ACTION_BIN.to_string(), "key".to_string()];
            let mut i: usize = 0;
            while i < keys.len()
                invariant
                    i <= keys@.len(),
                    texts(argv@) =~= seq![ACTION_BIN@, "key"@] + texts(keys@).take(i as int),
                decreases keys@.len() - i,
            {
                let ghost before = argv@;
                argv.push(keys[i].clone());
                assert(texts(argv@) =~= texts(before).push(keys@[i as int]@));
                assert(texts(keys@).take(i + 1) =~= texts(keys@).take(i as int).push(
                    keys@[i as int]@,
                ));
                i += 1;
            }
            assert(texts(keys@).take(i as int) =~= texts(keys@));
            Ok(argv)
        },
    }
}

fn blank_only(keys: &Vec<String>) -> (r: bool)
    ensures
        r == all_blank(texts(keys@)),
{
    let ghost all = texts(keys@);
    let mut i: usize = 0;
    while i < keys.len()
        invariant
            all == texts(keys@),
            i <= keys@.len(),
            forall|k: int| 0 <= k < i ==> trimmed(#[trigger] all[k]).len() == 0,
        decreases keys@.len() - i,
    {
        if !trim(keys[i].as_str()).as_str().is_empty() {
            assert(trimmed(all[i as int]).len() != 0);
            return false;
        }
        i += 1;
    }
    true
}

fn button_arg(button: Button) -> (r: &'static str)
    ensures
        r@ == button_text(button),
{
    match button {
        Button::Left => "left",
        Button::Right => "right",
        Button::Middle => "middle",
    }
}

/// Parse a button name. Default left.
pub fn parse_button(raw: Option<&str>) -> (r: Result<Button, ActionError>)
    ensures
        match r {
            Ok(button) => named_button(opt_text(raw)) == Ok::<Button, Seq<char>>(button),
            Err(e) => named_button(opt_text(raw)) == Err::<Button, Seq<char>>(e@),
        },
{
    match raw {
        None => Ok(Button::Left),
        Some(name) => if same(name, "left") {
            Ok(Button::Left)
        } else if same(name, "right") {
            Ok(Button::Right)
        } else if same(name, "middle") {
            Ok(Button::Middle)
        } else {
            Err(
                ActionError::Invalid(
                    concat3("unknown button `", name, "`; expected left, right, or middle"),
                ),
            )
        },
    }
}

/// Whether `path` names a display socket of the host.
pub fn path_is_host_display(path: &str) -> (r: bool)
    ensures
        r == is_host_display(path@),
{
    let lower = to_lower(path);
    contains(lower.as_str(), ".x11-unix") || contains(lower.as_str(), "/tmp/.x11") || contains(
        lower.as_str(),
        "wayland",
    )
}

/// True when `argv` would talk to a host display instead of the guest driver.
pub fn argv_targets_host(argv: &[String]) -> (r: bool)
    ensures
        r == targets_host(texts(argv@)),
{
    let ghost all = texts(argv@);
    if argv.len() == 0 {
        return true;
    }
    if !same(argv[0].as_str(), ACTION_BIN) {
        return true;
    }
    let mut i: usize = 0;
    while i < argv.len()
        invariant
            all == texts(argv@),
            i <= argv@.len(),
            forall|k: int| 0 <= k < i ==> !reaches_host(#[trigger] all[k]),
        decreases argv@.len() - i,
    {
        let arg = argv[i].as_str();
        if path_is_host_display(arg) || starts_with(to_lower(arg).as_str(), "display=") {
            assert(reaches_host(all[i as int]));
            return true;
        }
        assert(!reaches_host(all[i as int]));
        i += 1;
    }
    false
}

/// Whether `data` begins with the PNG signature.
pub fn starts_with_png_magic(data: &[u8]) -> (r: bool)
    ensures
        r == is_png(data@),
{
    if data.len() < 8 {
        return false;
    }
    let mut i: usize = 0;
    while i < 8
        invariant
            i <= 8 <= data@.len(),
            forall|k: int| 0 <= k < i ==> data@[k] == PNG_MAGIC@[k],
        decreases 8 - i,
    {
        if data[i] != PNG_MAGIC[i] {
            assert(data@.take(8)[i as int] != PNG_MAGIC@[i as int]);
            return false;
        }
        i += 1;
    }
    assert(data@.take(8) =~= PNG_MAGIC@);
    true
}

fn read_be32(data: &[u8], at: usize) -> (r: u32)
    requires
        at + 4 <= data@.len(),
    ensures
        r == be32(data@, at as int),
{
    data[at] as u32 * 0x100_0000 + data[at + 1] as u32 * 0x1_0000 + data[at + 2] as u32 * 0x100
        + data[at + 3] as u32
}

/// PNG width/height from IHDR, if this is a PNG.
pub fn png_dimensions(data: &[u8]) -> (r: Option<(u32, u32)>)
    ensures
        match r {
            Some((width, height)) => ihdr_dimensions(data@) == Some((width as int, height as int)),
            None => ihdr_dimensions(data@) is None,
        },
{
    if data.len() < 24 || !starts_with_png_magic(data) {
        return None;
    }
    let ghost chunk = data@.subrange(12, 16);
    assert(chunk[0] == data@[12] && chunk[1] == data@[13] && chunk[2] == data@[14] && chunk[3]
        == data@[15]);
    if data[12] != 0x49 || data[13] != 0x48 || data[14] != 0x44 || data[15] != 0x52 {
        return None;
    }
    assert(chunk =~= seq![0x49u8, 0x48u8, 0x44u8, 0x52u8]);
    Some((read_be32(data, 16), read_be32(data, 20)))
}

/// No character that every name of a host display needs.
pub open spec fn has_no_display_letters(s: Seq<char>) -> bool {
    &&& forall|i: int|
        0 <= i < s.len() ==> #[trigger] s[i] != 'x' && s[i] != 'X' && s[i] != 'y' && s[i] != 'Y'
}

/// A text without the letters `x` and `y` reaches no host display.
pub proof fn lemma_no_display_letters(s: Seq<char>)
    requires
        has_no_display_letters(s),
    ensures
        !reaches_host(s),
{
    reveal_strlit(".x11-unix");
    reveal_strlit("/tmp/.x11");
    reveal_strlit("wayland");
    reveal_strlit("display=");
    let lower = lowercase(s);
    assert forall|at: int| !occurs_at(lower, ".x11-unix"@, at) by {
        if occurs_at(lower, ".x11-unix"@, at) {
            assert(lower[at + 1] == ".x11-unix"@[1]);
            assert(ascii_lower(s[at + 1]) == 'x');
        }
    }
    assert forall|at: int| !occurs_at(lower, "/tmp/.x11"@, at) by {
        if occurs_at(lower, "/tmp/.x11"@, at) {
            assert(lower[at + 6] == "/tmp/.x11"@[6]);
            assert(ascii_lower(s[at + 6]) == 'x');
        }
    }
    assert forall|at: int| !occurs_at(lower, "wayland"@, at) by {
        if occurs_at(lower, "wayland"@, at) {
            assert(lower[at + 2] == "wayland"@[2]);
            assert(ascii_lower(s[at + 2]) == 'y');
        }
    }
    if occurs_at(lower, "display="@, 0) {
        assert(lower[0int + 6] == "display="@[6]);
        assert(ascii_lower(s[6]) == 'y');
    }
}

proof fn lemma_signed_decimal_letters(n: int)
    ensures
        has_no_display_letters(signed_decimal(n)),
{
    reveal_strlit("-");
    if n < 0 {
        lemma_decimal_digits((-n) as nat);
    } else {
        lemma_decimal_digits(n as nat);
    }
}

/// A screenshot and a click never target a host display, wherever the click
/// lands and whatever the button.
pub proof fn law_screenshot_and_click_stay_in_the_guest(op: OpView)
    requires
        op is Screenshot || op is Click,
    ensures
        op_argv(op) is Ok,
        !targets_host(op_argv(op)->Ok_0),
{
    reveal_strlit("/usr/local/bin/driver");
    reveal_strlit("screenshot");
    reveal_strlit("click");
    reveal_strlit("left");
    reveal_strlit("right");
    reveal_strlit("middle");
    let argv = op_argv(op)->Ok_0;
    assert forall|i: int| 0 <= i < argv.len() implies !reaches_host(#[trigger] argv[i]) by {
        match op {
            OpView::Click { x, y, button } => {
                lemma_signed_decimal_letters(x as int);
                lemma_signed_decimal_letters(y as int);
            },
            _ => {},
        }
        lemma_no_display_letters(argv[i]);
    }
}

/// Every argv starts at the guest driver.
pub proof fn law_argv_starts_at_the_driver(op: OpView)
    ensures
        op_argv(op) matches Ok(argv) ==> argv.len() >= 2 && argv[0] == ACTION_BIN@,
{
}

} // verus!
