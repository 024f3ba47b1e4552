//! Guest ops and the argv they become.

use berthos::action::{
    action_argv, argv_targets_host, parse_button, path_is_host_display, png_dimensions,
    starts_with_png_magic, ActionError, Button, GuestOp, ACTION_BIN, MINIMAL_PNG, PNG_MAGIC,
};

#[test]
fn maps_screenshot_click_type_key() {
    assert_eq!(
        action_argv(&GuestOp::Screenshot).unwrap(),
        [ACTION_BIN, "screenshot"]
    );
    assert_eq!(
        action_argv(&GuestOp::Click {
            x: 10,
            y: 20,
            button: Button::Right,
        })
        .unwrap(),
        [ACTION_BIN, "click", "10", "20", "right"]
    );
    assert_eq!(
        action_argv(&GuestOp::Type {
            text: "hello".into(),
        })
        .unwrap(),
        [ACTION_BIN, "type", "hello"]
    );
    assert_eq!(
        action_argv(&GuestOp::Key {
            keys: vec!["META".into(), "s".into()],
        })
        .unwrap(),
        [ACTION_BIN, "key", "META", "s"]
    );
}

#[test]
fn rejects_empty_type_and_keys() {
    assert!(action_argv(&GuestOp::Type {
        text: String::new()
    })
    .is_err());
    assert!(action_argv(&GuestOp::Key { keys: vec![] }).is_err());
}

#[test]
fn host_display_argv_is_refused() {
    assert!(argv_targets_host(&[]));
    assert!(argv_targets_host(&[
        "xdotool".into(),
        "click".into(),
        "1".into()
    ]));
    assert!(argv_targets_host(&[
        ACTION_BIN.into(),
        "screenshot".into(),
        "DISPLAY=:0".into()
    ]));
    assert!(!argv_targets_host(&[
        ACTION_BIN.into(),
        "screenshot".into()
    ]));
}

#[test]
fn png_ihdr() {
    assert_eq!(png_dimensions(&MINIMAL_PNG), Some((1, 1)));
    assert_eq!(png_dimensions(b"not png"), None);
}

#[test]
fn png_dimensions_are_big_endian() {
    let mut png = PNG_MAGIC.to_vec();
    png.extend_from_slice(&[0, 0, 0, 13]);
    png.extend_from_slice(b"IHDR");
    png.extend_from_slice(&1280u32.to_be_bytes());
    png.extend_from_slice(&800u32.to_be_bytes());
    assert_eq!(png_dimensions(&png), Some((1280, 800)));
    png.pop();
    assert_eq!(png_dimensions(&png), None);
    assert!(starts_with_png_magic(&png));
    assert!(!starts_with_png_magic(&png[1..]));
}

#[test]
fn negative_coordinates_are_passed_on() {
    let click = GuestOp::Click {
        x: i32::MIN,
        y: -1,
        button: Button::Middle,
    };
    assert_eq!(
        action_argv(&click).unwrap(),
        [ACTION_BIN, "click", "-2147483648", "-1", "middle"]
    );
}

#[test]
fn refusals_say_what_is_empty() {
    assert_eq!(
        action_argv(&GuestOp::Type {
            text: String::new()
        }),
        Err(ActionError::Invalid("text is empty".into()))
    );
    let blank = GuestOp::Key {
        keys: vec![" ".into(), "\t".into()],
    };
    let error = action_argv(&blank).unwrap_err();
    assert_eq!(error.message(), "keys is empty");
}

#[test]
fn one_key_that_is_not_blank_is_enough() {
    let keys = GuestOp::Key {
        keys: vec![" ".into(), "a".into()],
    };
    assert_eq!(action_argv(&keys).unwrap(), [ACTION_BIN, "key", " ", "a"]);
}

#[test]
fn buttons_by_name() {
    assert_eq!(parse_button(None), Ok(Button::Left));
    assert_eq!(parse_button(Some("left")), Ok(Button::Left));
    assert_eq!(parse_button(Some("right")), Ok(Button::Right));
    assert_eq!(parse_button(Some("middle")), Ok(Button::Middle));
    assert_eq!(
        parse_button(Some("Left")).unwrap_err().message(),
        "unknown button `Left`; expected left, right, or middle"
    );
}

#[test]
fn typed_host_display_paths_are_refused() {
    for text in ["/tmp/.X11-unix/X0", "WAYLAND-0", "display=:1"] {
        let argv = action_argv(&GuestOp::Type { text: text.into() }).unwrap();
        assert!(argv_targets_host(&argv), "{text}");
    }
    assert!(path_is_host_display("/tmp/.X11"));
    assert!(!path_is_host_display("/home/tenant"));
}

#[test]
fn screenshots_and_clicks_stay_in_the_guest() {
    for op in [
        GuestOp::Screenshot,
        GuestOp::Click {
            x: -5,
            y: i32::MAX,
            button: Button::Left,
        },
    ] {
        assert!(!argv_targets_host(&action_argv(&op).unwrap()));
    }
}
