use cosmic_ant::scene::app_window::{
    create_gl_context, gl_config_picker, window_attributes, window_event, wrapping_i32, Command,
    ConfigTraits, ContextApi, Key, NamedKey, WindowEvent, TURN_SPEED, ZOOM_STEP,
};
use std::cell::RefCell;

fn named(key: NamedKey, pressed: bool) -> WindowEvent {
    WindowEvent::KeyboardInput { key: Key::Named(key), pressed }
}

fn typed(text: &str, pressed: bool) -> WindowEvent {
    WindowEvent::KeyboardInput { key: Key::Character(text.to_string()), pressed }
}

fn config(supports_transparency: Option<bool>, num_samples: u8) -> ConfigTraits {
    ConfigTraits { supports_transparency, num_samples }
}

#[test]
fn arrow_up_and_down_change_the_zoom_by_a_tenth() {
    assert_eq!(ZOOM_STEP, 1);
    assert_eq!(window_event(&named(NamedKey::ArrowUp, true), true), Command::ZoomDelta(1));
    assert_eq!(window_event(&named(NamedKey::ArrowDown, true), true), Command::ZoomDelta(-1));
    assert_eq!(window_event(&named(NamedKey::ArrowUp, true), false), Command::ZoomDelta(1));
}

#[test]
fn arrow_left_and_right_set_the_turning_speed() {
    assert_eq!(TURN_SPEED, 5);
    assert_eq!(window_event(&named(NamedKey::ArrowLeft, true), true), Command::SetSpeed(-5));
    assert_eq!(window_event(&named(NamedKey::ArrowRight, true), true), Command::SetSpeed(5));
}

#[test]
fn s_stops_the_camera() {
    assert_eq!(window_event(&typed("s", true), true), Command::SetSpeed(0));
    assert_eq!(window_event(&typed("S", true), true), Command::SetSpeed(0));
}

#[test]
fn r_regenerates_the_satellites() {
    assert_eq!(window_event(&typed("r", true), true), Command::RegenerateSatellites);
    assert_eq!(window_event(&typed("R", true), true), Command::RegenerateSatellites);
}

#[test]
fn other_text_does_nothing() {
    for text in ["", "a", "rr", "rs", "sr", "2", "\u{155}", "\u{12}", " r", "ſ"] {
        assert_eq!(window_event(&typed(text, true), true), Command::Nothing);
    }
}

#[test]
fn released_keys_do_nothing() {
    assert_eq!(window_event(&typed("r", false), true), Command::Nothing);
    assert_eq!(window_event(&typed("s", false), true), Command::Nothing);
    for key in [NamedKey::ArrowUp, NamedKey::ArrowDown, NamedKey::ArrowLeft, NamedKey::ArrowRight] {
        assert_eq!(window_event(&named(key, false), true), Command::Nothing);
    }
    assert_eq!(window_event(&named(NamedKey::Other, true), true), Command::Nothing);
    assert_eq!(window_event(&named(NamedKey::Other, false), true), Command::Nothing);
    assert_eq!(
        window_event(&WindowEvent::KeyboardInput { key: Key::Other, pressed: true }, true),
        Command::Nothing
    );
}

#[test]
fn escape_and_close_end_the_program() {
    assert_eq!(window_event(&named(NamedKey::Escape, true), true), Command::Exit);
    assert_eq!(window_event(&named(NamedKey::Escape, false), true), Command::Exit);
    assert_eq!(window_event(&WindowEvent::CloseRequested, true), Command::Exit);
    assert_eq!(window_event(&WindowEvent::CloseRequested, false), Command::Exit);
}

#[test]
fn resize_is_passed_on_when_both_sides_are_non_zero() {
    assert_eq!(
        window_event(&WindowEvent::Resized { width: 800, height: 600 }, true),
        Command::Resize { width: 800, height: 600 }
    );
    assert_eq!(
        window_event(&WindowEvent::Resized { width: 1, height: 1 }, true),
        Command::Resize { width: 1, height: 1 }
    );
    assert_eq!(window_event(&WindowEvent::Resized { width: 0, height: 600 }, true), Command::Nothing);
    assert_eq!(window_event(&WindowEvent::Resized { width: 800, height: 0 }, true), Command::Nothing);
    assert_eq!(window_event(&WindowEvent::Resized { width: 0, height: 0 }, true), Command::Nothing);
}

#[test]
fn resize_without_a_surface_does_nothing() {
    assert_eq!(
        window_event(&WindowEvent::Resized { width: 800, height: 600 }, false),
        Command::Nothing
    );
}

#[test]
fn other_events_do_nothing() {
    assert_eq!(window_event(&WindowEvent::Other, true), Command::Nothing);
    assert_eq!(window_event(&WindowEvent::Other, false), Command::Nothing);
}

#[test]
fn sizes_keep_their_bits_as_signed_numbers() {
    assert_eq!(wrapping_i32(0), 0);
    assert_eq!(wrapping_i32(1900), 1900);
    assert_eq!(wrapping_i32(2147483647), i32::MAX);
    assert_eq!(wrapping_i32(2147483648), i32::MIN);
    assert_eq!(wrapping_i32(u32::MAX), -1);
    for x in [0u32, 5, 70000, 2147483647, 2147483648, 3000000000, u32::MAX] {
        assert_eq!(wrapping_i32(x), x as i32);
    }
    assert_eq!(
        window_event(&WindowEvent::Resized { width: u32::MAX, height: 3000000000 }, true),
        Command::Resize { width: -1, height: -1294967296 }
    );
}

#[test]
fn config_with_the_most_samples_is_picked() {
    let configs: Vec<ConfigTraits> =
        vec![config(None, 0), config(None, 4), config(None, 16), config(None, 8)];
    assert_eq!(gl_config_picker(&configs), 2);
}

#[test]
fn first_of_equal_configs_is_picked() {
    let configs: Vec<ConfigTraits> =
        vec![config(Some(true), 4), config(Some(true), 8), config(Some(true), 8)];
    assert_eq!(gl_config_picker(&configs), 1);
    let single: Vec<ConfigTraits> = vec![config(Some(false), 0)];
    assert_eq!(gl_config_picker(&single), 0);
}

#[test]
fn transparent_config_replaces_an_opaque_one() {
    let configs: Vec<ConfigTraits> = vec![config(Some(false), 16), config(Some(true), 2)];
    assert_eq!(gl_config_picker(&configs), 1);
    let unknown: Vec<ConfigTraits> = vec![config(None, 16), config(Some(true), 2)];
    assert_eq!(gl_config_picker(&unknown), 1);
}

#[test]
fn unknown_transparency_counts_as_opaque() {
    let configs: Vec<ConfigTraits> = vec![config(Some(false), 4), config(None, 4)];
    assert_eq!(gl_config_picker(&configs), 0);
    let other: Vec<ConfigTraits> = vec![config(None, 4), config(Some(false), 4)];
    assert_eq!(gl_config_picker(&other), 0);
}

#[test]
fn more_samples_replace_a_transparent_config() {
    let configs: Vec<ConfigTraits> =
        vec![config(Some(false), 4), config(Some(true), 0), config(None, 8)];
    assert_eq!(gl_config_picker(&configs), 2);
    let back: Vec<ConfigTraits> = vec![
        config(Some(false), 4),
        config(Some(true), 0),
        config(None, 8),
        config(Some(true), 1),
        config(Some(true), 1),
    ];
    assert_eq!(gl_config_picker(&back), 3);
}

#[test]
fn picked_config_agrees_with_folding_over_the_configs() {
    let configs: Vec<ConfigTraits> = vec![
        config(None, 2),
        config(Some(false), 4),
        config(Some(true), 4),
        config(Some(true), 2),
        config(Some(false), 8),
        config(None, 8),
        config(Some(true), 1),
    ];
    for n in 1..=configs.len() {
        let prefix: Vec<ConfigTraits> = configs[..n].to_vec();
        let expected = prefix
            .iter()
            .enumerate()
            .reduce(|accum, candidate| {
                let transparency_check = candidate.1.supports_transparency.unwrap_or(false)
                    & !accum.1.supports_transparency.unwrap_or(false);
                if transparency_check || candidate.1.num_samples > accum.1.num_samples {
                    candidate
                } else {
                    accum
                }
            })
            .unwrap()
            .0;
        assert_eq!(gl_config_picker(&prefix), expected);
    }
}

#[test]
fn default_context_is_tried_first() {
    let asked: RefCell<Vec<ContextApi>> = RefCell::new(Vec::new());
    let create = |api: ContextApi| {
        asked.borrow_mut().push(api);
        Some(asked.borrow().len())
    };
    assert_eq!(create_gl_context(&create), Some(1));
    assert_eq!(*asked.borrow(), vec![ContextApi::Default]);
}

#[test]
fn gles_context_is_tried_second() {
    let asked: RefCell<Vec<ContextApi>> = RefCell::new(Vec::new());
    let create = |api: ContextApi| {
        asked.borrow_mut().push(api);
        if api == ContextApi::Gles {
            Some("gles")
        } else {
            None
        }
    };
    assert_eq!(create_gl_context(&create), Some("gles"));
    assert_eq!(*asked.borrow(), vec![ContextApi::Default, ContextApi::Gles]);
}

#[test]
fn legacy_context_is_tried_last() {
    let asked: RefCell<Vec<ContextApi>> = RefCell::new(Vec::new());
    let create = |api: ContextApi| {
        asked.borrow_mut().push(api);
        if api == (ContextApi::OpenGl { major: 2, minor: 1 }) {
            Some(21)
        } else {
            None
        }
    };
    assert_eq!(create_gl_context(&create), Some(21));
    assert_eq!(
        *asked.borrow(),
        vec![ContextApi::Default, ContextApi::Gles, ContextApi::OpenGl { major: 2, minor: 1 }]
    );
}

#[test]
fn no_context_after_three_failures() {
    let asked: RefCell<Vec<ContextApi>> = RefCell::new(Vec::new());
    let create = |api: ContextApi| -> Option<u8> {
        asked.borrow_mut().push(api);
        None
    };
    assert_eq!(create_gl_context(&create), None);
    assert_eq!(asked.borrow().len(), 3);
}

#[test]
fn window_is_transparent_and_tells_how_to_leave() {
    let settings = window_attributes();
    assert!(settings.transparent);
    assert_eq!(settings.title, "Cosmic Ant Simulator (press Escape to exit)");
}
