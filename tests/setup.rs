use std::collections::HashMap;

use smartusb::args::{contains_str, is_raspberry_model, start_mode, StartError, StartMode};
use smartusb::conf::{resolve_config, Config, ConfigError, ConfigSource};
use smartusb::gadgetconfig::{
    collect_gadgets, gadget_pattern, Function, GadgetConfig, GadgetFile, General, Strings, UsbConfig,
};
use smartusb::input::{input_lines, orient_key, screen_rotation, Rotation};
use smartusb::event::InputKey;
use smartusb::warning::Warning;

fn gadget(name: &str) -> GadgetConfig {
    let mut configs = HashMap::new();
    configs.insert(
        "c.1".to_string(),
        UsbConfig { configuration: "Config 1".to_string(), MaxPower: "250".to_string() },
    );
    let mut functions = HashMap::new();
    functions.insert("hid.usb0".to_string(), Function { config: "c.1".to_string(), foo: None });
    GadgetConfig {
        general: General {
            name: name.to_string(),
            idVendor: "0x1d6b".to_string(),
            idProduct: "0x0104".to_string(),
            bcdDevice: "0x0100".to_string(),
            bcdUSB: "0x0200".to_string(),
        },
        strings: Strings {
            serial: "0001".to_string(),
            manufacturer: "Maker".to_string(),
            product: "Keyboard".to_string(),
        },
        configs,
        functions,
    }
}

#[test]
fn default_config_values() {
    let c = Config::default();
    assert!(c.flip_screen);
    assert!(!c.flip_buttons);
    assert_eq!(c.gadgets_path, ".");
}

#[test]
fn parsed_config_keeps_its_fields() {
    let r = resolve_config(ConfigSource::Parsed {
        flip_screen: false,
        flip_buttons: true,
        gadgets_path: Some("/a/b".to_string()),
    })
    .unwrap();
    assert!(!r.config.flip_screen);
    assert!(r.config.flip_buttons);
    assert_eq!(r.config.gadgets_path, "/a/b");
    assert!(r.warning.is_none());
}

#[test]
fn parsed_config_without_gadgets_path_uses_current_dir() {
    let r = resolve_config(ConfigSource::Parsed { flip_screen: true, flip_buttons: true, gadgets_path: None })
        .unwrap();
    assert_eq!(r.config.gadgets_path, ".");
}

#[test]
fn missing_config_gives_defaults_and_warning() {
    let r = resolve_config(ConfigSource::Missing).unwrap();
    assert!(r.config.flip_screen);
    assert!(!r.config.flip_buttons);
    assert_eq!(r.config.gadgets_path, ".");
    assert!(matches!(r.warning, Some(Warning::ConfigMissing)));
}

#[test]
fn malformed_config_is_an_error() {
    let r = resolve_config(ConfigSource::Malformed { reason: "invalid type: string".to_string() });
    match r {
        Err(ConfigError::Malformed { reason }) => assert_eq!(reason, "invalid type: string"),
        Ok(_) => panic!("a malformed file must not fall back to defaults"),
    }
}

#[test]
fn one_valid_one_malformed_gadget() {
    let files = vec![
        GadgetFile::Parsed(gadget("keyboard")),
        GadgetFile::Malformed { path: "g/bad.toml".to_string(), reason: "missing field".to_string() },
    ];
    let scan = collect_gadgets(true, files);
    assert_eq!(scan.gadgets.len(), 1);
    assert_eq!(scan.gadgets[0].general.name, "keyboard");
    assert_eq!(scan.gadgets[0].configs["c.1"].MaxPower, "250");
    assert_eq!(scan.warnings.len(), 1);
    match &scan.warnings[0] {
        Warning::GadgetMalformed { path, .. } => assert_eq!(path, "g/bad.toml"),
        w => panic!("unexpected warning {:?}", w),
    }
}

#[test]
fn unreadable_gadget_is_skipped_and_order_kept() {
    let files = vec![
        GadgetFile::Parsed(gadget("a")),
        GadgetFile::Unreadable { path: "g/x.toml".to_string(), reason: "denied".to_string() },
        GadgetFile::Parsed(gadget("b")),
    ];
    let scan = collect_gadgets(true, files);
    let names: Vec<&str> = scan.gadgets.iter().map(|g| g.general.name.as_str()).collect();
    assert_eq!(names, vec!["a", "b"]);
    assert!(matches!(&scan.warnings[..], [Warning::GadgetUnreadable { .. }]));
}

#[test]
fn missing_gadget_dir_gives_empty_set_and_warning() {
    let scan = collect_gadgets(false, vec![GadgetFile::Parsed(gadget("ignored"))]);
    assert!(scan.gadgets.is_empty());
    assert!(matches!(&scan.warnings[..], [Warning::GadgetDirMissing]));
}

#[test]
fn empty_gadget_dir_gives_nothing() {
    let scan = collect_gadgets(true, Vec::new());
    assert!(scan.gadgets.is_empty());
    assert!(scan.warnings.is_empty());
}

#[test]
fn gadget_pattern_appends_glob() {
    assert_eq!(gadget_pattern("/etc/smartusb/gadgets"), "/etc/smartusb/gadgets/*.toml");
    assert_eq!(gadget_pattern("."), "./*.toml");
}

#[test]
fn upright_input_lines() {
    let lines = input_lines(false);
    let got: Vec<(u8, InputKey)> = lines.iter().map(|l| (l.pin, l.key)).collect();
    assert_eq!(
        got,
        vec![
            (6, InputKey::JoyUp),
            (19, InputKey::JoyDown),
            (5, InputKey::JoyLeft),
            (26, InputKey::JoyRight),
            (13, InputKey::JoyPress),
            (21, InputKey::Key1),
            (20, InputKey::Key2),
            (16, InputKey::Key3),
        ]
    );
}

#[test]
fn flipped_input_lines_swap_directions() {
    let lines = input_lines(true);
    let got: Vec<(u8, InputKey)> = lines.iter().map(|l| (l.pin, l.key)).collect();
    assert_eq!(
        got,
        vec![
            (6, InputKey::JoyDown),
            (19, InputKey::JoyUp),
            (5, InputKey::JoyRight),
            (26, InputKey::JoyLeft),
            (13, InputKey::JoyPress),
            (21, InputKey::Key1),
            (20, InputKey::Key2),
            (16, InputKey::Key3),
        ]
    );
    assert_eq!(orient_key(InputKey::Key1, true), InputKey::Key1);
}

#[test]
fn rotation_follows_flip() {
    assert_eq!(screen_rotation(true), Rotation::Rotate180);
    assert_eq!(screen_rotation(false), Rotation::Rotate0);
}

#[test]
fn substring_search() {
    assert!(contains_str("abcabd", "abd"));
    assert!(!contains_str("abcab", "abd"));
    assert!(contains_str("x", ""));
    assert!(!contains_str("", "x"));
    assert!(is_raspberry_model("Raspberry Pi Zero W Rev 1.1\0"));
    assert!(!is_raspberry_model("raspberry"));
}

#[test]
fn daemon_needs_a_raspberry_pi() {
    assert_eq!(start_mode(false, None), Ok(StartMode::Foreground));
    assert_eq!(start_mode(true, Some("Raspberry Pi 4 Model B")), Ok(StartMode::Daemon));
    assert_eq!(start_mode(true, Some("Generic x86 board")), Err(StartError::UnknownDevice));
    assert_eq!(start_mode(true, None), Err(StartError::UnknownDevice));
}
