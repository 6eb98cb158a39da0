//! Tests of status derivation, filtering, listing and lookup.

use gamectl::registry::check_insufficient_buffer;
use gamectl::registry::confirm_config_result;
use gamectl::registry::find_devinst;
use gamectl::registry::game_controllers;
use gamectl::registry::is_game_controller;
use gamectl::registry::passes_filter;
use gamectl::registry::DevNodeProps;
use gamectl::registry::Error;
use gamectl::registry::GameController;
use gamectl::registry::CR_NO_SUCH_DEVNODE;
use gamectl::registry::CR_SUCCESS;
use gamectl::registry::INSUFFICIENT_BUFFER_HRESULT;
use gamectl::registry::query_devnode_flags;
use gamectl::status::derive_disableable;
use gamectl::status::derive_status;
use gamectl::status::GameControllerStatus;
use gamectl::status::DN_DISABLEABLE;
use gamectl::status::DN_STARTED;

/// UTF-16LE bytes of a string followed by one nul terminator.
fn utf16le_z(s: &str) -> Vec<u8> {
    let mut out: Vec<u8> = Vec::new();
    for u in s.encode_utf16() {
        out.push((u & 0xFF) as u8);
        out.push((u >> 8) as u8);
    }
    out.push(0);
    out.push(0);
    out
}

/// UTF-16LE bytes of a nul-separated multi-string with a trailing
/// terminator.
fn utf16le_multi(segs: &[&str]) -> Vec<u8> {
    let mut out: Vec<u8> = Vec::new();
    for s in segs {
        out.extend_from_slice(&utf16le_z(s));
    }
    out.push(0);
    out.push(0);
    out
}

/// Wide code units of a string followed by one nul terminator.
fn wide_z(s: &str) -> Vec<u16> {
    let mut out: Vec<u16> = s.encode_utf16().collect();
    out.push(0);
    out
}

/// A healthy game-controller node, as the platform layer would hand
/// it over.
fn controller_node(instance_id: &str, flags: u32) -> DevNodeProps {
    DevNodeProps {
        devinst: 42,
        hardware_ids: Ok(utf16le_multi(&["HID_DEVICE_SYSTEM_GAME"])),
        description: Ok(utf16le_z("HID-compliant game controller")),
        manufacturer: Ok(utf16le_z("(Standard system devices)")),
        instance_id: Ok(wide_z(instance_id)),
        status_ret: CR_SUCCESS,
        status_flags: flags,
    }
}

#[test]
fn zero_flags_mean_disconnected_and_not_disableable() {
    assert_eq!(derive_status(0), GameControllerStatus::Disconnected);
    assert!(!derive_disableable(0));
}

#[test]
fn started_bit_means_enabled() {
    assert_eq!(derive_status(DN_STARTED), GameControllerStatus::Enabled);
    assert_eq!(
        derive_status(DN_STARTED | DN_DISABLEABLE),
        GameControllerStatus::Enabled
    );
}

#[test]
fn nonzero_flags_without_started_mean_disabled() {
    assert_eq!(derive_status(DN_DISABLEABLE), GameControllerStatus::Disabled);
    assert_eq!(derive_status(0x400), GameControllerStatus::Disabled);
}

#[test]
fn disableable_follows_its_bit() {
    assert!(derive_disableable(DN_DISABLEABLE));
    assert!(derive_disableable(DN_STARTED | DN_DISABLEABLE));
    assert!(!derive_disableable(DN_STARTED));
}

#[test]
fn marker_recognises_game_controller() {
    assert!(is_game_controller(vec![
        String::from("USB\\VID_1234"),
        String::from("HID_DEVICE_SYSTEM_GAME"),
    ]));
    assert!(!is_game_controller(vec![String::from("USB\\VID_1234")]));
    assert!(!is_game_controller(Vec::new()));
}

#[test]
fn filter_treats_failed_read_as_no_match() {
    let mut node = controller_node("HID\\X", DN_STARTED);
    node.hardware_ids = Err(Error::Win32(-5));
    assert!(!passes_filter(&node));
}

#[test]
fn size_query_accepts_insufficient_buffer() {
    assert_eq!(check_insufficient_buffer(Ok(())), Ok(()));
    assert_eq!(
        check_insufficient_buffer(Err(INSUFFICIENT_BUFFER_HRESULT)),
        Ok(())
    );
    assert_eq!(
        check_insufficient_buffer(Err(-7)),
        Err(Error::Win32(-7))
    );
}

#[test]
fn status_query_interpretation() {
    assert_eq!(query_devnode_flags(CR_SUCCESS, 9), Ok(9));
    assert_eq!(query_devnode_flags(CR_NO_SUCH_DEVNODE, 9), Ok(0));
    assert_eq!(query_devnode_flags(0x33, 9), Err(Error::ConfigRet(0x33)));
}

#[test]
fn config_result_confirmation() {
    assert_eq!(confirm_config_result(CR_SUCCESS), Ok(()));
    assert_eq!(confirm_config_result(5), Err(Error::ConfigRet(5)));
}

#[test]
fn list_of_one_enabled_controller() {
    let id = "HID\\VID_045E&PID_02E0\\7&2F8AC9E0&0&0000";
    let nodes = vec![controller_node(id, DN_STARTED | DN_DISABLEABLE)];
    let listed = game_controllers(&nodes);
    assert_eq!(listed.len(), 1);
    assert_eq!(listed[0].name, "HID-compliant game controller");
    assert_eq!(listed[0].manufacturer, "(Standard system devices)");
    assert_eq!(listed[0].instance_id, id);
    assert_eq!(listed[0].status, GameControllerStatus::Enabled);
    assert!(listed[0].disableable);
}

#[test]
fn list_of_same_node_with_zero_flags_is_disconnected() {
    let nodes = vec![controller_node("HID\\X&Y", 0)];
    let listed = game_controllers(&nodes);
    assert_eq!(listed.len(), 1);
    assert_eq!(listed[0].status, GameControllerStatus::Disconnected);
    assert!(!listed[0].disableable);
}

#[test]
fn list_of_empty_enumeration_is_empty() {
    let listed = game_controllers(&Vec::new());
    assert!(listed.is_empty());
}

#[test]
fn list_skips_non_matching_and_failing_nodes() {
    let mut unrelated = controller_node("HID\\OTHER", DN_STARTED);
    unrelated.hardware_ids = Ok(utf16le_multi(&["USB\\VID_9999"]));
    let mut broken = controller_node("HID\\BROKEN", DN_STARTED);
    broken.description = Err(Error::Win32(-5));
    let good = controller_node("HID\\GOOD", DN_STARTED);
    let nodes = vec![unrelated, broken, good];
    let listed = game_controllers(&nodes);
    assert_eq!(listed.len(), 1);
    assert_eq!(listed[0].instance_id, "HID\\GOOD");
}

#[test]
fn record_construction_surfaces_each_error() {
    let mut node = controller_node("HID\\X", DN_STARTED);
    node.description = Err(Error::Win32(-5));
    assert_eq!(
        GameController::try_from_devinfo(&node).unwrap_err(),
        Error::Win32(-5)
    );

    let mut node = controller_node("HID\\X", DN_STARTED);
    // an unpaired surrogate in the manufacturer buffer
    node.manufacturer = Ok(vec![0x00, 0xD8, 0, 0]);
    assert_eq!(
        GameController::try_from_devinfo(&node).unwrap_err(),
        Error::Decode
    );

    let mut node = controller_node("HID\\X", DN_STARTED);
    node.status_ret = 0x33;
    assert_eq!(
        GameController::try_from_devinfo(&node).unwrap_err(),
        Error::ConfigRet(0x33)
    );
}

#[test]
fn missing_node_status_counts_as_disconnected() {
    let mut node = controller_node("HID\\X", DN_STARTED);
    node.status_ret = CR_NO_SUCH_DEVNODE;
    let c = GameController::try_from_devinfo(&node).unwrap();
    assert_eq!(c.status, GameControllerStatus::Disconnected);
}

#[test]
fn lookup_finds_first_matching_node() {
    let mut a = controller_node("HID\\A", DN_STARTED);
    a.devinst = 7;
    let mut b = controller_node("HID\\B", DN_STARTED);
    b.devinst = 9;
    let nodes = vec![a, b];
    assert_eq!(find_devinst(&nodes, &String::from("HID\\B")), Ok(9));
    assert_eq!(find_devinst(&nodes, &String::from("HID\\A")), Ok(7));
}

#[test]
fn lookup_of_absent_id_is_not_found() {
    let nodes = vec![controller_node("HID\\PRESENT", DN_STARTED)];
    assert_eq!(
        find_devinst(&nodes, &String::from("nonexistent-id")),
        Err(Error::NotFound)
    );
    assert_eq!(
        find_devinst(&Vec::new(), &String::from("anything")),
        Err(Error::NotFound)
    );
}

#[test]
fn lookup_ignores_nodes_outside_the_filter() {
    let mut unrelated = controller_node("HID\\SAME", DN_STARTED);
    unrelated.hardware_ids = Ok(utf16le_multi(&["USB\\VID_9999"]));
    let nodes = vec![unrelated];
    assert_eq!(
        find_devinst(&nodes, &String::from("HID\\SAME")),
        Err(Error::NotFound)
    );
}
