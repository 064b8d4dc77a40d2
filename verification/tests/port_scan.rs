use std::cell::Cell;

use sidecar_supervisor::port::{pick_available_backend_port, DEFAULT_BACKEND_PORT, PORT_SCAN_SPAN};

#[test]
fn scan_returns_preferred_port_when_it_is_free() {
    assert_eq!(pick_available_backend_port(8778, &|_p: u16| true), 8778);
}

#[test]
fn scan_returns_first_free_port_after_preferred() {
    assert_eq!(pick_available_backend_port(8778, &|p: u16| p >= 8781), 8781);
}

#[test]
fn scan_falls_back_to_preferred_when_window_is_taken() {
    assert_eq!(pick_available_backend_port(8778, &|_p: u16| false), 8778);
}

#[test]
fn scan_window_is_inclusive_of_its_last_port() {
    assert_eq!(pick_available_backend_port(8778, &|p: u16| p == 8978), 8978);
}

#[test]
fn scan_does_not_look_past_its_window() {
    assert_eq!(pick_available_backend_port(8778, &|p: u16| p == 8979), 8778);
}

#[test]
fn scan_probes_each_port_of_a_taken_window_once() {
    let probes = Cell::new(0u32);
    let port = pick_available_backend_port(8778, &|_p: u16| {
        probes.set(probes.get() + 1);
        false
    });
    assert_eq!(port, 8778);
    assert_eq!(probes.get(), 201);
}

#[test]
fn scan_stops_at_the_first_free_port() {
    let probes = Cell::new(0u32);
    let port = pick_available_backend_port(9000, &|p: u16| {
        probes.set(probes.get() + 1);
        p == 9002
    });
    assert_eq!(port, 9002);
    assert_eq!(probes.get(), 3);
}

#[test]
fn scan_ends_at_the_largest_port_number() {
    let probes = Cell::new(0u32);
    let port = pick_available_backend_port(65530, &|_p: u16| {
        probes.set(probes.get() + 1);
        false
    });
    assert_eq!(port, 65530);
    assert_eq!(probes.get(), 6);
    assert_eq!(pick_available_backend_port(65535, &|_p: u16| false), 65535);
    assert_eq!(pick_available_backend_port(65400, &|p: u16| p == 65535), 65535);
}

#[test]
fn scan_constants_are_the_documented_ones() {
    assert_eq!(DEFAULT_BACKEND_PORT, 8778);
    assert_eq!(PORT_SCAN_SPAN, 200);
}
