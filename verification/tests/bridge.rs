//! The event bridge: ordering, drop-oldest overflow, the permission side
//! table, and the consumer-side drain.

use tilt_core::bridge::{
    process_bridge_events, BridgeEvent, DeviceOrientationData, EventBridge, JsRustBridge,
    PermissionStatus,
};
use tilt_core::tilt::{InputSource, TiltInput};

fn orientation_at(timestamp: u64) -> BridgeEvent {
    BridgeEvent::DeviceOrientation(DeviceOrientationData {
        alpha: 0,
        beta: 1000,
        gamma: 2000,
        timestamp,
    })
}

#[test]
fn push_then_pop_is_fifo() {
    let mut bridge = EventBridge::new();
    for t in 0..5u64 {
        bridge.push_event(orientation_at(t));
    }
    for t in 0..5u64 {
        match bridge.pop_event() {
            Some(BridgeEvent::DeviceOrientation(data)) => assert_eq!(data.timestamp, t),
            other => panic!("expected an orientation event, got {:?}", other),
        }
    }
    assert!(bridge.pop_event().is_none());
}

#[test]
fn overflow_drops_only_the_oldest() {
    let mut bridge = EventBridge::new();
    for t in 0..121u64 {
        bridge.push_event(orientation_at(t));
    }
    match bridge.pop_event() {
        Some(BridgeEvent::DeviceOrientation(data)) => assert_eq!(data.timestamp, 1),
        other => panic!("expected an orientation event, got {:?}", other),
    }
}

#[test]
fn drain_after_150_pushes_sees_the_last_120_in_order() {
    let mut bridge = EventBridge::new();
    for t in 0..150u64 {
        bridge.push_event(orientation_at(t));
    }
    let mut seen = Vec::new();
    while let Some(event) = bridge.pop_event() {
        match event {
            BridgeEvent::DeviceOrientation(data) => seen.push(data.timestamp),
            other => panic!("expected an orientation event, got {:?}", other),
        }
    }
    let expected: Vec<u64> = (30..150u64).collect();
    assert_eq!(seen, expected);
}

#[test]
fn permission_starts_denied() {
    let bridge = EventBridge::new();
    let status = bridge.get_permission_status();
    assert!(!status.granted);
    assert!(!status.requested);
    assert!(!status.available);
}

#[test]
fn set_permission_status_stores_and_enqueues_once() {
    let mut bridge = EventBridge::new();
    let granted = PermissionStatus { granted: true, requested: true, available: true };
    bridge.set_permission_status(granted);
    assert_eq!(*bridge.get_permission_status(), granted);
    match bridge.pop_event() {
        Some(BridgeEvent::PermissionStatusChanged(status)) => assert_eq!(status, granted),
        other => panic!("expected a permission event, got {:?}", other),
    }
    assert!(bridge.pop_event().is_none());
    assert_eq!(*bridge.get_permission_status(), granted);
}

#[test]
fn process_events_tracks_latest_payloads_and_count() {
    let mut bridge = EventBridge::new();
    let mut consumer = JsRustBridge::default();
    bridge.push_event(orientation_at(7));
    bridge.push_event(orientation_at(8));
    bridge.set_permission_status(PermissionStatus {
        granted: true,
        requested: true,
        available: true,
    });
    bridge.push_event(BridgeEvent::GameStateRequest { state: "menu".to_string() });

    let events = consumer.process_events(&mut bridge);
    assert_eq!(events.len(), 4);
    assert_eq!(consumer.events_processed, 4);
    assert_eq!(consumer.last_orientation.unwrap().timestamp, 8);
    assert!(consumer.permission_status.granted);
    assert!(bridge.pop_event().is_none());
    assert!(matches!(events[3], BridgeEvent::GameStateRequest { .. }));
}

#[test]
fn send_game_state_response_enqueues_the_reply() {
    let mut bridge = EventBridge::new();
    let consumer = JsRustBridge::default();
    consumer.send_game_state_response(&mut bridge, "playing".to_string(), "42".to_string());
    match bridge.pop_event() {
        Some(BridgeEvent::GameStateResponse { state, data }) => {
            assert_eq!(state, "playing");
            assert_eq!(data, "42");
        },
        other => panic!("expected a game-state response, got {:?}", other),
    }
}

#[test]
fn drain_feeds_orientation_into_tilt_and_follows_permission() {
    let mut bridge = EventBridge::new();
    let mut consumer = JsRustBridge::default();
    let mut tilt = TiltInput::default();
    assert_eq!(tilt.input_source, InputSource::Device);
    assert!(!tilt.enabled);

    bridge.set_permission_status(PermissionStatus {
        granted: true,
        requested: true,
        available: true,
    });
    bridge.push_event(BridgeEvent::DeviceOrientation(DeviceOrientationData {
        alpha: 0,
        beta: 5000,
        gamma: 0,
        timestamp: 3,
    }));

    process_bridge_events(&mut consumer, &mut bridge, &mut tilt);
    assert!(tilt.enabled);
    assert_eq!(tilt.beta, 5000);
    assert_eq!(tilt.filtered_beta, 900);
    assert_eq!(tilt.last_update_time, 3);
    assert!(bridge.pop_event().is_none());
}

#[test]
fn drain_revoking_permission_disables_device_input() {
    let mut bridge = EventBridge::new();
    let mut consumer = JsRustBridge::default();
    let mut tilt = TiltInput::default();
    bridge.set_permission_status(PermissionStatus {
        granted: true,
        requested: true,
        available: true,
    });
    process_bridge_events(&mut consumer, &mut bridge, &mut tilt);
    assert!(tilt.enabled);

    bridge.set_permission_status(PermissionStatus {
        granted: false,
        requested: true,
        available: true,
    });
    process_bridge_events(&mut consumer, &mut bridge, &mut tilt);
    assert!(!tilt.enabled);
}

#[test]
fn drain_ignores_permission_for_keyboard_source() {
    let mut bridge = EventBridge::new();
    let mut consumer = JsRustBridge::default();
    let mut tilt = TiltInput::default();
    tilt.set_input_source(InputSource::Keyboard);
    bridge.set_permission_status(PermissionStatus {
        granted: true,
        requested: true,
        available: true,
    });
    process_bridge_events(&mut consumer, &mut bridge, &mut tilt);
    assert!(!tilt.enabled);
}
