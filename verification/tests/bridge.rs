//! End-to-end and component tests of the bridge library, run against the
//! real panel-driver and text-rendering crates.

use embedded_graphics::Drawable;
use embedded_graphics::draw_target::DrawTarget;
use embedded_graphics::geometry::Point;
use embedded_graphics::mono_font::MonoTextStyleBuilder;
use embedded_graphics::mono_font::ascii::FONT_10X20;
use embedded_graphics::text::Baseline;
use embedded_graphics::text::Text;
use embedded_graphics::text::TextStyleBuilder;
use epd_waveshare::color::Color;
use epd_waveshare::epd5in83_v2::Display5in83;

use epaper_bridge::certs::prepare_credentials;
use epaper_bridge::certs::transform;
use epaper_bridge::config::Config;
use epaper_bridge::config::MQTT_CLIENT_ID;
use epaper_bridge::config::MQTT_TOPIC_NAME;
use epaper_bridge::config::greeting;
use epaper_bridge::control::POLL_INTERVAL_MS;
use epaper_bridge::control::RECV_TIMEOUT_MS;
use epaper_bridge::control::poll_cycle;
use epaper_bridge::control::render_message;
use epaper_bridge::listener::ListenerEvent;
use epaper_bridge::listener::decode_message;
use epaper_bridge::listener::handle_event;
use epaper_bridge::panel::paint_args_within_limits;
use epaper_bridge::panel::FRAME_BYTES;
use epaper_bridge::panel::PanelSession;
use epaper_bridge::panel::PanelState;
use epaper_bridge::relay::Relay;

/// What the text-rendering crate itself leaves in a white-cleared
/// framebuffer, computed independently of the library.
fn reference_frame(text: &str, x: i32, y: i32) -> Vec<u8> {
    let mut d = Display5in83::default();
    let _ = d.clear(Color::White);
    let style = MonoTextStyleBuilder::new()
        .font(&FONT_10X20)
        .text_color(Color::White)
        .background_color(Color::Black)
        .build();
    let text_style = TextStyleBuilder::new().baseline(Baseline::Top).build();
    let _ = Text::with_text_style(text, Point::new(x, y), style, text_style).draw(&mut d);
    d.buffer().to_vec()
}

fn ready_session() -> PanelSession {
    let mut session = PanelSession::new();
    session.init();
    session
}

#[test]
fn transform_appends_single_nul() {
    let pem: &[u8] = b"-----BEGIN CERTIFICATE-----";
    let r = transform(pem.to_vec());
    assert_eq!(r.len(), pem.len() + 1);
    assert_eq!(r[r.len() - 1], 0u8);
    assert_ne!(r[r.len() - 2], 0u8);
    assert_eq!(&r[..pem.len()], pem);
}

#[test]
fn transform_empty_buffer() {
    let r = transform(Vec::new());
    assert_eq!(r, vec![0u8]);
}

#[test]
fn credentials_all_terminated() {
    let c = prepare_credentials(b"ca".to_vec(), b"crt".to_vec(), b"key".to_vec());
    assert_eq!(c.server_cert, b"ca\0".to_vec());
    assert_eq!(c.client_cert, b"crt\0".to_vec());
    assert_eq!(c.private_key, b"key\0".to_vec());
}

#[test]
fn relay_delivers_in_send_order() {
    let mut relay = Relay::new();
    relay.send(String::from("M1"));
    relay.send(String::from("M2"));
    relay.send(String::from("M3"));
    assert_eq!(relay.try_recv(), Some(String::from("M1")));
    assert_eq!(relay.try_recv(), Some(String::from("M2")));
    assert_eq!(relay.try_recv(), Some(String::from("M3")));
    assert_eq!(relay.try_recv(), None);
}

#[test]
fn relay_keeps_order_across_poll_timing() {
    let mut relay = Relay::new();
    assert_eq!(relay.try_recv(), None);
    relay.send(String::from("M1"));
    assert_eq!(relay.try_recv(), Some(String::from("M1")));
    assert_eq!(relay.try_recv(), None);
    relay.send(String::from("M2"));
    relay.send(String::from("M3"));
    assert_eq!(relay.try_recv(), Some(String::from("M2")));
    relay.send(String::from("M4"));
    assert_eq!(relay.try_recv(), Some(String::from("M3")));
    assert_eq!(relay.try_recv(), Some(String::from("M4")));
    assert_eq!(relay.try_recv(), None);
}

#[test]
fn decode_message_accepts_utf8() {
    let r = decode_message("Temperature: 21C".as_bytes().to_vec());
    assert_eq!(r, Some(String::from("Temperature: 21C")));
}

#[test]
fn decode_message_rejects_invalid_bytes() {
    assert_eq!(decode_message(vec![0xff, 0xfe, 0xfd]), None);
}

#[test]
fn listener_forwards_valid_payload_once() {
    let mut relay = Relay::new();
    let forwarded = handle_event(
        &mut relay,
        ListenerEvent::Received("Temperature: 21C".as_bytes().to_vec()),
    );
    assert!(forwarded);
    assert_eq!(relay.try_recv(), Some(String::from("Temperature: 21C")));
    assert_eq!(relay.try_recv(), None);
}

#[test]
fn listener_drops_invalid_payload_and_continues() {
    let mut relay = Relay::new();
    let forwarded = handle_event(&mut relay, ListenerEvent::Received(vec![0xff, 0xfe]));
    assert!(!forwarded);
    assert_eq!(relay.try_recv(), None);
    let forwarded = handle_event(&mut relay, ListenerEvent::Received(b"next".to_vec()));
    assert!(forwarded);
    assert_eq!(relay.try_recv(), Some(String::from("next")));
}

#[test]
fn listener_ignores_stream_errors_and_other_events() {
    let mut relay = Relay::new();
    assert!(!handle_event(&mut relay, ListenerEvent::Failed));
    assert!(!handle_event(&mut relay, ListenerEvent::Other));
    assert_eq!(relay.try_recv(), None);
}

#[test]
fn panel_lifecycle_full_cycle() {
    let mut session = PanelSession::new();
    assert_eq!(session.current_state(), PanelState::Uninitialized);
    session.init();
    assert_eq!(session.current_state(), PanelState::Initialized);
    session.clear();
    assert_eq!(session.current_state(), PanelState::Cleared);
    session.paint("hi", 0, 0);
    assert_eq!(session.current_state(), PanelState::Painted);
    let data = session.update_frame();
    assert_eq!(session.current_state(), PanelState::Updated);
    assert_eq!(data.len(), FRAME_BYTES);
    session.display_frame();
    assert_eq!(session.current_state(), PanelState::Displayed);
    session.clear();
    assert_eq!(session.current_state(), PanelState::Cleared);
}

#[test]
fn fresh_frame_is_all_zero() {
    let session = PanelSession::new();
    let bytes = session.frame_bytes();
    assert_eq!(bytes.len(), FRAME_BYTES);
    assert!(bytes.iter().all(|b| *b == 0u8));
}

#[test]
fn clear_fills_frame_white() {
    let mut session = ready_session();
    session.clear();
    let bytes = session.frame_bytes();
    assert_eq!(bytes.len(), FRAME_BYTES);
    assert!(bytes.iter().all(|b| *b == 0xffu8));
}

#[test]
fn paint_changes_the_frame() {
    let mut session = ready_session();
    session.clear();
    session.paint("Temperature: 21C", 0, 0);
    let bytes = session.frame_bytes();
    assert_eq!(bytes.len(), FRAME_BYTES);
    assert!(bytes.iter().any(|b| *b != 0xffu8));
}

#[test]
fn paint_matches_direct_rendering() {
    let mut session = ready_session();
    session.clear();
    session.paint("Temperature: 21C", 0, 0);
    assert_eq!(session.frame_bytes(), reference_frame("Temperature: 21C", 0, 0));
}

#[test]
fn greeting_names_the_topic() {
    let g = greeting(MQTT_TOPIC_NAME);
    assert_eq!(g, String::from("Hello from topic/sdk/test/rust!"));
}

#[test]
fn greeting_is_first_message_rendered() {
    let mut relay = Relay::new();
    relay.send(greeting(MQTT_TOPIC_NAME));
    let mut session = ready_session();
    let data = poll_cycle(&mut session, &mut relay).expect("greeting pending");
    assert_eq!(session.current_state(), PanelState::Displayed);
    assert_eq!(data, reference_frame("Hello from topic/sdk/test/rust!", 0, 0));
}

#[test]
fn poll_timeout_never_touches_the_panel() {
    let mut session = ready_session();
    let before = session.frame_bytes();
    let mut relay = Relay::new();
    let r = poll_cycle(&mut session, &mut relay);
    assert!(r.is_none());
    assert_eq!(session.current_state(), PanelState::Initialized);
    assert_eq!(session.frame_bytes(), before);
}

#[test]
fn external_publish_is_rendered_at_origin() {
    let mut relay = Relay::new();
    let mut session = ready_session();
    let forwarded = handle_event(
        &mut relay,
        ListenerEvent::Received("Temperature: 21C".as_bytes().to_vec()),
    );
    assert!(forwarded);
    let data = poll_cycle(&mut session, &mut relay).expect("message pending");
    assert_eq!(session.current_state(), PanelState::Displayed);
    assert_eq!(data.len(), FRAME_BYTES);
    assert_eq!(data, session.frame_bytes());
    assert_eq!(data, reference_frame("Temperature: 21C", 0, 0));
}

#[test]
fn invalid_publish_leaves_previous_image() {
    let mut relay = Relay::new();
    let mut session = ready_session();
    relay.send(String::from("First"));
    let _ = poll_cycle(&mut session, &mut relay);
    let before = session.frame_bytes();
    let forwarded = handle_event(&mut relay, ListenerEvent::Received(vec![0x80, 0xff]));
    assert!(!forwarded);
    let r = poll_cycle(&mut session, &mut relay);
    assert!(r.is_none());
    assert_eq!(session.current_state(), PanelState::Displayed);
    assert_eq!(session.frame_bytes(), before);
}

#[test]
fn render_message_returns_transferred_bytes() {
    let mut session = ready_session();
    let data = render_message(&mut session, "hi", 10, 20);
    assert_eq!(session.current_state(), PanelState::Displayed);
    assert_eq!(data, reference_frame("hi", 10, 20));
}

#[test]
fn paint_limits_accept_panel_range() {
    assert!(paint_args_within_limits("Temperature: 21C", 0, 0));
    assert!(paint_args_within_limits("", -100000, 100000));
    assert!(!paint_args_within_limits("hi", i32::MAX, 0));
    assert!(!paint_args_within_limits("hi", 0, i32::MIN));
    let long = "a".repeat(100001);
    assert!(!paint_args_within_limits(&long, 0, 0));
}

#[test]
fn oversize_message_dropped_without_render() {
    let mut relay = Relay::new();
    let mut session = ready_session();
    relay.send(String::from("First"));
    let _ = poll_cycle(&mut session, &mut relay);
    let before = session.frame_bytes();
    relay.send("b".repeat(100001));
    let r = poll_cycle(&mut session, &mut relay);
    assert!(r.is_none());
    assert_eq!(session.current_state(), PanelState::Displayed);
    assert_eq!(session.frame_bytes(), before);
    assert_eq!(relay.try_recv(), None);
}

#[test]
fn config_keeps_startup_values() {
    let c = Config::new(
        String::from("net"),
        String::from("pass"),
        String::from("broker.example:8883"),
        String::from(MQTT_CLIENT_ID),
        String::from(MQTT_TOPIC_NAME),
    );
    assert_eq!(c.wifi_ssid, "net");
    assert_eq!(c.wifi_pass, "pass");
    assert_eq!(c.mqtt_endpoint, "broker.example:8883");
    assert_eq!(c.mqtt_client_id, "esp32-epaper-main");
    assert_eq!(c.mqtt_topic, "topic/sdk/test/rust");
}

#[test]
fn poll_cadence_constants() {
    assert_eq!(POLL_INTERVAL_MS, 3000);
    assert_eq!(RECV_TIMEOUT_MS, 2000);
}
