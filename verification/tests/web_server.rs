use micyou_app::lan::get_lan_ips;
use micyou_app::telemetry::{Arrival, WebTelemetry, MAX_AUDIO_LEVEL, WEB_SAMPLE_RATE};
use micyou_app::web_server::{
    accept_step, browser_device, content_type, decrement_client_count, keeps_receiving, redirect_dashboard,
    socket_step, AcceptEvent, AcceptStep, ActiveWebSender, AudioCodec, AudioPacket, FrameOutcome, SendOutcome, SocketEvent,
    SocketStep, StaticAsset, WebServer, WebServerState, ACCEPT_PAUSE_MS, DEFAULT_WEB_PORT, MAX_FRAME_BYTES,
    MAX_TLS_HANDSHAKES, TLS_HANDSHAKE_TIMEOUT_SECS,
};

fn running() -> (WebServer, WebServerState) {
    let mut server = WebServer::new();
    let run = server.start(9000).unwrap();
    server.mark_running();
    (server, run)
}

fn packet(outcome: FrameOutcome) -> AudioPacket {
    match outcome {
        FrameOutcome::Packet(packet) => packet,
        _ => panic!("the frame was not passed on"),
    }
}

#[test]
fn decrement_does_not_underflow() {
    let mut count: usize = 0;
    assert_eq!(decrement_client_count(&mut count), 0);
}

#[test]
fn decrement_takes_one() {
    let mut count: usize = 3;
    assert_eq!(decrement_client_count(&mut count), 2);
    assert_eq!(count, 2);
    let mut none: usize = 0;
    decrement_client_count(&mut none);
    assert_eq!(none, 0);
}

#[test]
fn newer_connection_replaces_older() {
    let mut sender = ActiveWebSender::new();
    assert_eq!(sender.activate(), (1, None));
    assert!(sender.is_current(1));
    assert_eq!(sender.activate(), (2, Some(1)));
    assert!(!sender.is_current(1));
    assert!(!sender.deactivate(1));
    assert!(sender.deactivate(2));
    assert!(!sender.deactivate(2));
    assert!(sender.is_current(2));
    assert_eq!(sender.activate(), (3, None));
}

#[test]
fn fresh_server_waits() {
    let server = WebServer::new();
    assert_eq!(server.client_count(), 0);
    assert!(!server.is_running());
    assert_eq!(server.port(), 8443);
    assert_eq!(DEFAULT_WEB_PORT, 8443);
    assert_eq!(server.pairing_token().len(), 48);
    assert_eq!(server.telemetry(), WebTelemetry::new().snapshot());
    assert_ne!(server.pairing_token(), WebServer::new().pairing_token());
}

#[test]
fn start_is_refused_while_running() {
    let (mut server, run) = running();
    assert!(server.is_running());
    assert_eq!(server.port(), 9000);
    assert_eq!(run.port, 9000);
    assert_eq!(run.pairing_token, server.pairing_token());
    assert_eq!(run.active_sender, ActiveWebSender::new());
    match server.start(9001) {
        Err(message) => assert_eq!(message, "Web server is already running"),
        Ok(_) => panic!("started twice"),
    }
    assert_eq!(server.port(), 9000);
    server.stop();
    assert!(!server.is_running());
    assert!(server.start(9001).is_ok());
    assert_eq!(server.port(), 9001);
}

#[test]
fn start_begins_without_running() {
    let mut server = WebServer::new();
    assert!(server.start(1).is_ok());
    assert!(!server.is_running());
    assert!(server.start(2).is_ok());
}

#[test]
fn connections_take_over_one_after_another() {
    let (mut server, mut run) = running();
    let first = server.connect(&mut run);
    assert_eq!((first.generation, first.superseded, first.count), (1, None, 1));
    assert!(first.device_connected);
    let second = server.connect(&mut run);
    assert_eq!((second.generation, second.superseded, second.count), (2, Some(1), 1));
    assert!(!second.device_connected);
    assert!(server.disconnect(&mut run, 1).is_none());
    assert_eq!(server.client_count(), 1);
    let end = server.disconnect(&mut run, 2).unwrap();
    assert_eq!(end.remaining, 0);
    assert!(end.device_disconnected);
    assert_eq!(server.client_count(), 0);
    assert!(server.disconnect(&mut run, 2).is_none());
    let third = server.connect(&mut run);
    assert_eq!((third.generation, third.superseded, third.count), (3, None, 1));
    assert!(third.device_connected);
}

#[test]
fn frames_become_packets() {
    let (mut server, mut run) = running();
    server.connect(&mut run);
    let frame: Vec<u8> = [1.0f32, -1.0].iter().flat_map(|v| v.to_le_bytes()).collect();
    let (outcome, arrival) = server.receive(&run, 1, &frame, 5000, 70);
    let sent = packet(outcome);
    assert_eq!(sent.buffer, vec![0xff, 0x7f, 0x01, 0x80]);
    assert_eq!(sent.sample_rate, 48000);
    assert_eq!(sent.channel_count, 1);
    assert_eq!(sent.audio_format, 2);
    assert_eq!(sent.codec, AudioCodec::Pcm);
    assert_eq!(arrival, None);
    let (_, arrival) = server.receive(&run, 1, &frame, 5020, 60);
    assert_eq!(arrival, Some(Arrival { observed_ms: 20, samples: 2 }));
    server.set_jitter(12.5f64.to_bits());
    let shown = server.telemetry();
    assert_eq!(shown.packet_count, 2);
    assert_eq!(shown.bytes_received, 16);
    assert_eq!(shown.audio_level, 60);
    assert_eq!(shown.sample_rate, 48000);
    assert_eq!(f64::from_bits(shown.jitter_bits), 12.5);
    assert_eq!(server.serve_status().telemetry, shown);
}

#[test]
fn bad_frames_change_nothing() {
    let (mut server, mut run) = running();
    server.connect(&mut run);
    let before = server.telemetry();
    let large = vec![0u8; MAX_FRAME_BYTES + 1];
    assert!(matches!(server.receive(&run, 1, &large, 1, 1).0, FrameOutcome::TooLarge));
    let ragged = vec![0u8; 6];
    assert!(matches!(server.receive(&run, 1, &ragged, 1, 1).0, FrameOutcome::Unaligned));
    let (outcome, arrival) = server.receive(&run, 7, &[0; 4], 1, 1);
    assert!(matches!(outcome, FrameOutcome::Superseded));
    assert_eq!(arrival, None);
    assert_eq!(server.telemetry(), before);
    let full = vec![0u8; 65536];
    assert_eq!(packet(server.receive(&run, 1, &full, 1, 0).0).buffer.len(), 32768);
    assert!(packet(server.receive(&run, 1, &[], 1, 0).0).buffer.is_empty());
}

#[test]
fn superseded_connection_is_not_heard() {
    let (mut server, mut run) = running();
    let old = server.connect(&mut run).generation;
    let new = server.connect(&mut run).generation;
    assert!(matches!(server.receive(&run, old, &[0; 4], 1, 1).0, FrameOutcome::Superseded));
    assert!(matches!(server.receive(&run, new, &[0; 4], 1, 1).0, FrameOutcome::Packet(_)));
}

#[test]
fn stopping_clears_live_figures() {
    let (mut server, mut run) = running();
    server.connect(&mut run);
    server.receive(&run, 1, &[0; 8], 1000, 50);
    server.stop();
    let shown = server.telemetry();
    assert_eq!((shown.audio_level, shown.bitrate), (0, 0));
    assert_eq!((shown.packet_count, shown.bytes_received), (1, 8));
    assert_eq!(server.client_count(), 0);
    assert!(!server.is_running());
}

#[test]
fn pairing_addresses_belong_to_the_server() {
    let (server, _) = running();
    for url in server.pairing_urls() {
        assert!(url.starts_with("https://"));
        assert!(url.ends_with(&format!(":9000/?token={}", server.pairing_token())));
    }
}

#[test]
fn public_status_says_running() {
    let (mut server, mut run) = running();
    server.connect(&mut run);
    let status = server.serve_status();
    assert!(status.running);
    assert_eq!(status.client_count, 1);
    assert_eq!(status.port, 9000);
    assert_eq!(status.lan_ips, get_lan_ips());
    let expected: Vec<String> =
        status.lan_ips.iter().map(|ip| format!("https://{ip}:9000/")).collect();
    assert_eq!(status.phone_urls, expected);
}

#[test]
fn public_status_shows_one_page_for_each_address() {
    let mut server = WebServer::new();
    server.start(8443).unwrap();
    let status = server.status_with(vec!["192.168.1.10".to_string(), "10.0.0.5".to_string()]);
    assert!(status.running);
    assert_eq!((status.client_count, status.port), (0, 8443));
    assert_eq!(status.lan_ips, vec!["192.168.1.10", "10.0.0.5"]);
    assert_eq!(
        status.phone_urls,
        vec!["https://192.168.1.10:8443/", "https://10.0.0.5:8443/"]
    );
    assert_eq!(status.telemetry, server.telemetry());
    assert!(server.status_with(Vec::new()).phone_urls.is_empty());
}

#[test]
fn level_stays_in_its_range() {
    let mut telemetry = WebTelemetry::new();
    assert!(telemetry.snapshot().audio_level <= MAX_AUDIO_LEVEL);
    telemetry.record_packet(4, 1, MAX_AUDIO_LEVEL);
    assert_eq!(telemetry.snapshot().audio_level, 100);
    telemetry.reset_live();
    assert_eq!(telemetry.snapshot().audio_level, 0);
}

#[test]
fn bitrate_is_measured_over_a_second() {
    let mut telemetry = WebTelemetry::new();
    assert_eq!(telemetry.record_packet(1000, 10_000, 3), None);
    assert_eq!(telemetry.snapshot().bitrate, 0);
    telemetry.record_packet(1000, 10_999, 3);
    assert_eq!(telemetry.snapshot().bitrate, 0);
    telemetry.record_packet(1000, 11_500, 4);
    assert_eq!(telemetry.snapshot().bitrate, 16_000);
    telemetry.record_packet(400, 12_499, 5);
    assert_eq!(telemetry.snapshot().bitrate, 16_000);
    telemetry.record_packet(400, 12_500, 5);
    assert_eq!(telemetry.snapshot().bitrate, 6_400);
}

#[test]
fn bitrate_is_held_to_its_range() {
    let mut telemetry = WebTelemetry::new();
    telemetry.rate_window_start_ms = 1;
    telemetry.rate_window_bytes = u64::MAX / 2;
    telemetry.record_packet(4, 1001, 0);
    assert_eq!(telemetry.snapshot().bitrate, u32::MAX);
}

#[test]
fn clock_that_goes_back_shows_no_gap() {
    let mut telemetry = WebTelemetry::new();
    telemetry.record_packet(4, 9000, 1);
    let arrival = telemetry.record_packet(4, 8000, 1);
    assert_eq!(arrival, Some(Arrival { observed_ms: 0, samples: 1 }));
    assert_eq!(telemetry.snapshot().bitrate, 0);
}

#[test]
fn empty_frame_keeps_level_and_arrival() {
    let mut telemetry = WebTelemetry::new();
    telemetry.record_packet(4, 9000, 33);
    assert_eq!(telemetry.record_packet(0, 9500, 99), None);
    assert_eq!(telemetry.snapshot().audio_level, 33);
    assert_eq!(telemetry.last_arrival_ms, 9000);
    assert_eq!(telemetry.snapshot().packet_count, 2);
}

#[test]
fn counters_start_over_past_their_limit() {
    let mut telemetry = WebTelemetry::new();
    telemetry.packet_count = u64::MAX;
    telemetry.bytes_received = u64::MAX - 1;
    telemetry.record_packet(4, 1, 0);
    assert_eq!(telemetry.snapshot().packet_count, 0);
    assert_eq!(telemetry.snapshot().bytes_received, 2);
}

#[test]
fn cleared_figures_keep_totals_and_jitter() {
    let mut telemetry = WebTelemetry::new();
    telemetry.record_packet(4, 9000, 33);
    telemetry.set_jitter(7);
    telemetry.reset_live();
    let shown = telemetry.snapshot();
    assert_eq!((shown.audio_level, shown.bitrate), (0, 0));
    assert_eq!(shown.sample_rate, WEB_SAMPLE_RATE);
    assert_eq!(shown.jitter_bits, 7);
    assert_eq!(shown.packet_count, 1);
    assert_eq!(telemetry.record_packet(4, 20_000, 1), None);
    assert_eq!(telemetry.snapshot().bitrate, 0);
}

#[test]
fn socket_events_have_steps() {
    assert_eq!(socket_step(SocketEvent::Superseded), SocketStep::CloseAndEnd);
    assert_eq!(socket_step(SocketEvent::Binary), SocketStep::Receive);
    assert_eq!(socket_step(SocketEvent::Closed), SocketStep::End);
    assert_eq!(socket_step(SocketEvent::Failed), SocketStep::End);
    assert_eq!(socket_step(SocketEvent::Other), SocketStep::Wait);
    assert!(keeps_receiving(SendOutcome::Sent));
    assert!(keeps_receiving(SendOutcome::Full));
    assert!(!keeps_receiving(SendOutcome::Closed));
}

#[test]
fn fixed_answers() {
    let device = browser_device();
    assert_eq!((device.name.as_str(), device.ip.as_str()), ("Web Browser", "browser"));
    assert_eq!(device.latency, 0);
    assert_eq!(content_type(StaticAsset::AlpineJs), "application/javascript");
    assert_eq!(content_type(StaticAsset::ServiceWorker), "application/javascript");
    assert_eq!(content_type(StaticAsset::Manifest), "application/manifest+json");
    assert_eq!(redirect_dashboard(), "http://127.0.0.1:19527/");
    assert_eq!((MAX_TLS_HANDSHAKES, TLS_HANDSHAKE_TIMEOUT_SECS), (32, 5));
}

#[test]
fn listener_events_have_steps() {
    assert_eq!(accept_step(AcceptEvent::HandshakeDone), AcceptStep::Serve);
    assert_eq!(
        accept_step(AcceptEvent::Connection { slot_claimed: true }),
        AcceptStep::Handshake
    );
    assert_eq!(accept_step(AcceptEvent::Connection { slot_claimed: false }), AcceptStep::Drop);
    assert_eq!(accept_step(AcceptEvent::Failed), AcceptStep::Pause);
    assert_eq!(ACCEPT_PAUSE_MS, 100);
}

#[test]
fn restarted_server_keeps_its_token() {
    let (mut server, mut run) = running();
    let token = server.pairing_token().to_string();
    server.connect(&mut run);
    server.stop();
    let run = server.start(9100).unwrap();
    assert_eq!(run.pairing_token, token);
    assert_eq!((server.pairing_token(), server.client_count()), (token.as_str(), 0));
}

#[test]
fn pairing_addresses_follow_the_local_addresses() {
    let (server, _) = running();
    let token = server.pairing_token();
    let expected: Vec<String> =
        get_lan_ips().iter().map(|ip| format!("https://{ip}:9000/?token={token}")).collect();
    assert_eq!(server.pairing_urls(), expected);
}
