use axum::http::{HeaderMap, HeaderValue};
use micyou_app::api::ApiError;
use micyou_app::dashboard::{
    is_local_host, local_host_only, pairing, pairing_info, status, NativeStats, QrSymbol,
    WebStatus, DASHBOARD_PORT,
};
use micyou_app::output::{set_web_dsp_active, web_dsp_active, WebDsp};
use micyou_app::telemetry::WebTelemetry;

fn native() -> NativeStats {
    NativeStats {
        muted: true,
        sample_rate: 44_100,
        bitrate: 128,
        jitter_bits: 1.5f64.to_bits(),
        latency_ms: -3,
        loss_rate_bits: 0.25f64.to_bits(),
    }
}

fn web(running: bool) -> WebStatus {
    let mut telemetry = WebTelemetry::new();
    telemetry.bitrate = 77;
    telemetry.jitter_bits = 2.5f64.to_bits();
    telemetry.audio_level = 42;
    WebStatus {
        running,
        client_count: 1,
        telemetry: telemetry.snapshot(),
        urls: vec!["https://10.0.0.5:8443/?token=t".to_string()],
    }
}

#[test]
fn local_hosts_are_recognised() {
    for host in [
        "127.0.0.1",
        "127.0.0.1:19527",
        "localhost",
        "LocalHost:19527",
        "[::1]",
        "[::1]:19527",
        "127.0.0.1:anything",
    ] {
        assert!(is_local_host(host), "{host}");
    }
    for host in [
        "",
        "127.0.0.1.example.org",
        "localhost.example.org",
        "127.0.0.11",
        "127.0.0.2",
        "192.168.1.20:19527",
        " localhost",
        "::1",
        "[::1",
        "[::1]x",
    ] {
        assert!(!is_local_host(host), "{host}");
    }
}

#[test]
fn requests_need_a_local_host_header() {
    let mut headers = HeaderMap::new();
    let refused = local_host_only(&headers).err().unwrap();
    assert_eq!(refused.status(), 403);
    assert_eq!(refused.message(), "Local dashboard only");
    headers.insert("host", HeaderValue::from_static("example.org"));
    assert!(local_host_only(&headers).is_err());
    headers.insert("host", HeaderValue::from_static("LOCALHOST:19527"));
    assert!(local_host_only(&headers).is_ok());
    headers.insert("host", HeaderValue::from_bytes(b"localhost:\xff").unwrap());
    assert!(local_host_only(&headers).is_err());
    assert_eq!(DASHBOARD_PORT, 19527);
}

#[test]
fn status_shows_the_running_server() {
    let mut dsp = WebDsp::new();
    let page = status(&mut dsp, Some(web(true)), native(), true, 960);
    assert!(page.online && page.server_running && page.muted && page.monitoring);
    assert!(page.web_dsp_active && !page.web_aec_supported);
    assert!(web_dsp_active(&dsp));
    assert_eq!(page.web_client_count, 1);
    assert_eq!(page.queued_samples, 960);
    assert_eq!(page.sample_rate, 48_000);
    assert_eq!(page.bitrate, 77);
    assert_eq!(page.network_latency_ms, -3);
    assert_eq!(f64::from_bits(page.jitter_bits), 2.5);
    assert_eq!(f64::from_bits(page.packet_loss_bits), 0.0);
    assert_eq!(page.audio_level, 42);
    assert_eq!(page.phone_urls, vec!["https://10.0.0.5:8443/?token=t"]);
}

#[test]
fn status_shows_a_stopped_server() {
    let mut dsp = WebDsp::new();
    set_web_dsp_active(&mut dsp, true);
    let page = status(&mut dsp, Some(web(false)), native(), false, 0);
    assert!(!page.server_running && !page.web_dsp_active && !page.monitoring);
    assert!(!web_dsp_active(&dsp));
    assert_eq!(page.sample_rate, 0);
    assert_eq!(f64::from_bits(page.packet_loss_bits), 0.25);
}

#[test]
fn status_shows_native_figures_without_a_server() {
    let mut dsp = WebDsp::new();
    set_web_dsp_active(&mut dsp, true);
    let page = status(&mut dsp, None, native(), false, 5);
    assert!(!page.server_running && !page.web_dsp_active);
    assert!(!web_dsp_active(&dsp));
    assert_eq!(page.web_client_count, 0);
    assert_eq!(page.sample_rate, 44_100);
    assert_eq!(page.bitrate, 128);
    assert_eq!(f64::from_bits(page.jitter_bits), 1.5);
    assert_eq!(f64::from_bits(page.packet_loss_bits), 0.25);
    assert_eq!(page.audio_level, 0);
    assert!(page.phone_urls.is_empty());
}

#[test]
fn pairing_needs_a_running_server() {
    for urls in [None, Some(Vec::new()), Some(vec![String::new(), "x".to_string()])] {
        let error = pairing(urls).err().unwrap();
        assert_eq!(error.status(), 409);
        assert_eq!(error.message(), "Web microphone server is not running");
    }
}

#[test]
fn pairing_shows_the_first_address_as_a_code() {
    let first = "https://10.0.0.5:8443/?token=000102030405060708090a0b0c0d0e0f1011121314151617";
    let urls = vec![first.to_string(), "https://192.168.1.20:8443/?token=t".to_string()];
    let info = pairing(Some(urls.clone())).ok().unwrap();
    assert!(info.ready && info.self_signed_certificate);
    assert_eq!(info.primary_url, first);
    assert_eq!(info.urls, urls);
    let code = qrcode::QrCode::new(first.as_bytes()).unwrap();
    assert_eq!(info.qr_size, code.width());
    let dark: Vec<bool> =
        code.to_colors().into_iter().map(|color| color == qrcode::Color::Dark).collect();
    assert_eq!(info.qr_bits, dark);
    assert_eq!(info.qr_bits.len(), info.qr_size * info.qr_size);
    // A finder pattern stands in the corner: seven dark modules, then a light one.
    assert!(info.qr_bits[..7].iter().all(|dark| *dark));
    assert!(!info.qr_bits[7]);
}

#[test]
fn other_addresses_have_other_codes() {
    let first = pairing(Some(vec!["https://10.0.0.5:8443/?token=a".to_string()])).ok().unwrap();
    let second = pairing(Some(vec!["https://10.0.0.5:8443/?token=b".to_string()])).ok().unwrap();
    assert_ne!(first.qr_bits, second.qr_bits);
}

#[test]
fn address_without_a_code_is_reported() {
    let urls = vec!["x".repeat(5000)];
    let error = pairing_info(urls, Err("data too long".to_string())).err().unwrap();
    assert_eq!(error.status(), 500);
    assert_eq!(error.message(), "data too long");
}

#[test]
fn longest_address_has_a_code() {
    let longest = "https://255.255.255.255:65535/?token=".to_string() + &"f".repeat(48);
    assert_eq!(longest.len(), 85);
    assert!(pairing(Some(vec![longest])).is_ok());
    assert!(pairing(Some(vec!["\u{e9}".repeat(256)])).is_ok());
}

#[test]
fn pairing_info_takes_over_the_symbol() {
    let urls = vec!["u".to_string()];
    let symbol = QrSymbol { size: 1, modules: vec![true] };
    let info = pairing_info(urls.clone(), Ok(symbol)).ok().unwrap();
    assert_eq!((info.qr_size, info.qr_bits), (1, vec![true]));
    let error = pairing_info(urls, Err("why".to_string())).err().unwrap();
    assert!(matches!(error, ApiError::QrCode(_)));
    assert_eq!(error.message(), "why");
}

#[test]
fn errors_have_codes_and_texts() {
    let reason = || "why".to_string();
    let table: Vec<(ApiError, u16, &str)> = vec![
        (ApiError::NotLocal, 403, "Local dashboard only"),
        (ApiError::NotRunning, 409, "Web microphone server is not running"),
        (ApiError::QrCode(reason()), 500, "why"),
        (ApiError::PatchNotObject, 400, "DSP patch must be a JSON object"),
        (
            ApiError::AecNeedsLoopback,
            400,
            "AEC is unavailable in Web transport because it requires the native far-end loopback reference",
        ),
        (ApiError::SettingsLock, 500, "DSP settings lock failed"),
        (ApiError::Serialize(reason()), 500, "why"),
        (ApiError::InvalidSettings(reason()), 400, "why"),
        (ApiError::AecUnsupported, 400, "AEC is not supported on macOS"),
        (ApiError::Persist(reason()), 500, "why"),
        (
            ApiError::DeviceOpen,
            400,
            "Failed to open selected audio device; restored previous device",
        ),
        (ApiError::Start(reason()), 409, "why"),
        (ApiError::Stop(reason()), 500, "why"),
    ];
    for (error, code, text) in table {
        assert_eq!(error.status(), code);
        assert_eq!(error.message(), text);
    }
}
