//! The dashboard on the computer itself: who may reach it, what it shows, and
//! the pairing code.

use crate::api::ApiError;
use crate::headers::header_text;
use crate::headers::header_text_of;
use crate::headers::header_values;
use crate::lan::ipv4_text;
use crate::lan::is_ipv4_text;
use crate::output::set_web_dsp_active;
use crate::output::web_dsp_active;
use crate::output::WebDsp;
use crate::pairing::is_pairing_token;
use crate::pairing::is_pairing_url;
use crate::pairing::pairing_url_text;
use crate::telemetry::WebTelemetrySnapshot;
use crate::text::ascii_lower;
use crate::text::begins_with;
use crate::text::decimal;
use crate::text::hex;
use crate::text::same_text;
use crate::text::starts_with;
use crate::text::to_ascii_lower;
use vstd::prelude::*;
use vstd::utf8::encode_utf8;
use vstd::utf8::is_ascii_chars;
use vstd::utf8::is_ascii_chars_encode_utf8;

verus! {

/// The port of the dashboard, which listens on this machine only.
pub const DASHBOARD_PORT: u16 = 19527;

/// Whether a small-lettered host is `name`, with or without a port.
pub open spec fn is_host(host: Seq<char>, name: Seq<char>, name_and_colon: Seq<char>) -> bool {
    host == name || begins_with(host, name_and_colon)
}

/// Whether a host text names this machine.
pub open spec fn names_this_machine(host: Seq<char>) -> bool {
    let lower = ascii_lower(host);
    ||| is_host(lower, "127.0.0.1"@, "127.0.0.1:"@)
    ||| is_host(lower, "localhost"@, "localhost:"@)
    ||| is_host(lower, "[::1]"@, "[::1]:"@)
}

/// Whether a host text names this machine.
pub fn is_local_host(host: &str) -> (yes: bool)
    ensures
        yes == names_this_machine(host@),
{
    let lower = to_ascii_lower(host);
    let host = lower.as_str();
    starts_with(host, "127.0.0.1:") || same_text(host, "127.0.0.1") || starts_with(
        host,
        "localhost:",
    ) || same_text(host, "localhost") || starts_with(host, "[::1]:") || same_text(host, "[::1]")
}

/// Decides whether a request may reach the dashboard: its `Host` header has to
/// be readable and to name this machine.
pub fn local_host_only(
    headers: &axum::http::HeaderMap<axum::http::HeaderValue>,
) -> (verdict: Result<(), ApiError>)
    ensures
        verdict == match header_text_of(header_values(*headers), "host"@) {
            Some(host) => if names_this_machine(host) {
                Ok(())
            } else {
                Err(ApiError::NotLocal)
            },
            None => Err::<(), ApiError>(ApiError::NotLocal),
        },
{
    proof {
        reveal_strlit("host");
    }
    match header_text(headers, "host") {
        Some(host) => {
            if is_local_host(host.as_str()) {
                Ok(())
            } else {
                Err(ApiError::NotLocal)
            }
        },
        None => Err(ApiError::NotLocal),
    }
}

/// What the microphone server shows of itself.
pub struct WebStatus {
    pub running: bool,
    pub client_count: usize,
    pub telemetry: WebTelemetrySnapshot,
    pub urls: Vec<String>,
}

/// The figures of the native transports. Floating-point figures are given as
/// their bits.
#[derive(Clone, Copy, Debug)]
pub struct NativeStats {
    pub muted: bool,
    pub sample_rate: u32,
    pub bitrate: u32,
    pub jitter_bits: u64,
    pub latency_ms: i64,
    pub loss_rate_bits: u64,
}

/// The dashboard's status page. Floating-point figures are given as their bits.
pub struct DashboardStatus {
    pub online: bool,
    pub server_running: bool,
    pub muted: bool,
    pub monitoring: bool,
    pub web_client_count: usize,
    pub queued_samples: usize,
    pub sample_rate: u32,
    pub bitrate: u32,
    pub network_latency_ms: i64,
    pub jitter_bits: u64,
    pub packet_loss_bits: u64,
    pub audio_level: u32,
    pub web_dsp_active: bool,
    pub web_aec_supported: bool,
    pub phone_urls: Vec<String>,
}

/// Whether the microphone server is there and runs.
pub open spec fn is_web_running(web: Option<WebStatus>) -> bool {
    web matches Some(server) && server.running
}

/// Puts the status page together. Processing of the browser's stream follows
/// the microphone server: it is active exactly while the server runs.
///
/// Once there is a microphone server its figures are shown, otherwise those of
/// the native transports; the browser's transport loses no packets.
pub fn status(
    web_dsp: &mut WebDsp,
    web: Option<WebStatus>,
    native: NativeStats,
    monitoring: bool,
    queued_samples: usize,
) -> (page: DashboardStatus)
    ensures
        final(web_dsp)@ == is_web_running(web),
        page.online,
        page.server_running == is_web_running(web),
        page.muted == native.muted,
        page.monitoring == monitoring,
        page.queued_samples == queued_samples,
        page.network_latency_ms == native.latency_ms,
        page.packet_loss_bits == if is_web_running(web) {
            0
        } else {
            native.loss_rate_bits
        },
        page.web_dsp_active == is_web_running(web),
        !page.web_aec_supported,
        match web {
            Some(server) => {
                &&& page.web_client_count == server.client_count
                &&& page.sample_rate == if server.telemetry.sample_rate == 0 && server.running {
                    48000
                } else {
                    server.telemetry.sample_rate
                }
                &&& page.bitrate == server.telemetry.bitrate
                &&& page.jitter_bits == server.telemetry.jitter_bits
                &&& page.audio_level == server.telemetry.audio_level
                &&& page.phone_urls == server.urls
            },
            None => {
                &&& page.web_client_count == 0
                &&& page.sample_rate == native.sample_rate
                &&& page.bitrate == native.bitrate
                &&& page.jitter_bits == native.jitter_bits
                &&& page.audio_level == 0
                &&& page.phone_urls@.len() == 0
            },
        },
{
    match web {
        Some(server) => {
            set_web_dsp_active(web_dsp, server.running);
            let figures = server.telemetry;
            DashboardStatus {
                online: true,
                server_running: server.running,
                muted: native.muted,
                monitoring,
                web_client_count: server.client_count,
                queued_samples,
                sample_rate: if figures.sample_rate == 0 && server.running {
                    48000
                } else {
                    figures.sample_rate
                },
                bitrate: figures.bitrate,
                network_latency_ms: native.latency_ms,
                jitter_bits: figures.jitter_bits,
                packet_loss_bits: if server.running {
                    0
                } else {
                    native.loss_rate_bits
                },
                audio_level: figures.audio_level,
                web_dsp_active: web_dsp_active(web_dsp),
                web_aec_supported: false,
                phone_urls: server.urls,
            }
        },
        None => {
            set_web_dsp_active(web_dsp, false);
            DashboardStatus {
                online: true,
                server_running: false,
                muted: native.muted,
                monitoring,
                web_client_count: 0,
                queued_samples,
                sample_rate: native.sample_rate,
                bitrate: native.bitrate,
                network_latency_ms: native.latency_ms,
                jitter_bits: native.jitter_bits,
                packet_loss_bits: native.loss_rate_bits,
                audio_level: 0,
                web_dsp_active: web_dsp_active(web_dsp),
                web_aec_supported: false,
                phone_urls: Vec::new(),
            }
        },
    }
}

/// A QR code: its side length in modules, and the modules row by row, `true`
/// for a dark one.
pub struct QrSymbol {
    pub size: usize,
    pub modules: Vec<bool>,
}

/// What the dashboard shows for pairing.
pub struct PairingInfo {
    pub ready: bool,
    pub primary_url: String,
    pub urls: Vec<String>,
    pub qr_size: usize,
    pub qr_bits: Vec<bool>,
    pub self_signed_certificate: bool,
}

/// The QR code of some data, as side length and modules, or why there is none.
pub uninterp spec fn qr_code(data: Seq<u8>) -> Result<(nat, Seq<bool>), Seq<char>>;

/// Encodes data with `qrcode::QrCode::new` and takes the symbol's `width` and
/// `to_colors`; an error comes as the text it prints as.
///
/// The symbol depends on the data alone and is a square. Data of at most 512
/// bytes has one: the largest symbol has room for that many bytes even if each
/// is encoded by itself. Longer data is left out because the score by which the
/// encoder picks a mask is a sum of 16-bit numbers, which the largest symbols
/// can overflow.
#[verifier::external_body]
fn encode_qr(data: &[u8]) -> (symbol: Result<QrSymbol, String>)
    requires
        data@.len() <= 512,
    ensures
        match symbol {
            Ok(made) => qr_code(data@) == Ok::<(nat, Seq<bool>), Seq<char>>(
                (made.size as nat, made.modules@),
            ),
            Err(reason) => qr_code(data@) == Err::<(nat, Seq<bool>), Seq<char>>(reason@),
        },
        symbol matches Ok(made) ==> made.modules@.len() == made.size * made.size,
        symbol is Ok,
{
    let code = qrcode::QrCode::new(data).map_err(|error| error.to_string())?;
    let dark = |color| match color {
        qrcode::Color::Dark => true,
        qrcode::Color::Light => false,
    };
    let modules = code.to_colors().into_iter().map(dark).collect();
    Ok(QrSymbol { size: code.width(), modules })
}

/// What the dashboard shows for pairing, given the QR code of the first
/// address.
pub fn pairing_info(urls: Vec<String>, symbol: Result<QrSymbol, String>) -> (info: Result<
    PairingInfo,
    ApiError,
>)
    ensures
        urls@.len() == 0 || urls@[0]@.len() == 0 ==> info == Err::<PairingInfo, _>(
            ApiError::NotRunning,
        ),
        urls@.len() > 0 && urls@[0]@.len() > 0 ==> match symbol {
            Ok(code) => info == Ok::<_, ApiError>(
                PairingInfo {
                    ready: true,
                    primary_url: urls@[0],
                    urls,
                    qr_size: code.size,
                    qr_bits: code.modules,
                    self_signed_certificate: true,
                },
            ),
            Err(reason) => info == Err::<PairingInfo, _>(ApiError::QrCode(reason)),
        },
{
    if urls.len() == 0 || urls[0].as_str().is_empty() {
        return Err(ApiError::NotRunning);
    }
    match symbol {
        Ok(code) => Ok(
            PairingInfo {
                ready: true,
                primary_url: urls[0].clone(),
                urls,
                qr_size: code.size,
                qr_bits: code.modules,
                self_signed_certificate: true,
            },
        ),
        Err(reason) => Err(ApiError::QrCode(reason)),
    }
}

/// Whether `url` is a pairing address that some server shows.
pub open spec fn is_server_address(url: Seq<char>) -> bool {
    exists|port: u16, token: Seq<char>|
        is_pairing_token(token) && #[trigger] is_pairing_url(url, port, token)
}

/// Whether the first of `urls`, if there is one, is short enough for a QR code.
pub open spec fn first_is_short(urls: Seq<String>) -> bool {
    urls.len() > 0 ==> encode_utf8(urls[0]@).len() <= 512
}

/// Answers a request for the pairing code, given the server's pairing addresses
/// if it runs. The code shows the first of them. [`pairing_address_fits_qr_code`]
/// says that a server's own addresses are short enough.
pub fn pairing(running_urls: Option<Vec<String>>) -> (info: Result<PairingInfo, ApiError>)
    requires
        running_urls matches Some(urls) ==> first_is_short(urls@),
    ensures
        match running_urls {
            None => info == Err::<PairingInfo, _>(ApiError::NotRunning),
            Some(urls) => {
                &&& urls@.len() == 0 || urls@[0]@.len() == 0 ==> info == Err::<PairingInfo, _>(
                    ApiError::NotRunning,
                )
                &&& urls@.len() > 0 && urls@[0]@.len() > 0 ==> (info matches Ok(shown) && {
                    &&& shown.ready && shown.self_signed_certificate
                    &&& shown.primary_url == urls@[0]
                    &&& shown.urls == urls
                    &&& qr_code(encode_utf8(urls@[0]@)) == Ok::<(nat, Seq<bool>), Seq<char>>(
                        (shown.qr_size as nat, shown.qr_bits@),
                    )
                    &&& shown.qr_bits@.len() == shown.qr_size * shown.qr_size
                })
            },
        },
{
    match running_urls {
        None => Err(ApiError::NotRunning),
        Some(urls) => {
            if urls.len() == 0 || urls[0].as_str().is_empty() {
                return Err(ApiError::NotRunning);
            }
            let symbol = encode_qr(urls[0].as_str().as_bytes());
            pairing_info(urls, symbol)
        },
    }
}

/// A pairing address is not empty, and shorter than what a QR code is certain to
/// hold.
pub proof fn pairing_address_fits_qr_code(url: Seq<char>)
    requires
        is_server_address(url),
    ensures
        0 < url.len(),
        encode_utf8(url).len() <= 512,
{
    let (port, token) = choose|port: u16, token: Seq<char>|
        is_pairing_token(token) && #[trigger] is_pairing_url(url, port, token);
    lemma_pairing_url_is_short(url, port, token);
}

/// A pairing address is short and of ASCII characters.
#[verifier::spinoff_prover]
proof fn lemma_pairing_url_is_short(url: Seq<char>, port: u16, token: Seq<char>)
    requires
        is_pairing_url(url, port, token),
        is_pairing_token(token),
    ensures
        0 < url.len(),
        encode_utf8(url).len() <= 512,
{
    let ip = choose|ip: Seq<char>| #[trigger]
        is_ipv4_text(ip) && url == pairing_url_text(ip, port, token);
    let number = decimal(port as nat);
    lemma_address_is_short(ip);
    lemma_token_is_short(token);
    lemma_decimal_text(port as nat);
    reveal_strlit("https://");
    reveal_strlit(":");
    reveal_strlit("/?token=");
    let host = "https://"@ + ip;
    let host_port = host + ":"@ + number;
    assert(is_ascii_chars(host));
    assert(is_ascii_chars(host_port));
    assert(url == host_port + "/?token="@ + token);
    assert(is_ascii_chars(url));
    is_ascii_chars_encode_utf8(url);
}

/// An IPv4 address is short and of ASCII characters.
proof fn lemma_address_is_short(ip: Seq<char>)
    requires
        is_ipv4_text(ip),
    ensures
        1 <= ip.len() <= 23,
        is_ascii_chars(ip),
{
    let (a, b, c, d) = choose|a: u8, b: u8, c: u8, d: u8|
        ip == #[trigger] ipv4_text(a, b, c, d);
    lemma_decimal_text(a as nat);
    lemma_decimal_text(b as nat);
    lemma_decimal_text(c as nat);
    lemma_decimal_text(d as nat);
}

/// A pairing token is short and of ASCII characters.
proof fn lemma_token_is_short(token: Seq<char>)
    requires
        is_pairing_token(token),
    ensures
        token.len() == 48,
        is_ascii_chars(token),
{
    let bytes = choose|bytes: Seq<u8>| bytes.len() == 24 && token == #[trigger] hex(bytes);
    assert forall|i: int| 0 <= i < token.len() implies token[i] as nat <= 127 by {}
}

/// The decimal form of a number below 100000 is short and of ASCII characters.
proof fn lemma_decimal_text(number: nat)
    requires
        number < 100000,
    ensures
        1 <= decimal(number).len() <= 5,
        is_ascii_chars(decimal(number)),
{
    reveal_with_fuel(decimal, 6);
}

/// A host names this machine exactly if, in small letters, it is `127.0.0.1`,
/// `localhost` or `[::1]`, alone or followed by a `:` and anything.
pub proof fn local_host_is_a_name_and_a_port(host: Seq<char>)
    ensures
        names_this_machine(host) <==> {
            let lower = ascii_lower(host);
            ||| lower == "127.0.0.1"@
            ||| lower == "localhost"@
            ||| lower == "[::1]"@
            ||| exists|port: Seq<char>| lower == #[trigger] ("127.0.0.1:"@ + port)
            ||| exists|port: Seq<char>| lower == #[trigger] ("localhost:"@ + port)
            ||| exists|port: Seq<char>| lower == #[trigger] ("[::1]:"@ + port)
        },
{
    let lower = ascii_lower(host);
    crate::text::beginning_leaves_a_rest(lower, "127.0.0.1:"@);
    crate::text::beginning_leaves_a_rest(lower, "localhost:"@);
    crate::text::beginning_leaves_a_rest(lower, "[::1]:"@);
}

/// The microphone server runs exactly if there is one and it says so.
pub proof fn server_runs_if_it_says_so(server: WebStatus)
    ensures
        is_web_running(Some(server)) <==> server.running,
        !is_web_running(None),
{
}

} // verus!
