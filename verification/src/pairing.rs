//! Who may use the microphone server: pairing tokens, the phone page and the
//! admission of WebSocket connections.

use crate::cookie::cookie_safe;
use crate::cookie::find_pairing_value;
use crate::cookie::pairing_cookie;
use crate::cookie::pairing_value;
use crate::cookie::set_cookie_text;
use crate::headers::header_text;
use crate::headers::header_text_of;
use crate::headers::header_values;
use crate::lan::are_machine_addresses;
use crate::lan::get_lan_ips;
use crate::lan::is_ipv4_text;
use crate::lan::selects;
use crate::lan::usable;
use crate::lan::InterfaceAddress;
use crate::text::ascii_lower;
use crate::text::contains;
use crate::text::decimal;
use crate::text::has_part;
use crate::text::hex;
use crate::text::same_text;
use crate::text::small_letter;
use crate::text::texts;
use crate::text::to_decimal;
use crate::text::to_hex;
use vstd::prelude::*;
use vstd::string::StringExecFns;

verus! {

/// Fills a token's worth of bytes with `rand::rngs::OsRng.fill_bytes`, the
/// operating system's random number generator. Nothing is promised of the
/// bytes. The call stops the program if the system has no randomness to give.
#[verifier::external_body]
fn random_bytes() -> (bytes: [u8; 24]) {
    let mut bytes = [0u8; 24];
    rand::RngCore::fill_bytes(&mut rand::rngs::OsRng, &mut bytes);
    bytes
}

/// The pairing token of 24 random bytes.
pub fn pairing_token_of(bytes: &[u8; 24]) -> (token: String)
    ensures
        token@ == hex(bytes@),
{
    to_hex(bytes.as_slice())
}

/// Whether `token` is the form of 24 bytes.
pub open spec fn is_pairing_token(token: Seq<char>) -> bool {
    exists|bytes: Seq<u8>| bytes.len() == 24 && token == #[trigger] hex(bytes)
}

/// Whether `bytes` are what the system's randomness gave.
pub closed spec fn drawn(bytes: [u8; 24]) -> bool {
    call_ensures(random_bytes, (), bytes)
}

/// Whether `token` is the form of bytes that the system's randomness gave.
pub open spec fn is_drawn_token(token: Seq<char>) -> bool {
    exists|bytes: [u8; 24]| #[trigger] drawn(bytes) && token == hex(bytes@)
}

/// A fresh pairing token: 24 bytes of the system's randomness in hexadecimal.
pub fn generate_pairing_token() -> (token: String)
    ensures
        is_drawn_token(token@),
        is_pairing_token(token@),
        token@.len() == 48,
{
    let bytes = random_bytes();
    assert(drawn(bytes));
    pairing_token_of(&bytes)
}

/// A pairing token can travel in a cookie.
pub proof fn pairing_token_is_cookie_safe(token: Seq<char>)
    requires
        is_pairing_token(token),
    ensures
        cookie_safe(token),
{
    let bytes = choose|bytes: Seq<u8>| bytes.len() == 24 && token == #[trigger] hex(bytes);
    assert forall|i: int| 0 <= i < token.len() implies token[i] != ';' && !crate::cookie::blank(
        token[i],
    ) by {}
    if token.contains(';') {
        let i = choose|i: int| 0 <= i < token.len() && token[i] == ';';
    }
}

/// The text of the `Cookie` header, if there is a readable one.
pub open spec fn cookie_header(values: Map<Seq<char>, Seq<u8>>) -> Option<Seq<char>> {
    header_text_of(values, "cookie"@)
}

/// The token that a request's cookie presents.
pub open spec fn presented_token(values: Map<Seq<char>, Seq<u8>>) -> Option<Seq<char>> {
    match cookie_header(values) {
        Some(text) => pairing_value(text),
        None => None,
    }
}

/// Whether a request's cookie presents `token`.
pub open spec fn paired(values: Map<Seq<char>, Seq<u8>>, token: Seq<char>) -> bool {
    presented_token(values) == Some(token)
}

/// The token that a request's cookie presents.
pub fn cookie_token(
    headers: &axum::http::HeaderMap<axum::http::HeaderValue>,
) -> (token: Option<String>)
    ensures
        match token {
            Some(s) => presented_token(header_values(*headers)) == Some(s@),
            None => presented_token(header_values(*headers)) is None,
        },
{
    proof {
        reveal_strlit("cookie");
    }
    match header_text(headers, "cookie") {
        None => None,
        Some(text) => find_pairing_value(text.as_str()),
    }
}

/// Whether a request's cookie presents `token`.
pub fn is_paired(
    headers: &axum::http::HeaderMap<axum::http::HeaderValue>,
    token: &str,
) -> (yes: bool)
    ensures
        yes == paired(header_values(*headers), token@),
{
    match cookie_token(headers) {
        None => false,
        Some(value) => same_text(value.as_str(), token),
    }
}

/// What the phone page answers a visit with.
pub enum PageReply {
    /// Status 401 and the page that asks for pairing.
    Unpaired,
    /// The microphone page; a visit with the right token also gets the cookie.
    Page { set_cookie: Option<String> },
}

/// Whether a visit carries the pairing token in its query.
pub open spec fn query_pairs(query_token: Option<&str>, token: Seq<char>) -> bool {
    query_token matches Some(text) && text@ == token
}

/// Answers a visit of the phone page.
pub fn serve_html(
    headers: &axum::http::HeaderMap<axum::http::HeaderValue>,
    query_token: Option<&str>,
    pairing_token: &str,
) -> (reply: PageReply)
    ensures
        match reply {
            PageReply::Unpaired => !query_pairs(query_token, pairing_token@) && !paired(
                header_values(*headers),
                pairing_token@,
            ),
            PageReply::Page { set_cookie: Some(cookie) } => query_pairs(
                query_token,
                pairing_token@,
            ) && cookie@ == set_cookie_text(pairing_token@),
            PageReply::Page { set_cookie: None } => !query_pairs(query_token, pairing_token@)
                && paired(header_values(*headers), pairing_token@),
        },
{
    let query_ok = match query_token {
        Some(text) => same_text(text, pairing_token),
        None => false,
    };
    if query_ok {
        return PageReply::Page { set_cookie: Some(pairing_cookie(pairing_token)) };
    }
    if is_paired(headers, pairing_token) {
        PageReply::Page { set_cookie: None }
    } else {
        PageReply::Unpaired
    }
}

/// The small-letter form that `str::to_lowercase` gives a text.
pub uninterp spec fn lowercase(text: Seq<char>) -> Seq<char>;

/// Makes a text small-lettered with `str::to_lowercase`, by the Unicode rules.
/// The result depends on the text alone; a text of ASCII characters only has
/// its capital letters replaced.
#[verifier::external_body]
fn to_lowercase(text: &str) -> (lower: String)
    ensures
        lower@ == lowercase(text@),
        text.is_ascii() ==> lower@ == ascii_lower(text@),
{
    text.to_lowercase()
}

/// Whether a small-lettered origin names this machine itself.
pub open spec fn names_localhost(origin: Seq<char>) -> bool {
    has_part(origin, "localhost"@) || has_part(origin, "127.0.0.1"@)
}

/// Whether a small-lettered origin names this machine or one of its addresses.
pub open spec fn names_host(origin: Seq<char>, ips: Seq<Seq<char>>) -> bool {
    names_localhost(origin) || exists|i: int| 0 <= i < ips.len() && has_part(origin, #[trigger] ips[i])
}

/// Whether a small-lettered origin holds an IPv4 address at all.
pub open spec fn names_address(origin: Seq<char>) -> bool {
    exists|ip: Seq<char>| #[trigger] is_ipv4_text(ip) && has_part(origin, ip)
}

/// Whether a small-lettered origin names this machine itself.
fn is_localhost(origin: &str) -> (yes: bool)
    ensures
        yes == names_localhost(origin@),
{
    contains(origin, "localhost") || contains(origin, "127.0.0.1")
}

/// Whether one of `ips` stands in a small-lettered origin.
fn has_any_ip(origin: &str, ips: &Vec<String>) -> (yes: bool)
    ensures
        yes == exists|i: int| 0 <= i < ips@.len() && has_part(origin@, #[trigger] texts(ips@)[i]),
{
    for i in 0..ips.len()
        invariant
            forall|j: int| 0 <= j < i ==> !has_part(origin@, #[trigger] texts(ips@)[j]),
    {
        assert(texts(ips@)[i as int] == ips@[i as int]@);
        if contains(origin, ips[i].as_str()) {
            return true;
        }
    }
    false
}

/// Whether a small-lettered origin names this machine or one of `ips`.
pub fn origin_names_host(origin: &str, ips: &Vec<String>) -> (yes: bool)
    ensures
        yes == names_host(origin@, texts(ips@)),
{
    is_localhost(origin) || has_any_ip(origin, ips)
}

/// Whether a WebSocket request may come from `origin`: from nowhere in
/// particular, from this machine, or from one of its local addresses.
pub fn is_valid_origin(origin: Option<&str>) -> (yes: bool)
    ensures
        origin is None ==> yes,
        origin matches Some(text) ==> {
            &&& text.is_ascii() ==> lowercase(text@) == ascii_lower(text@)
            &&& names_localhost(lowercase(text@)) ==> yes
            &&& yes ==> names_localhost(lowercase(text@)) || names_address(lowercase(text@))
            &&& !names_localhost(lowercase(text@)) ==> exists|ips: Seq<Seq<char>>| #[trigger]
                are_machine_addresses(ips) && yes == names_host(lowercase(text@), ips)
        },
{
    match origin {
        None => true,
        Some(text) => {
            let lower = to_lowercase(text);
            if is_localhost(lower.as_str()) {
                return true;
            }
            let ips = get_lan_ips();
            let yes = origin_names_host(lower.as_str(), &ips);
            proof {
                assert(are_machine_addresses(texts(ips@)));
                if yes {
                    let i = choose|i: int|
                        0 <= i < texts(ips@).len() && has_part(lower@, #[trigger] texts(ips@)[i]);
                    assert(is_ipv4_text(ips@[i]@));
                    assert(has_part(lowercase(text@), ips@[i]@));
                }
            }
            yes
        },
    }
}

/// Why a WebSocket request is turned away.
#[derive(Clone, Copy, Debug, PartialEq, Eq, Structural)]
pub enum WebSocketRejection {
    InvalidOrigin,
    PairingRequired,
    TooManyConnections,
}

impl WebSocketRejection {
    /// The status code of the rejection.
    pub open spec fn status_code(self) -> u16 {
        match self {
            WebSocketRejection::InvalidOrigin => 403,
            WebSocketRejection::PairingRequired => 401,
            WebSocketRejection::TooManyConnections => 503,
        }
    }

    /// The body of the rejection.
    pub open spec fn body(self) -> Seq<char> {
        match self {
            WebSocketRejection::InvalidOrigin => "Invalid origin"@,
            WebSocketRejection::PairingRequired => "Pairing required"@,
            WebSocketRejection::TooManyConnections => "Too many WebSocket connections"@,
        }
    }

    /// The status code to answer with.
    pub fn status(&self) -> (code: u16)
        ensures
            code == self.status_code(),
    {
        match self {
            WebSocketRejection::InvalidOrigin => 403,
            WebSocketRejection::PairingRequired => 401,
            WebSocketRejection::TooManyConnections => 503,
        }
    }

    /// The body to answer with.
    pub fn message(&self) -> (text: &'static str)
        ensures
            text@ == self.body(),
    {
        match self {
            WebSocketRejection::InvalidOrigin => "Invalid origin",
            WebSocketRejection::PairingRequired => "Pairing required",
            WebSocketRejection::TooManyConnections => "Too many WebSocket connections",
        }
    }
}

/// How many WebSocket connections the server holds at a time.
pub const MAX_WEBSOCKET_CONNECTIONS: usize = 8;

/// Decides on a WebSocket request, given what its origin and its cookie show:
/// the origin is looked at first.
pub fn websocket_verdict(origin_valid: bool, is_paired: bool) -> (verdict: Result<
    (),
    WebSocketRejection,
>)
    ensures
        verdict == if !origin_valid {
            Err::<(), _>(WebSocketRejection::InvalidOrigin)
        } else if !is_paired {
            Err(WebSocketRejection::PairingRequired)
        } else {
            Ok(())
        },
{
    if !origin_valid {
        return Err(WebSocketRejection::InvalidOrigin);
    }
    if !is_paired {
        return Err(WebSocketRejection::PairingRequired);
    }
    Ok(())
}

/// Decides whether a WebSocket request may go on to claim a connection slot.
///
/// Which origins are local depends on the machine's network. Whatever they
/// are, no request without the pairing cookie is admitted.
pub fn handle_websocket(
    headers: &axum::http::HeaderMap<axum::http::HeaderValue>,
    pairing_token: &str,
) -> (verdict: Result<(), WebSocketRejection>)
    ensures
        verdict is Ok ==> paired(header_values(*headers), pairing_token@),
        verdict is Err ==> {
            ||| verdict == Err::<(), _>(WebSocketRejection::InvalidOrigin)
            ||| verdict == Err::<(), _>(WebSocketRejection::PairingRequired) && !paired(
                header_values(*headers),
                pairing_token@,
            )
        },
        match header_text_of(header_values(*headers), "origin"@) {
            None => verdict is Ok == paired(header_values(*headers), pairing_token@) && verdict
                != Err::<(), _>(WebSocketRejection::InvalidOrigin),
            Some(origin) => {
                &&& names_localhost(ascii_lower(origin)) ==> verdict is Ok == paired(
                    header_values(*headers),
                    pairing_token@,
                ) && verdict != Err::<(), _>(WebSocketRejection::InvalidOrigin)
                &&& !names_localhost(ascii_lower(origin)) && !names_address(ascii_lower(origin))
                    ==> verdict == Err::<(), _>(WebSocketRejection::InvalidOrigin)
                &&& !names_localhost(ascii_lower(origin)) ==> exists|ips: Seq<Seq<char>>| #[trigger]
                    are_machine_addresses(ips) && verdict == if !names_host(
                        ascii_lower(origin),
                        ips,
                    ) {
                        Err::<(), _>(WebSocketRejection::InvalidOrigin)
                    } else if !paired(header_values(*headers), pairing_token@) {
                        Err(WebSocketRejection::PairingRequired)
                    } else {
                        Ok(())
                    }
            },
        },
{
    proof {
        reveal_strlit("origin");
    }
    let origin_valid = match header_text(headers, "origin") {
        None => is_valid_origin(None),
        Some(origin) => is_valid_origin(Some(origin.as_str())),
    };
    websocket_verdict(origin_valid, is_paired(headers, pairing_token))
}

/// Decides on an admitted request once it has tried to claim one of the
/// connection slots.
pub fn claim_slot(claimed: bool) -> (verdict: Result<(), WebSocketRejection>)
    ensures
        verdict == if claimed {
            Ok::<(), WebSocketRejection>(())
        } else {
            Err(WebSocketRejection::TooManyConnections)
        },
{
    if claimed {
        Ok(())
    } else {
        Err(WebSocketRejection::TooManyConnections)
    }
}

/// The address a phone opens to pair: the phone page over HTTPS, with the
/// token in its query.
pub open spec fn pairing_url_text(ip: Seq<char>, port: u16, token: Seq<char>) -> Seq<char> {
    "https://"@ + ip + ":"@ + decimal(port as nat) + "/?token="@ + token
}

/// Whether `url` is the pairing address on some IPv4 address.
pub open spec fn is_pairing_url(url: Seq<char>, port: u16, token: Seq<char>) -> bool {
    exists|ip: Seq<char>| #[trigger] is_ipv4_text(ip) && url == pairing_url_text(ip, port, token)
}

/// The pairing address on `ip`.
fn pairing_url(ip: &str, port: u16, token: &str) -> (url: String)
    ensures
        url@ == pairing_url_text(ip@, port, token@),
{
    let mut url = String::new();
    url.append("https://");
    url.append(ip);
    url.append(":");
    url.append(to_decimal(port as u64).as_str());
    url.append("/?token=");
    url.append(token);
    assert(url@ =~= pairing_url_text(ip@, port, token@));
    url
}

/// The pairing addresses on each of `ips`, in the same order.
pub fn pairing_urls_for(ips: &Vec<String>, port: u16, token: &str) -> (urls: Vec<String>)
    ensures
        urls@.len() == ips@.len(),
        forall|i: int|
            0 <= i < ips@.len() ==> (#[trigger] urls@[i])@ == pairing_url_text(
                ips@[i]@,
                port,
                token@,
            ),
{
    let mut urls: Vec<String> = Vec::new();
    for i in 0..ips.len()
        invariant
            urls@.len() == i,
            forall|j: int|
                0 <= j < i ==> (#[trigger] urls@[j])@ == pairing_url_text(ips@[j]@, port, token@),
    {
        urls.push(pairing_url(ips[i].as_str(), port, token));
    }
    urls
}

/// The address of the phone page, without a token.
pub open spec fn phone_url_text(ip: Seq<char>, port: u16) -> Seq<char> {
    "https://"@ + ip + ":"@ + decimal(port as nat) + "/"@
}

/// The address of the phone page on `ip`.
fn phone_url(ip: &str, port: u16) -> (url: String)
    ensures
        url@ == phone_url_text(ip@, port),
{
    let mut url = String::new();
    url.append("https://");
    url.append(ip);
    url.append(":");
    url.append(to_decimal(port as u64).as_str());
    url.append("/");
    assert(url@ =~= phone_url_text(ip@, port));
    url
}

/// The addresses of the phone page on each of `ips`, in the same order.
pub fn phone_urls_for(ips: &Vec<String>, port: u16) -> (urls: Vec<String>)
    ensures
        texts(urls@) == texts(ips@).map_values(|ip: Seq<char>| phone_url_text(ip, port)),
{
    let mut urls: Vec<String> = Vec::new();
    for i in 0..ips.len()
        invariant
            urls@.len() == i,
            forall|j: int|
                0 <= j < i ==> (#[trigger] urls@[j])@ == phone_url_text(ips@[j]@, port),
    {
        urls.push(phone_url(ips[i].as_str(), port));
    }
    assert(texts(urls@) =~= texts(ips@).map_values(|ip: Seq<char>| phone_url_text(ip, port)));
    urls
}

/// The page that a phone opened at a pairing address may open the WebSocket: its
/// origin names the address, whatever the port.
pub proof fn pairing_origin_names_host(ip: Seq<char>, port: u16, ips: Seq<Seq<char>>)
    requires
        is_ipv4_text(ip),
        ips.contains(ip),
    ensures
        names_host(ascii_lower("https://"@ + ip + ":"@ + decimal(port as nat)), ips),
{
    reveal_strlit("https://");
    reveal_strlit(":");
    let origin = "https://"@ + ip + ":"@ + decimal(port as nat);
    let lower = ascii_lower(origin);
    let (a, b, c, d) = choose|a: u8, b: u8, c: u8, d: u8|
        ip == #[trigger] crate::lan::ipv4_text(a, b, c, d);
    lemma_decimal_is_small(a as nat);
    lemma_decimal_is_small(b as nat);
    lemma_decimal_is_small(c as nat);
    lemma_decimal_is_small(d as nat);
    assert forall|i: int| 0 <= i < ip.len() implies small_letter(ip[i]) == ip[i] by {}
    assert(lower.subrange(8, 8 + ip.len() as int) =~= ip) by {
        assert forall|i: int| 0 <= i < ip.len() implies lower[8 + i] == ip[i] by {
            assert(origin[8 + i] == ip[i]);
        }
    }
    assert(crate::text::occurs_at(lower, ip, 8));
    let k = choose|k: int| 0 <= k < ips.len() && ips[k] == ip;
    assert(has_part(lower, ips[k]));
}

/// An origin without a digit names no address, so that only the name of this
/// machine itself lets it in.
pub proof fn wordy_origin_names_no_address(origin: Seq<char>)
    requires
        forall|i: int| 0 <= i < origin.len() ==> !('0' <= #[trigger] origin[i] && origin[i] <= '9'),
    ensures
        !names_address(origin),
{
    if names_address(origin) {
        let ip = choose|ip: Seq<char>| #[trigger] is_ipv4_text(ip) && has_part(origin, ip);
        let at = choose|at: int| crate::text::occurs_at(origin, ip, at);
        let (a, b, c, d) = choose|a: u8, b: u8, c: u8, d: u8|
            ip == #[trigger] crate::lan::ipv4_text(a, b, c, d);
        lemma_decimal_is_small(a as nat);
        assert(decimal(a as nat).len() > 0);
        assert(ip[0] == decimal(a as nat)[0]);
        assert(origin.subrange(at, at + ip.len())[0] == origin[at]);
    }
}

/// The decimal form of a number is of digits.
proof fn lemma_decimal_is_small(number: nat)
    ensures
        forall|i: int|
            0 <= i < decimal(number).len() ==> '0' <= #[trigger] decimal(number)[i]
                && decimal(number)[i] <= '9',
    decreases number,
{
    if number >= 10 {
        lemma_decimal_is_small(number / 10);
        let front = decimal(number / 10);
        assert forall|i: int| 0 <= i < decimal(number).len() implies '0' <= #[trigger] decimal(
            number,
        )[i] && decimal(number)[i] <= '9' by {
            if i < front.len() {
                assert(decimal(number)[i] == front[i]);
            }
        }
    }
}

/// A cookie from another server instance does not pair: a request presents one
/// token, so it is paired with at most one.
pub proof fn old_cookie_is_rejected(values: Map<Seq<char>, Seq<u8>>, old_token: Seq<char>, new_token: Seq<char>)
    requires
        paired(values, old_token),
        old_token != new_token,
    ensures
        !paired(values, new_token),
{
}

/// A phone that opened the pairing address stays paired: the cookie it received
/// with the page, sent back alone, presents the token.
pub proof fn paired_visit_stays_paired(
    token: Seq<char>,
    values: Map<Seq<char>, Seq<u8>>,
)
    requires
        is_pairing_token(token),
        cookie_header(values) == Some(crate::cookie::pieces(set_cookie_text(token), ';')[0]),
    ensures
        paired(values, token),
{
    pairing_token_is_cookie_safe(token);
    let nothing = Seq::<char>::empty();
    lemma_no_foreign_cookie();
    crate::cookie::pairing_cookie_round_trip(token, nothing, nothing);
}

/// The empty text holds no pairing cookie.
proof fn lemma_no_foreign_cookie()
    ensures
        forall|i: int|
            0 <= i < crate::cookie::pieces(Seq::<char>::empty(), ';').len() ==> crate::cookie::key(
                crate::cookie::trim(
                    #[trigger] crate::cookie::pieces(Seq::<char>::empty(), ';')[i],
                ),
            ) != crate::cookie::cookie_name(),
{
    reveal_strlit("micyou_pair");
    let nothing = Seq::<char>::empty();
    assert(crate::cookie::pieces(nothing, ';') == seq![nothing]);
    assert(crate::cookie::trim(nothing) == nothing);
    assert(crate::cookie::key(nothing).len() == 0);
}

/// An origin names this machine exactly if `localhost`, `127.0.0.1` or one of the
/// addresses stands somewhere in it.
pub proof fn host_stands_in_origin(origin: Seq<char>, ips: Seq<Seq<char>>)
    ensures
        names_host(origin, ips) <==> {
            ||| exists|before: Seq<char>, after: Seq<char>|
                origin == #[trigger] (before + "localhost"@ + after)
            ||| exists|before: Seq<char>, after: Seq<char>|
                origin == #[trigger] (before + "127.0.0.1"@ + after)
            ||| exists|i: int, before: Seq<char>, after: Seq<char>|
                0 <= i < ips.len() && origin == #[trigger] (before + ips[i] + after)
        },
        names_localhost(origin) <==> {
            ||| exists|before: Seq<char>, after: Seq<char>|
                origin == #[trigger] (before + "localhost"@ + after)
            ||| exists|before: Seq<char>, after: Seq<char>|
                origin == #[trigger] (before + "127.0.0.1"@ + after)
        },
{
    crate::text::part_stands_between(origin, "localhost"@);
    crate::text::part_stands_between(origin, "127.0.0.1"@);
    if exists|i: int| 0 <= i < ips.len() && has_part(origin, #[trigger] ips[i]) {
        let i = choose|i: int| 0 <= i < ips.len() && has_part(origin, #[trigger] ips[i]);
        crate::text::part_stands_between(origin, ips[i]);
        let (before, after) = choose|before: Seq<char>, after: Seq<char>|
            origin == #[trigger] (before + ips[i] + after);
    }
    if exists|i: int, before: Seq<char>, after: Seq<char>|
        0 <= i < ips.len() && origin == #[trigger] (before + ips[i] + after) {
        let (i, before, after) = choose|i: int, before: Seq<char>, after: Seq<char>|
            0 <= i < ips.len() && origin == #[trigger] (before + ips[i] + after);
        crate::text::part_stands_between(origin, ips[i]);
    }
}

/// A phone that opened the page on a usable address of the machine's listing is let
/// in: its origin names the host, whatever stands around the address.
pub proof fn phone_on_listed_address_is_let_in(
    ips: Seq<Seq<char>>,
    listing: Option<Vec<InterfaceAddress>>,
    i: int,
    before: Seq<char>,
    after: Seq<char>,
)
    requires
        selects(ips, listing),
        listing is Some,
        0 <= i < listing->0@.len(),
        usable(listing->0@[i]),
    ensures
        names_host(before + listing->0@[i].address@ + after, ips),
{
    crate::lan::usable_addresses_are_selected(ips, listing, i);
    let k = choose|k: int| 0 <= k < ips.len() && #[trigger] ips[k] == listing->0@[i].address@;
    let origin = before + listing->0@[i].address@ + after;
    host_stands_in_origin(origin, ips);
    assert(origin == before + ips[k] + after);
}

/// An origin that names neither this machine itself nor a usable address of the
/// listing is kept out.
pub proof fn unlisted_origin_is_kept_out(
    origin: Seq<char>,
    ips: Seq<Seq<char>>,
    listing: Option<Vec<InterfaceAddress>>,
)
    requires
        selects(ips, listing),
        !names_localhost(origin),
        listing matches Some(found) ==> forall|i: int, before: Seq<char>, after: Seq<char>|
            0 <= i < found@.len() && usable(found@[i]) ==> origin != #[trigger] (before
                + found@[i].address@ + after),
    ensures
        !names_host(origin, ips),
{
    host_stands_in_origin(origin, ips);
    if names_host(origin, ips) {
        let (k, before, after) = choose|k: int, before: Seq<char>, after: Seq<char>|
            0 <= k < ips.len() && origin == #[trigger] (before + ips[k] + after);
        crate::lan::selected_addresses_are_usable(ips, listing, k);
        let i = choose|i: int|
            0 <= i < listing->0@.len() && usable(#[trigger] listing->0@[i])
                && listing->0@[i].address@ == ips[k];
        assert(origin == before + listing->0@[i].address@ + after);
    }
}

/// A paired request has sent the token in its `Cookie` header, under the pairing
/// cookie's name.
pub proof fn paired_request_sent_the_token(values: Map<Seq<char>, Seq<u8>>, token: Seq<char>)
    requires
        paired(values, token),
    ensures
        values.contains_key("cookie"@),
        exists|before: Seq<char>, after: Seq<char>|
            is_bytes_of(
                #[trigger] (before + ("micyou_pair="@ + token) + after),
                values["cookie"@],
            ),
{
    let sent = values["cookie"@];
    crate::headers::readable_value_is_its_bytes(sent);
    let text = cookie_header(values).unwrap();
    crate::cookie::found_value_stands_in_header(text, token);
    let (before, after) = choose|before: Seq<char>, after: Seq<char>|
        text == #[trigger] (before + ("micyou_pair="@ + token) + after);
    assert(is_bytes_of(before + ("micyou_pair="@ + token) + after, sent));
}

/// Whether `bytes` are the characters of `text`, one by one.
pub open spec fn is_bytes_of(text: Seq<char>, bytes: Seq<u8>) -> bool {
    text.len() == bytes.len() && forall|i: int|
        0 <= i < text.len() ==> #[trigger] text[i] as int == bytes[i]
}

/// A pairing token is 48 small-letter hexadecimal digits.
pub proof fn pairing_token_is_of_digits(token: Seq<char>, i: int)
    requires
        is_pairing_token(token),
        0 <= i < token.len(),
    ensures
        token.len() == 48,
        48 <= token[i] as int <= 57 || 97 <= token[i] as int <= 102,
{
    let bytes = choose|bytes: Seq<u8>| bytes.len() == 24 && token == #[trigger] hex(bytes);
    crate::text::hex_reads_back(bytes, i / 2);
    assert(2 * (i / 2) == i || 2 * (i / 2) + 1 == i);
}

/// The addresses of a phone page and of pairing name the host and the port; the
/// pairing address is that of the page followed by the token.
pub proof fn pairing_address_is_page_and_token(ip: Seq<char>, port: u16, token: Seq<char>)
    ensures
        pairing_url_text(ip, port, token) == phone_url_text(ip, port) + "?token="@ + token,
        exists|number: Seq<char>|
            crate::text::number_of(number) == port && phone_url_text(ip, port) == #[trigger] (
            "https://"@ + ip + ":"@ + number + "/"@),
{
    reveal_strlit("/?token=");
    reveal_strlit("?token=");
    reveal_strlit("/");
    crate::text::decimal_reads_back(port as nat);
    assert("/?token="@ =~= "/"@ + "?token="@);
    assert(pairing_url_text(ip, port, token) =~= phone_url_text(ip, port) + "?token="@ + token);
    assert(phone_url_text(ip, port) == "https://"@ + ip + ":"@ + decimal(port as nat) + "/"@);
}

} // verus!
