//! The TLS configuration that the microphone server listens with.

use crate::cert::chain_bytes;
use crate::cert::key_bytes;
use crate::cert::pem_certificates;
use crate::cert::pem_private_key;
use crate::cert::readable;
use crate::cert::tls_identity;
use crate::cert::GeneratedCert;
use crate::text::joined;
use vstd::prelude::*;
use vstd::utf8::encode_utf8;

verus! {

/// `rustls::ServerConfig`, how a server does TLS.
#[verifier::external_type_specification]
#[verifier::external_body]
pub struct ExServerConfig(rustls::ServerConfig);

/// `rustls::Error`, what is wrong with a configuration.
#[verifier::external_type_specification]
#[verifier::external_body]
pub struct ExRustlsError(rustls::Error);

/// The certificates that a server with this configuration shows.
pub uninterp spec fn shown_chain(config: rustls::ServerConfig) -> Seq<Seq<u8>>;

/// The private key that a server with this configuration signs with.
pub uninterp spec fn signing_key(config: rustls::ServerConfig) -> Seq<u8>;

/// The protocols that a server with this configuration offers, as they are
/// negotiated.
pub uninterp spec fn offered_protocols(config: rustls::ServerConfig) -> Seq<Seq<u8>>;

/// The text that an error prints as.
pub uninterp spec fn tls_error_text(error: rustls::Error) -> Seq<char>;

/// Makes a configuration with `rustls::ServerConfig::builder`,
/// `with_no_client_auth` and `with_single_cert`. It shows the given chain,
/// signs with the given key and offers no protocol yet.
///
/// Whether a key is taken is left unsaid: it has to be valid and to belong to
/// the first certificate, and loading it draws on the system's randomness. The
/// builder stops the program where no cryptography provider is chosen; the
/// `ring` feature of this crate's manifest chooses one.
#[verifier::external_body]
fn single_cert_config(
    chain: Vec<rustls::pki_types::CertificateDer<'static>>,
    key: rustls::pki_types::PrivateKeyDer<'static>,
) -> (config: Result<rustls::ServerConfig, rustls::Error>)
    ensures
        config matches Ok(made) ==> shown_chain(made) == chain_bytes(chain@),
        config matches Ok(made) ==> signing_key(made) == key_bytes(key),
        config matches Ok(made) ==> offered_protocols(made).len() == 0,
{
    rustls::ServerConfig::builder().with_no_client_auth().with_single_cert(chain, key)
}

/// Sets the `alpn_protocols` of a `rustls::ServerConfig`, and nothing else.
#[verifier::external_body]
fn offer_protocols(config: &mut rustls::ServerConfig, protocols: Vec<Vec<u8>>)
    ensures
        offered_protocols(*final(config)) == protocols@.map_values(|name: Vec<u8>| name@),
        shown_chain(*final(config)) == shown_chain(*old(config)),
        signing_key(*final(config)) == signing_key(*old(config)),
{
    config.alpn_protocols = protocols;
}

/// Prints a `rustls::Error` with its `Display` form, which depends on the error
/// alone.
#[verifier::external_body]
fn error_message(error: &rustls::Error) -> (text: String)
    ensures
        text@ == tls_error_text(*error),
{
    error.to_string()
}

/// Whether `message` reports that a configuration was refused.
pub open spec fn reports_refusal(message: Seq<char>) -> bool {
    exists|error: rustls::Error| message == "TLS config error: "@ + #[trigger] tls_error_text(error)
}

/// Whether `made` is what making a configuration with a chain and a key gave.
pub closed spec fn config_came(
    chain: Vec<rustls::pki_types::CertificateDer<'static>>,
    key: rustls::pki_types::PrivateKeyDer<'static>,
    made: Result<rustls::ServerConfig, rustls::Error>,
) -> bool {
    call_ensures(single_cert_config, (chain, key), made)
}

/// Whether `config` is a configuration that was made, offering HTTP/1.1 only, or
/// the report that it was refused.
pub open spec fn is_finished(
    made: Result<rustls::ServerConfig, rustls::Error>,
    config: Result<rustls::ServerConfig, String>,
) -> bool {
    match made {
        Ok(bare) => config matches Ok(done) && shown_chain(done) == shown_chain(bare)
            && signing_key(done) == signing_key(bare) && offered_protocols(done) == seq![
            encode_utf8("http/1.1"@),
        ],
        Err(error) => config matches Err(message) && message@ == "TLS config error: "@
            + tls_error_text(error),
    }
}

/// Completes a configuration, given how making it went: it is to speak HTTP/1.1
/// only, as WebSockets need.
pub fn finished(made: Result<rustls::ServerConfig, rustls::Error>) -> (config: Result<
    rustls::ServerConfig,
    String,
>)
    ensures
        match made {
            Ok(bare) => config matches Ok(done) && shown_chain(done) == shown_chain(bare)
                && signing_key(done) == signing_key(bare) && offered_protocols(done) == seq![
                encode_utf8("http/1.1"@),
            ],
            Err(error) => config matches Err(message) && message@ == "TLS config error: "@
                + tls_error_text(error),
        },
{
    match made {
        Ok(bare) => {
            let mut config = bare;
            let mut name: Vec<u8> = Vec::new();
            name.extend_from_slice("http/1.1".as_bytes());
            assert(name@ =~= encode_utf8("http/1.1"@));
            let mut protocols: Vec<Vec<u8>> = Vec::new();
            protocols.push(name);
            let ghost names = protocols@.map_values(|name: Vec<u8>| name@);
            offer_protocols(&mut config, protocols);
            assert(names =~= seq![encode_utf8("http/1.1"@)]);
            Ok(config)
        },
        Err(error) => Err(joined("TLS config error: ", error_message(&error).as_str())),
    }
}

/// The configuration to listen with: it shows the readable certificates of the
/// one PEM text, signs with the key of the other, and speaks HTTP/1.1 only.
///
/// Whether the key is taken rests on the TLS library and the system's
/// randomness; [`finished`] says what is made of either outcome.
pub fn tls_config(cert: &GeneratedCert) -> (config: Result<rustls::ServerConfig, String>)
    ensures
        match pem_private_key(encode_utf8(cert.key_pem@)) {
            Ok(Some(key)) => match config {
                Ok(made) => {
                    &&& shown_chain(made) == readable(pem_certificates(encode_utf8(cert.cert_pem@)))
                    &&& signing_key(made) == key
                    &&& offered_protocols(made) == seq![encode_utf8("http/1.1"@)]
                },
                Err(message) => reports_refusal(message@),
            },
            Ok(None) => config matches Err(message) && message@ == "No private key found in PEM"@,
            Err(text) => config matches Err(message) && message@ == "Failed to read private key: "@
                + text,
        },
        pem_private_key(encode_utf8(cert.key_pem@)) matches Ok(Some(key)) ==> exists|
            chain: Vec<rustls::pki_types::CertificateDer<'static>>,
            der: rustls::pki_types::PrivateKeyDer<'static>,
            made: Result<rustls::ServerConfig, rustls::Error>,
        |
            {
                &&& #[trigger] config_came(chain, der, made)
                &&& chain_bytes(chain@) == readable(pem_certificates(encode_utf8(cert.cert_pem@)))
                &&& key_bytes(der) == key
                &&& is_finished(made, config)
            },
{
    let identity = tls_identity(cert)?;
    let ghost chain = identity.chain;
    let ghost der = identity.key;
    let made = single_cert_config(identity.chain, identity.key);
    assert(config_came(chain, der, made));
    finished(made)
}

/// A configuration that came shows the chain and signs with the key it was made
/// from; finishing it keeps both and has it offer HTTP/1.1 and nothing else.
pub proof fn configuration_shows_its_identity(
    chain: Vec<rustls::pki_types::CertificateDer<'static>>,
    key: rustls::pki_types::PrivateKeyDer<'static>,
    made: Result<rustls::ServerConfig, rustls::Error>,
    config: Result<rustls::ServerConfig, String>,
)
    requires
        config_came(chain, key, made),
        is_finished(made, config),
    ensures
        made is Ok <==> config is Ok,
        config is Ok ==> shown_chain(config->Ok_0) == chain_bytes(chain@),
        config is Ok ==> signing_key(config->Ok_0) == key_bytes(key),
        config is Ok ==> offered_protocols(config->Ok_0).len() == 1 && offered_protocols(
            config->Ok_0,
        )[0] == encode_utf8("http/1.1"@),
        config is Err ==> config->Err_0@ == "TLS config error: "@ + tls_error_text(made->Err_0),
{
    assert(call_ensures(single_cert_config, (chain, key), made));
}

} // verus!
