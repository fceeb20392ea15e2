use wt_video_server::html_content::{CLIENT_JS, INDEX_HTML, STYLE_CSS};
use wt_video_server::http_server::{Asset, HttpServer, HTTP_PORT};
use wt_video_server::identity::{synthesize, FallbackReason};
use wt_video_server::tls::CertificateDigest;
use wtransport::tls::Sha256DigestFmt;

fn digest() -> CertificateDigest {
    let mut bytes = [0u8; 32];
    let mut i = 0;
    while i < 32 {
        bytes[i] = (i * 8) as u8;
        i += 1;
    }
    CertificateDigest::new(bytes)
}

const DIGEST_TEXT: &str = "[0, 8, 16, 24, 32, 40, 48, 56, 64, 72, 80, 88, 96, 104, 112, 120, 128, \
                           136, 144, 152, 160, 168, 176, 184, 192, 200, 208, 216, 224, 232, 240, 248]";

#[test]
fn serves_on_port_8080() {
    assert_eq!(HTTP_PORT, 8080);
    assert_eq!(HttpServer::new(&digest(), 4433).local_port(), 8080);
}

#[test]
fn templates_hold_their_placeholders() {
    assert_eq!(INDEX_HTML.matches("${WEBTRANSPORT_PORT}").count(), 1);
    assert_eq!(CLIENT_JS.matches("${CERT_DIGEST}").count(), 1);
    assert_eq!(INDEX_HTML.find("${WEBTRANSPORT_PORT}"), Some(481));
    assert_eq!(CLIENT_JS.find("${CERT_DIGEST}"), Some(34));
    assert_eq!(INDEX_HTML.len(), 1064);
    assert_eq!(CLIENT_JS.len(), 2603);
    assert!(!STYLE_CSS.contains("${"));
}

#[test]
fn document_names_the_transport_port() {
    let server = HttpServer::new(&digest(), 4433);
    let page = server.body(Asset::Index);
    assert!(page.contains("<input type=\"text\" id=\"url\" value=\"https://localhost:4433/\">"));
    assert!(!page.contains("${WEBTRANSPORT_PORT}"));
    let (before, after) = INDEX_HTML.split_once("${WEBTRANSPORT_PORT}").unwrap();
    assert_eq!(page, format!("{}4433{}", before, after));
}

#[test]
fn document_for_the_extreme_ports() {
    let (before, after) = INDEX_HTML.split_once("${WEBTRANSPORT_PORT}").unwrap();
    for (port, text) in [(0u16, "0"), (7, "7"), (80, "80"), (10000, "10000"), (65535, "65535")] {
        let server = HttpServer::new(&digest(), port);
        assert_eq!(server.body(Asset::Index), format!("{}{}{}", before, text, after));
    }
}

#[test]
fn script_pins_the_digest() {
    let server = HttpServer::new(&digest(), 4433);
    let script = server.body(Asset::Client);
    assert!(script.contains(&format!("const CERT_HASH = new Uint8Array({});", DIGEST_TEXT)));
    assert!(!script.contains("${CERT_DIGEST}"));
    let (before, after) = CLIENT_JS.split_once("${CERT_DIGEST}").unwrap();
    assert_eq!(script, format!("{}{}{}", before, DIGEST_TEXT, after));
    assert!(script.contains("${new Date().toLocaleTimeString()}"));
}

#[test]
fn style_sheet_is_served_as_it_is() {
    let server = HttpServer::new(&digest(), 1);
    assert_eq!(server.body(Asset::Style), STYLE_CSS);
}

#[test]
fn assets_have_their_paths_and_media_types() {
    assert_eq!(Asset::Index.path(), "/");
    assert_eq!(Asset::Style.path(), "/style.css");
    assert_eq!(Asset::Client.path(), "/client.js");
    assert_eq!(Asset::Index.content_type(), "text/html; charset=utf-8");
    assert_eq!(Asset::Style.content_type(), "text/css");
    assert_eq!(Asset::Client.content_type(), "application/javascript");
}

#[test]
fn script_for_an_identity_pins_its_leaf_certificate() {
    let resolved = synthesize(FallbackReason::NoCertificateFiles).unwrap();
    let presented = resolved.identity().certificate_chain().as_slice()[0].hash();
    let server = HttpServer::for_identity(&resolved, 4433);
    let (before, after) = CLIENT_JS.split_once("${CERT_DIGEST}").unwrap();
    assert_eq!(
        server.body(Asset::Client),
        format!("{}{}{}", before, presented.fmt(Sha256DigestFmt::BytesArray), after)
    );
    assert!(server.body(Asset::Index).contains("https://localhost:4433/"));
    assert_eq!(server.local_port(), 8080);
}
