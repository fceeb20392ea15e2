//! The bootstrap delivery endpoint: what a browser is served so that it can
//! open a pinned session.
//!
//! The server built here holds the pages, with the transport's port and the
//! digest of the serving certificate written in. Binding a socket and
//! answering requests is the caller's part.

use crate::html_content::{CLIENT_JS, INDEX_HTML, STYLE_CSS};
use crate::identity::ResolvedIdentity;
use crate::text::{decimal, replace_all, replaced, u16_text};
use crate::tls::{bytes_array_text, certificates_of, sha256, CertificateDigest};
use vstd::prelude::*;

verus! {

/// The port that the pages are served on.
pub const HTTP_PORT: u16 = 8080;

/// What is served.
#[derive(Clone, Copy, Debug, PartialEq, Eq, Structural)]
pub enum Asset {
    /// The document.
    Index,
    /// The style sheet.
    Style,
    /// The script.
    Client,
}

/// The placeholder of the transport's port in the document.
pub open spec fn port_placeholder() -> Seq<char> {
    "${WEBTRANSPORT_PORT}"@
}

/// The placeholder of the certificate digest in the script.
pub open spec fn digest_placeholder() -> Seq<char> {
    "${CERT_DIGEST}"@
}

/// The document for a transport that listens on `port`.
pub open spec fn index_page(port: u16) -> Seq<char> {
    replaced(INDEX_HTML@, port_placeholder(), decimal(port as nat))
}

/// The script that pins the certificate with digest `digest`.
pub open spec fn client_script(digest: Seq<u8>) -> Seq<char> {
    replaced(CLIENT_JS@, digest_placeholder(), bytes_array_text(digest))
}

impl Asset {
    /// The path that the asset is served at.
    pub open spec fn route(self) -> Seq<char> {
        match self {
            Asset::Index => "/"@,
            Asset::Style => "/style.css"@,
            Asset::Client => "/client.js"@,
        }
    }

    /// The media type of the asset.
    pub open spec fn media_type(self) -> Seq<char> {
        match self {
            Asset::Index => "text/html; charset=utf-8"@,
            Asset::Style => "text/css"@,
            Asset::Client => "application/javascript"@,
        }
    }

    /// The path that the asset is served at.
    pub fn path(self) -> (path: &'static str)
        ensures
            path@ == self.route(),
    {
        match self {
            Asset::Index => "/",
            Asset::Style => "/style.css",
            Asset::Client => "/client.js",
        }
    }

    /// The media type of the asset.
    pub fn content_type(self) -> (media: &'static str)
        ensures
            media@ == self.media_type(),
    {
        match self {
            Asset::Index => "text/html; charset=utf-8",
            Asset::Style => "text/css",
            Asset::Client => "application/javascript",
        }
    }
}

/// The pages of one server, ready to be served.
#[derive(Debug)]
pub struct HttpServer {
    local_port: u16,
    index_page: String,
    client_script: String,
}

impl HttpServer {
    /// The port to serve on.
    pub closed spec fn port(&self) -> u16 {
        self.local_port
    }

    /// The text of an asset.
    pub closed spec fn page(&self, asset: Asset) -> Seq<char> {
        match asset {
            Asset::Index => self.index_page@,
            Asset::Style => STYLE_CSS@,
            Asset::Client => self.client_script@,
        }
    }

    /// The pages for a transport that listens on `webtransport_port` and
    /// presents the certificate with digest `cert_digest`.
    pub fn new(cert_digest: &CertificateDigest, webtransport_port: u16) -> (server: Self)
        ensures
            server.port() == HTTP_PORT,
            server.page(Asset::Index) == index_page(webtransport_port),
            server.page(Asset::Style) == STYLE_CSS@,
            server.page(Asset::Client) == client_script(cert_digest@),
    {
        proof {
            reveal_strlit("${WEBTRANSPORT_PORT}");
            reveal_strlit("${CERT_DIGEST}");
        }
        let port_text = u16_text(webtransport_port);
        let digest_text = cert_digest.to_bytes_array_text();
        let index_page = replace_all(INDEX_HTML, "${WEBTRANSPORT_PORT}", port_text.as_str());
        let client_script = replace_all(CLIENT_JS, "${CERT_DIGEST}", digest_text.as_str());
        HttpServer { local_port: HTTP_PORT, index_page, client_script }
    }

    /// The pages for a transport that listens on `webtransport_port` and
    /// presents `identity`: the script pins the SHA-256 digest of the DER
    /// encoding of the identity's leaf certificate.
    pub fn for_identity(identity: &ResolvedIdentity, webtransport_port: u16) -> (server: Self)
        ensures
            server.port() == HTTP_PORT,
            server.page(Asset::Index) == index_page(webtransport_port),
            server.page(Asset::Style) == STYLE_CSS@,
            server.page(Asset::Client) == client_script(
                sha256(certificates_of(identity.credential())[0]),
            ),
    {
        let digest = identity.leaf_digest();
        HttpServer::new(&digest, webtransport_port)
    }

    /// The port to serve on.
    pub fn local_port(&self) -> (port: u16)
        ensures
            port == self.port(),
    {
        self.local_port
    }

    /// The text of an asset.
    pub fn body(&self, asset: Asset) -> (text: &str)
        ensures
            text@ == self.page(asset),
    {
        match asset {
            Asset::Index => self.index_page.as_str(),
            Asset::Style => STYLE_CSS,
            Asset::Client => self.client_script.as_str(),
        }
    }
}

} // verus!
