use wt_video_server::identity::{
    conclude_synthesis, default_files, self_signed_names, synthesize, FallbackReason,
    IdentityConfig, IdentityError, IdentityResolver, IdentitySource, Progress, Request,
    ResolvedIdentity, ResolverEvent, ResolverState,
};
use wt_video_server::tls::{chain_len, leaf_digest, CertificateDigest, DIGEST_LEN};
use wtransport::tls::{Certificate, CertificateChain, PrivateKey, Sha256Digest, Sha256DigestFmt};
use wtransport::Identity;

fn sample_certificate_der() -> Vec<u8> {
    vec![
        48, 130, 1, 152, 48, 130, 1, 63, 160, 3, 2, 1, 2, 2, 20, 97,
        198, 202, 120, 92, 187, 89, 17, 16, 148, 184, 4, 251, 50, 32, 152, 49,
        78, 66, 79, 48, 10, 6, 8, 42, 134, 72, 206, 61, 4, 3, 2, 48,
        20, 49, 18, 48, 16, 6, 3, 85, 4, 3, 12, 9, 108, 111, 99, 97,
        108, 104, 111, 115, 116, 48, 30, 23, 13, 50, 54, 49, 48, 50, 56, 48,
        49, 53, 53, 51, 55, 90, 23, 13, 50, 54, 49, 49, 49, 49, 48, 49,
        53, 53, 51, 55, 90, 48, 20, 49, 18, 48, 16, 6, 3, 85, 4, 3,
        12, 9, 108, 111, 99, 97, 108, 104, 111, 115, 116, 48, 89, 48, 19, 6,
        7, 42, 134, 72, 206, 61, 2, 1, 6, 8, 42, 134, 72, 206, 61, 3,
        1, 7, 3, 66, 0, 4, 62, 6, 64, 105, 245, 138, 234, 101, 132, 64,
        165, 210, 39, 18, 74, 151, 238, 105, 43, 48, 249, 42, 111, 242, 95, 183,
        53, 80, 133, 167, 121, 214, 85, 172, 193, 91, 129, 136, 151, 70, 170, 247,
        244, 105, 52, 35, 113, 38, 94, 39, 226, 76, 65, 5, 199, 176, 14, 152,
        179, 214, 69, 46, 254, 80, 163, 111, 48, 109, 48, 29, 6, 3, 85, 29,
        14, 4, 22, 4, 20, 105, 200, 228, 161, 12, 50, 19, 77, 36, 164, 234,
        187, 183, 85, 197, 142, 89, 131, 221, 240, 48, 31, 6, 3, 85, 29, 35,
        4, 24, 48, 22, 128, 20, 105, 200, 228, 161, 12, 50, 19, 77, 36, 164,
        234, 187, 183, 85, 197, 142, 89, 131, 221, 240, 48, 15, 6, 3, 85, 29,
        19, 1, 1, 255, 4, 5, 48, 3, 1, 1, 255, 48, 26, 6, 3, 85,
        29, 17, 4, 19, 48, 17, 130, 9, 108, 111, 99, 97, 108, 104, 111, 115,
        116, 135, 4, 127, 0, 0, 1, 48, 10, 6, 8, 42, 134, 72, 206, 61,
        4, 3, 2, 3, 71, 0, 48, 68, 2, 32, 24, 68, 248, 66, 60, 177,
        222, 46, 140, 151, 126, 235, 172, 62, 227, 102, 95, 180, 103, 23, 137, 148,
        62, 138, 68, 159, 206, 131, 187, 33, 237, 182, 2, 32, 102, 133, 141, 19,
        108, 225, 243, 119, 166, 56, 142, 38, 238, 215, 188, 43, 143, 185, 45, 48,
        13, 187, 26, 5, 231, 137, 29, 217, 74, 97, 67, 40,
    ]
}

fn sample_certificate_sha256() -> [u8; 32] {
    [
        17, 137, 224, 75, 236, 184, 45, 198, 248, 33, 13, 115, 158, 199, 27, 169,
        234, 79, 2, 209, 173, 125, 135, 128, 151, 31, 219, 255, 173, 235, 67, 164,
    ]
}

fn sample_identity() -> Identity {
    let certificate = Certificate::from_der(sample_certificate_der()).unwrap();
    Identity::new(CertificateChain::single(certificate), PrivateKey::from_der_pkcs8(vec![1, 2, 3]))
}

fn empty_identity() -> Identity {
    Identity::new(CertificateChain::new(Vec::new()), PrivateKey::from_der_pkcs8(vec![1, 2, 3]))
}

fn config(production: bool) -> IdentityConfig {
    IdentityConfig {
        production,
        cert_path: "/etc/tls/server.crt".to_string(),
        key_path: "/etc/tls/server.key".to_string(),
    }
}

fn leaf_der(identity: &Identity) -> Vec<u8> {
    identity.certificate_chain().as_slice()[0].der().to_vec()
}

#[test]
fn settings_default_to_development() {
    let config = IdentityConfig::from_settings(None, None, None);
    assert!(!config.production);
    assert_eq!(config.cert_path, "cert.pem");
    assert_eq!(config.key_path, "key.pem");
}

#[test]
fn production_is_exactly_true() {
    assert!(IdentityConfig::from_settings(Some("true"), None, None).production);
    for text in ["", "TRUE", "True", "1", "yes", " true", "true ", "false"] {
        assert!(!IdentityConfig::from_settings(Some(text), None, None).production, "{:?}", text);
    }
}

#[test]
fn configured_paths_are_kept() {
    let config = IdentityConfig::from_settings(
        Some("true"),
        Some("/a/cert".to_string()),
        Some("/b/key".to_string()),
    );
    assert_eq!(config.cert_path, "/a/cert");
    assert_eq!(config.key_path, "/b/key");
    let config = IdentityConfig::from_settings(Some("true"), None, Some("k".to_string()));
    assert_eq!(config.cert_path, "cert.pem");
    assert_eq!(config.key_path, "k");
}

#[test]
fn default_files_are_cert_and_key_pem() {
    let files = default_files();
    assert_eq!(files.cert_path, "cert.pem");
    assert_eq!(files.key_path, "key.pem");
}

#[test]
fn self_signed_names_are_the_loopback_names() {
    assert_eq!(self_signed_names(), vec!["localhost", "127.0.0.1", "::1"]);
}

#[test]
fn production_loads_the_configured_files() {
    let resolver = IdentityResolver::new(config(true));
    assert_eq!(resolver.current_state(), ResolverState::LoadingRequired);
    match resolver.request() {
        Some(Request::Load(files)) => {
            assert_eq!(files.cert_path, "/etc/tls/server.crt");
            assert_eq!(files.key_path, "/etc/tls/server.key");
        },
        other => panic!("unexpected request {:?}", other),
    }
}

#[test]
fn production_uses_the_loaded_identity() {
    let mut resolver = IdentityResolver::new(config(true));
    let loaded = sample_identity();
    let expected = leaf_der(&loaded);
    match resolver.step(ResolverEvent::Loaded(loaded)) {
        Progress::Resolved(resolved) => {
            assert_eq!(resolved.source(), IdentitySource::ProductionFiles);
            assert_eq!(leaf_der(resolved.identity()), expected);
            assert_eq!(leaf_der(&resolved.into_identity()), expected);
        },
        other => panic!("unexpected progress {:?}", other),
    }
    assert_eq!(resolver.current_state(), ResolverState::Resolved(IdentitySource::ProductionFiles));
    assert!(resolver.request().is_none());
    assert!(matches!(resolver.step(ResolverEvent::LoadFailed), Progress::Finished));
}

#[test]
fn production_does_not_fall_back() {
    let mut resolver = IdentityResolver::new(config(true));
    assert!(matches!(
        resolver.step(ResolverEvent::LoadFailed),
        Progress::Failed(IdentityError::LoadFailed)
    ));
    assert_eq!(resolver.current_state(), ResolverState::Failed(IdentityError::LoadFailed));
    assert!(matches!(
        resolver.step(ResolverEvent::Probed { cert_exists: false, key_exists: false }),
        Progress::Finished
    ));
}

#[test]
fn production_ignores_a_probe() {
    let mut resolver = IdentityResolver::new(config(true));
    match resolver.step(ResolverEvent::Probed { cert_exists: false, key_exists: false }) {
        Progress::Ask(Request::Load(files)) => assert_eq!(files.cert_path, "/etc/tls/server.crt"),
        other => panic!("unexpected progress {:?}", other),
    }
    assert_eq!(resolver.current_state(), ResolverState::LoadingRequired);
}

#[test]
fn production_refuses_files_without_a_certificate() {
    let mut resolver = IdentityResolver::new(config(true));
    assert!(matches!(
        resolver.step(ResolverEvent::Loaded(empty_identity())),
        Progress::Failed(IdentityError::LoadFailed)
    ));
}

#[test]
fn development_probes_the_default_paths() {
    let resolver = IdentityResolver::new(config(false));
    assert_eq!(resolver.current_state(), ResolverState::Probing);
    match resolver.request() {
        Some(Request::Probe(files)) => {
            assert_eq!(files.cert_path, "cert.pem");
            assert_eq!(files.key_path, "key.pem");
        },
        other => panic!("unexpected request {:?}", other),
    }
}

#[test]
fn development_without_files_self_signs() {
    for (cert_exists, key_exists) in [(false, false), (true, false), (false, true)] {
        let mut resolver = IdentityResolver::new(config(false));
        match resolver.step(ResolverEvent::Probed { cert_exists, key_exists }) {
            Progress::Resolved(resolved) => {
                assert_eq!(
                    resolved.source(),
                    IdentitySource::SelfSigned(FallbackReason::NoCertificateFiles)
                );
                assert_eq!(resolved.identity().certificate_chain().as_slice().len(), 1);
            },
            other => panic!("unexpected progress {:?}", other),
        }
        assert_eq!(
            resolver.current_state(),
            ResolverState::Resolved(IdentitySource::SelfSigned(FallbackReason::NoCertificateFiles))
        );
    }
}

#[test]
fn development_with_files_loads_them() {
    let mut resolver = IdentityResolver::new(config(false));
    match resolver.step(ResolverEvent::Probed { cert_exists: true, key_exists: true }) {
        Progress::Ask(Request::Load(files)) => {
            assert_eq!(files.cert_path, "cert.pem");
            assert_eq!(files.key_path, "key.pem");
        },
        other => panic!("unexpected progress {:?}", other),
    }
    assert_eq!(resolver.current_state(), ResolverState::LoadingOptional);
    let loaded = sample_identity();
    match resolver.step(ResolverEvent::Loaded(loaded)) {
        Progress::Resolved(resolved) => {
            assert_eq!(resolved.source(), IdentitySource::DefaultFiles);
            assert_eq!(leaf_der(resolved.identity()), sample_certificate_der());
        },
        other => panic!("unexpected progress {:?}", other),
    }
}

#[test]
fn development_falls_back_when_loading_fails() {
    let mut resolver = IdentityResolver::new(config(false));
    resolver.step(ResolverEvent::Probed { cert_exists: true, key_exists: true });
    match resolver.step(ResolverEvent::LoadFailed) {
        Progress::Resolved(resolved) => {
            assert_eq!(resolved.source(), IdentitySource::SelfSigned(FallbackReason::LoadFailed));
        },
        other => panic!("unexpected progress {:?}", other),
    }
}

#[test]
fn development_falls_back_on_files_without_a_certificate() {
    let mut resolver = IdentityResolver::new(config(false));
    resolver.step(ResolverEvent::Probed { cert_exists: true, key_exists: true });
    match resolver.step(ResolverEvent::Loaded(empty_identity())) {
        Progress::Resolved(resolved) => {
            assert_eq!(resolved.source(), IdentitySource::SelfSigned(FallbackReason::LoadFailed));
            assert_eq!(chain_len(resolved.identity()), 1);
        },
        other => panic!("unexpected progress {:?}", other),
    }
}

#[test]
fn a_load_is_ignored_while_probing() {
    let mut resolver = IdentityResolver::new(config(false));
    assert!(matches!(
        resolver.step(ResolverEvent::Loaded(sample_identity())),
        Progress::Ask(Request::Probe(_))
    ));
    assert!(matches!(resolver.step(ResolverEvent::LoadFailed), Progress::Ask(Request::Probe(_))));
    assert_eq!(resolver.current_state(), ResolverState::Probing);
}

#[test]
fn synthesized_identity_is_for_the_loopback_names() {
    let resolved = synthesize(FallbackReason::NoCertificateFiles).unwrap();
    assert_eq!(resolved.source(), IdentitySource::SelfSigned(FallbackReason::NoCertificateFiles));
    let der = leaf_der(resolved.identity());
    let text = String::from_utf8_lossy(&der).into_owned();
    assert!(text.contains("localhost"));
    assert!(der.windows(4).any(|w| w == [127, 0, 0, 1]));
    let mut v6 = [0u8; 16];
    v6[15] = 1;
    assert!(der.windows(16).any(|w| w == v6));
}

#[test]
fn two_synthesized_identities_differ() {
    let first = synthesize(FallbackReason::LoadFailed).unwrap();
    let second = synthesize(FallbackReason::LoadFailed).unwrap();
    assert_ne!(leaf_der(first.identity()), leaf_der(second.identity()));
    assert_ne!(first.leaf_digest(), second.leaf_digest());
}

#[test]
fn conclude_synthesis_for_each_outcome() {
    let made = Identity::self_signed(["localhost"]);
    let resolved = conclude_synthesis(made, FallbackReason::LoadFailed).unwrap();
    assert_eq!(resolved.source(), IdentitySource::SelfSigned(FallbackReason::LoadFailed));

    let refused = Identity::self_signed(["\u{2764}"]);
    assert!(refused.is_err());
    assert!(matches!(
        conclude_synthesis(refused, FallbackReason::NoCertificateFiles),
        Err(IdentityError::SynthesisFailed)
    ));

    assert!(matches!(
        conclude_synthesis(Ok(empty_identity()), FallbackReason::NoCertificateFiles),
        Err(IdentityError::SynthesisFailed)
    ));
}

#[test]
fn resolved_identity_needs_a_certificate() {
    assert!(ResolvedIdentity::new(empty_identity(), IdentitySource::DefaultFiles).is_none());
    let resolved = ResolvedIdentity::new(sample_identity(), IdentitySource::DefaultFiles).unwrap();
    assert_eq!(resolved.source(), IdentitySource::DefaultFiles);
}

#[test]
fn leaf_digest_is_the_sha256_of_the_leaf_der() {
    let identity = sample_identity();
    let digest = leaf_digest(&identity).unwrap();
    assert_eq!(*digest.as_bytes(), sample_certificate_sha256());
    assert_ne!(&digest.as_bytes()[..], &sample_certificate_der()[..32]);
    assert_eq!(digest.as_bytes().len(), DIGEST_LEN);
}

#[test]
fn leaf_digest_is_what_the_transport_presents() {
    let resolved = synthesize(FallbackReason::NoCertificateFiles).unwrap();
    let presented = resolved.identity().certificate_chain().as_slice()[0].hash();
    assert_eq!(resolved.leaf_digest().as_bytes(), presented.as_ref());
    assert_eq!(leaf_digest(resolved.identity()).unwrap(), resolved.leaf_digest());
}

#[test]
fn leaf_digest_takes_the_first_certificate() {
    let leaf = Certificate::from_der(sample_certificate_der()).unwrap();
    let other = Identity::self_signed(["localhost"]).unwrap();
    let issuer = other.certificate_chain().as_slice()[0].clone();
    let chain = CertificateChain::new(vec![leaf, issuer]);
    let identity = Identity::new(chain, PrivateKey::from_der_pkcs8(vec![0]));
    assert_eq!(chain_len(&identity), 2);
    assert_eq!(*leaf_digest(&identity).unwrap().as_bytes(), sample_certificate_sha256());
}

#[test]
fn empty_chain_has_no_leaf_digest() {
    let identity = empty_identity();
    assert_eq!(chain_len(&identity), 0);
    assert!(leaf_digest(&identity).is_none());
}

#[test]
fn digest_text_is_a_byte_array() {
    let digest = CertificateDigest::new([
        97, 98, 99, 100, 101, 102, 103, 104, 105, 106, 107, 108, 109, 110, 111, 112, 113, 114, 115,
        116, 117, 118, 119, 120, 121, 122, 123, 124, 125, 126, 127, 64,
    ]);
    assert_eq!(
        digest.to_bytes_array_text(),
        "[97, 98, 99, 100, 101, 102, 103, 104, 105, 106, 107, 108, 109, 110, 111, 112, 113, 114, \
         115, 116, 117, 118, 119, 120, 121, 122, 123, 124, 125, 126, 127, 64]"
    );
}

#[test]
fn digest_text_of_small_and_large_bytes() {
    let mut bytes = [0u8; 32];
    bytes[1] = 7;
    bytes[2] = 10;
    bytes[3] = 99;
    bytes[4] = 100;
    bytes[31] = 255;
    let text = CertificateDigest::new(bytes).to_bytes_array_text();
    assert!(text.starts_with("[0, 7, 10, 99, 100, 0, "));
    assert!(text.ends_with(", 0, 255]"));
    assert_eq!(text.matches(", ").count(), 31);
    let parsed = Sha256Digest::from_str_fmt(&text, Sha256DigestFmt::BytesArray).unwrap();
    assert_eq!(parsed.as_ref(), &bytes);
}

#[test]
fn digest_keeps_its_bytes() {
    let bytes = sample_certificate_sha256();
    let digest = CertificateDigest::new(bytes);
    assert_eq!(digest.as_bytes(), &bytes);
    assert_eq!(digest, CertificateDigest::new(bytes));
}

#[test]
fn a_flag_other_than_true_resolves_by_self_signing() {
    let config = IdentityConfig::from_settings(
        Some("1"),
        Some("/nonexistent/cert.pem".to_string()),
        Some("/nonexistent/key.pem".to_string()),
    );
    assert!(!config.production);
    let mut resolver = IdentityResolver::new(config);
    match resolver.request() {
        Some(Request::Probe(files)) => {
            assert_eq!(files.cert_path, "cert.pem");
            assert_eq!(files.key_path, "key.pem");
        },
        other => panic!("unexpected request {:?}", other),
    }
    let progress = resolver.step(ResolverEvent::Probed { cert_exists: false, key_exists: false });
    assert!(matches!(progress, Progress::Resolved(_)));
    assert_eq!(
        resolver.current_state(),
        ResolverState::Resolved(IdentitySource::SelfSigned(FallbackReason::NoCertificateFiles))
    );
}

#[test]
fn synthesis_for_the_loopback_names_succeeds() {
    for reason in [FallbackReason::NoCertificateFiles, FallbackReason::LoadFailed] {
        let resolved = synthesize(reason).unwrap();
        assert_eq!(resolved.source(), IdentitySource::SelfSigned(reason));
        assert_eq!(chain_len(resolved.identity()), 1);
    }
}
