//! The identity provider: where the server's certificate chain and private
//! key come from.
//!
//! The policy has three sources, tried in this order. In production mode the
//! identity is loaded from the configured files, and a failure is final.
//! Otherwise, where a certificate and a key file stand at the default paths,
//! they are tried; where they are missing or cannot be loaded, a self-signed
//! identity for the loopback names is made.
//!
//! Files are read by the caller. The resolver says which files to look for and
//! to load, is told what came of it, and ends with the identity together with
//! the source it came from.

use crate::text::str_equal;
use crate::tls::{
    certificates_of, chain_len, leaf_digest, sha256, subject_alt_names_of, CertificateDigest,
};
use vstd::prelude::*;
use wtransport::tls::error::InvalidSan;
use wtransport::Identity;

verus! {

/// Why no identity could be resolved.
#[derive(Clone, Copy, Debug, PartialEq, Eq, Structural)]
pub enum IdentityError {
    /// Production mode: the configured files could not be loaded, or hold no
    /// certificate.
    LoadFailed,
    /// No self-signed identity could be made.
    SynthesisFailed,
}

/// Why a self-signed identity was made.
#[derive(Clone, Copy, Debug, PartialEq, Eq, Structural)]
pub enum FallbackReason {
    /// The default certificate and key files are not both there.
    NoCertificateFiles,
    /// The default files are there but could not be loaded, or hold no
    /// certificate.
    LoadFailed,
}

/// Where an identity came from.
#[derive(Clone, Copy, Debug, PartialEq, Eq, Structural)]
pub enum IdentitySource {
    /// The files that the configuration names, in production mode.
    ProductionFiles,
    /// The files at the default paths. A browser may not trust such a
    /// certificate without pinning.
    DefaultFiles,
    /// Made on the spot, for the loopback names.
    SelfSigned(FallbackReason),
}

/// What the resolver waits for, or how it ended.
#[derive(Clone, Copy, Debug, PartialEq, Eq, Structural)]
pub enum ResolverState {
    /// Production mode: the configured files are being loaded.
    LoadingRequired,
    /// The default paths are being looked at.
    Probing,
    /// The files at the default paths are being loaded.
    LoadingOptional,
    /// Terminal: an identity from this source was handed out.
    Resolved(IdentitySource),
    /// Terminal: there is no identity.
    Failed(IdentityError),
}

/// What the caller found on the file system.
#[derive(Clone, Copy, Debug, PartialEq, Eq, Structural)]
pub enum Observation {
    /// Whether the two files exist.
    Probed { cert_exists: bool, key_exists: bool },
    /// The files were loaded and hold a certificate.
    Loaded,
    /// The files could not be loaded, or hold no certificate.
    LoadFailed,
}

/// What the policy makes of an observation.
#[derive(Clone, Copy, Debug, PartialEq, Eq, Structural)]
pub enum Decision {
    /// The observation is not the one waited for: nothing changes.
    Wait,
    /// Load the files at the default paths.
    LoadDefaults,
    /// Use the identity that was loaded.
    Use(IdentitySource),
    /// Make a self-signed identity.
    SelfSign(FallbackReason),
    /// Give up.
    Fail(IdentityError),
}

/// The policy, one observation at a time.
pub open spec fn decide(state: ResolverState, observation: Observation) -> Decision {
    match (state, observation) {
        (ResolverState::LoadingRequired, Observation::Loaded) => Decision::Use(
            IdentitySource::ProductionFiles,
        ),
        (ResolverState::LoadingRequired, Observation::LoadFailed) => Decision::Fail(
            IdentityError::LoadFailed,
        ),
        (ResolverState::Probing, Observation::Probed { cert_exists, key_exists }) => if cert_exists
            && key_exists {
            Decision::LoadDefaults
        } else {
            Decision::SelfSign(FallbackReason::NoCertificateFiles)
        },
        (ResolverState::LoadingOptional, Observation::Loaded) => Decision::Use(
            IdentitySource::DefaultFiles,
        ),
        (ResolverState::LoadingOptional, Observation::LoadFailed) => Decision::SelfSign(
            FallbackReason::LoadFailed,
        ),
        _ => Decision::Wait,
    }
}

/// The state that a decision leads to; `synthesized` tells whether the
/// self-signed identity, where one was called for, could be made. For the
/// loopback names it always can, and the resolver steps with `true`.
pub open spec fn state_after(state: ResolverState, decision: Decision, synthesized: bool)
    -> ResolverState {
    match decision {
        Decision::Wait => state,
        Decision::LoadDefaults => ResolverState::LoadingOptional,
        Decision::Use(source) => ResolverState::Resolved(source),
        Decision::SelfSign(reason) => if synthesized {
            ResolverState::Resolved(IdentitySource::SelfSigned(reason))
        } else {
            ResolverState::Failed(IdentityError::SynthesisFailed)
        },
        Decision::Fail(error) => ResolverState::Failed(error),
    }
}

/// How a resolution ends, given what the caller will find: whether the
/// default files are there, whether loading succeeds, and whether
/// self-signing does.
pub open spec fn resolution(
    production: bool,
    files_present: bool,
    loadable: bool,
    synthesized: bool,
) -> Result<IdentitySource, IdentityError> {
    if production {
        if loadable {
            Ok(IdentitySource::ProductionFiles)
        } else {
            Err(IdentityError::LoadFailed)
        }
    } else if files_present && loadable {
        Ok(IdentitySource::DefaultFiles)
    } else if synthesized {
        Ok(
            IdentitySource::SelfSigned(
                if files_present {
                    FallbackReason::LoadFailed
                } else {
                    FallbackReason::NoCertificateFiles
                },
            ),
        )
    } else {
        Err(IdentityError::SynthesisFailed)
    }
}

/// The path of the certificate file where none is configured.
pub open spec fn default_cert_path() -> Seq<char> {
    "cert.pem"@
}

/// The path of the private key file where none is configured.
pub open spec fn default_key_path() -> Seq<char> {
    "key.pem"@
}

/// The names that a self-signed identity is made for.
pub open spec fn loopback_names() -> Seq<Seq<char>> {
    seq!["localhost"@, "127.0.0.1"@, "::1"@]
}

/// The settings of the identity provider.
#[derive(Debug)]
pub struct IdentityConfig {
    /// Production mode: load from the configured files, with no fallback.
    pub production: bool,
    /// The certificate file of production mode.
    pub cert_path: String,
    /// The private key file of production mode.
    pub key_path: String,
}

impl IdentityConfig {
    /// The settings that three optional texts stand for: production mode is
    /// on where the first is exactly `true`, and a path that is not given is
    /// the default one.
    pub fn from_settings(
        production: Option<&str>,
        cert_path: Option<String>,
        key_path: Option<String>,
    ) -> (config: Self)
        ensures
            config.production == (production matches Some(text) && text@ == "true"@),
            config.cert_path@ == (match cert_path {
                Some(path) => path@,
                None => default_cert_path(),
            }),
            config.key_path@ == (match key_path {
                Some(path) => path@,
                None => default_key_path(),
            }),
    {
        let production = match production {
            Some(text) => str_equal(text, "true"),
            None => false,
        };
        let cert_path = match cert_path {
            Some(path) => path,
            None => "cert.pem".to_owned(),
        };
        let key_path = match key_path {
            Some(path) => path,
            None => "key.pem".to_owned(),
        };
        IdentityConfig { production, cert_path, key_path }
    }
}

/// Two files for the caller to look at or to load.
#[derive(Debug)]
pub struct FilePair {
    /// The certificate chain, PEM-encoded.
    pub cert_path: String,
    /// The private key, PEM-encoded.
    pub key_path: String,
}

/// What the resolver asks of the caller.
#[derive(Debug)]
pub enum Request {
    /// Tell whether each of the two files exists.
    Probe(FilePair),
    /// Load the identity from the two files.
    Load(FilePair),
}

/// What the caller reports.
#[derive(Debug)]
pub enum ResolverEvent {
    /// Whether the two files exist.
    Probed { cert_exists: bool, key_exists: bool },
    /// The identity that the files hold.
    Loaded(Identity),
    /// The files could not be loaded.
    LoadFailed,
}

impl ResolverEvent {
    /// What the event tells, without the identity it may carry. Files that
    /// hold no certificate count as files that could not be loaded.
    pub open spec fn observation(self) -> Observation {
        match self {
            ResolverEvent::Probed { cert_exists, key_exists } => Observation::Probed {
                cert_exists,
                key_exists,
            },
            ResolverEvent::Loaded(identity) => if certificates_of(identity).len() > 0 {
                Observation::Loaded
            } else {
                Observation::LoadFailed
            },
            ResolverEvent::LoadFailed => Observation::LoadFailed,
        }
    }
}

/// An identity and the source it came from. Its chain is not empty: the first
/// certificate is the leaf.
#[derive(Debug)]
pub struct ResolvedIdentity {
    identity: Identity,
    source: IdentitySource,
}

impl ResolvedIdentity {
    #[verifier::type_invariant]
    spec fn has_leaf(self) -> bool {
        certificates_of(self.identity).len() > 0
    }

    /// The certificate chain and the private key.
    pub closed spec fn credential(self) -> Identity {
        self.identity
    }

    /// Where they came from.
    pub closed spec fn origin(self) -> IdentitySource {
        self.source
    }

    /// An identity with its source; `None` where the chain is empty.
    pub fn new(identity: Identity, source: IdentitySource) -> (resolved: Option<Self>)
        ensures
            resolved is Some <==> certificates_of(identity).len() > 0,
            resolved matches Some(r) ==> r.credential() == identity && r.origin() == source,
    {
        if chain_len(&identity) == 0 {
            None
        } else {
            Some(ResolvedIdentity { identity, source })
        }
    }

    /// Where the identity came from.
    pub fn source(&self) -> (source: IdentitySource)
        ensures
            source == self.origin(),
    {
        self.source
    }

    /// The certificate chain and the private key.
    pub fn identity(&self) -> (identity: &Identity)
        ensures
            *identity == self.credential(),
            certificates_of(*identity).len() > 0,
    {
        proof {
            use_type_invariant(self);
        }
        &self.identity
    }

    /// Gives the certificate chain and the private key away, to configure the
    /// transport with.
    pub fn into_identity(self) -> (identity: Identity)
        ensures
            identity == self.credential(),
            certificates_of(identity).len() > 0,
    {
        proof {
            use_type_invariant(&self);
        }
        self.identity
    }

    /// The digest of the leaf certificate: what a client pins to trust this
    /// identity.
    pub fn leaf_digest(&self) -> (digest: CertificateDigest)
        ensures
            digest@ == sha256(certificates_of(self.credential())[0]),
    {
        proof {
            use_type_invariant(self);
        }
        match leaf_digest(&self.identity) {
            Some(digest) => digest,
            None => vstd::pervasive::unreached(),
        }
    }
}

/// How far the resolution has come.
#[derive(Debug)]
pub enum Progress {
    /// The caller has something to do.
    Ask(Request),
    /// The identity is resolved.
    Resolved(ResolvedIdentity),
    /// There is no identity.
    Failed(IdentityError),
    /// The resolution had ended before.
    Finished,
}

/// The request that a state stands for.
pub open spec fn request_matches(state: ResolverState, config: IdentityConfig, request: Request)
    -> bool {
    match state {
        ResolverState::LoadingRequired => request matches Request::Load(files)
            && files.cert_path@ == config.cert_path@ && files.key_path@ == config.key_path@,
        ResolverState::Probing => request matches Request::Probe(files) && files.cert_path@
            == default_cert_path() && files.key_path@ == default_key_path(),
        ResolverState::LoadingOptional => request matches Request::Load(files)
            && files.cert_path@ == default_cert_path() && files.key_path@ == default_key_path(),
        _ => false,
    }
}

/// The progress that goes with a step from `before` to `after` on `event`.
pub open spec fn progress_matches(
    before: ResolverState,
    after: ResolverState,
    config: IdentityConfig,
    event: ResolverEvent,
    progress: Progress,
) -> bool {
    match decide(before, event.observation()) {
        Decision::Wait => match before {
            ResolverState::Resolved(_) => progress is Finished,
            ResolverState::Failed(_) => progress is Finished,
            _ => progress matches Progress::Ask(request) && request_matches(
                before,
                config,
                request,
            ),
        },
        Decision::LoadDefaults => progress matches Progress::Ask(request) && request_matches(
            after,
            config,
            request,
        ),
        Decision::Use(source) => progress matches Progress::Resolved(resolved)
            && resolved.origin() == source && event == ResolverEvent::Loaded(resolved.credential()),
        Decision::SelfSign(reason) => progress matches Progress::Resolved(resolved)
            && resolved.origin() == IdentitySource::SelfSigned(reason) && is_for_loopback(
            resolved.credential(),
        ),
        Decision::Fail(error) => progress == Progress::Failed(error),
    }
}

/// True of an identity with a single certificate that is for the loopback
/// names and for no other.
pub open spec fn is_for_loopback(identity: Identity) -> bool {
    &&& certificates_of(identity).len() == 1
    &&& subject_alt_names_of(identity) == loopback_names()
}

/// The resolver of one identity.
#[derive(Debug)]
pub struct IdentityResolver {
    config: IdentityConfig,
    state: ResolverState,
}

impl IdentityResolver {
    /// The state of the resolver.
    pub closed spec fn state(&self) -> ResolverState {
        self.state
    }

    /// The settings that the resolver was made with.
    pub closed spec fn config(&self) -> IdentityConfig {
        self.config
    }

    /// Starts a resolution: in production mode with the configured files, else
    /// with a look at the default paths.
    pub fn new(config: IdentityConfig) -> (resolver: Self)
        ensures
            resolver.config() == config,
            resolver.state() == if config.production {
                ResolverState::LoadingRequired
            } else {
                ResolverState::Probing
            },
    {
        let state = if config.production {
            ResolverState::LoadingRequired
        } else {
            ResolverState::Probing
        };
        IdentityResolver { config, state }
    }

    /// The state of the resolver.
    pub fn current_state(&self) -> (state: ResolverState)
        ensures
            state == self.state(),
    {
        self.state
    }

    /// What the caller is to do now; `None` once the resolution has ended.
    pub fn request(&self) -> (request: Option<Request>)
        ensures
            match self.state() {
                ResolverState::Resolved(_) => request is None,
                ResolverState::Failed(_) => request is None,
                _ => request matches Some(r) && request_matches(self.state(), self.config(), r),
            },
    {
        match self.state {
            ResolverState::LoadingRequired => Some(
                Request::Load(
                    FilePair {
                        cert_path: self.config.cert_path.clone(),
                        key_path: self.config.key_path.clone(),
                    },
                ),
            ),
            ResolverState::Probing => Some(Request::Probe(default_files())),
            ResolverState::LoadingOptional => Some(Request::Load(default_files())),
            ResolverState::Resolved(_) => None,
            ResolverState::Failed(_) => None,
        }
    }

    /// Takes in what the caller found and says how the resolution goes on.
    ///
    /// Where the policy calls for a self-signed identity, it is made here, for
    /// the loopback names. For those names the transport does not refuse, so
    /// outside production mode every resolution ends with an identity.
    pub fn step(&mut self, event: ResolverEvent) -> (progress: Progress)
        ensures
            final(self).config() == old(self).config(),
            final(self).state() == state_after(
                old(self).state(),
                decide(old(self).state(), event.observation()),
                true,
            ),
            progress_matches(
                old(self).state(),
                final(self).state(),
                old(self).config(),
                event,
                progress,
            ),
    {
        match event {
            ResolverEvent::Probed { cert_exists, key_exists } => match self.state {
                ResolverState::Probing => {
                    if cert_exists && key_exists {
                        self.state = ResolverState::LoadingOptional;
                        Progress::Ask(Request::Load(default_files()))
                    } else {
                        self.fall_back(FallbackReason::NoCertificateFiles)
                    }
                },
                _ => self.wait(),
            },
            ResolverEvent::Loaded(identity) => match self.state {
                ResolverState::LoadingRequired => match ResolvedIdentity::new(
                    identity,
                    IdentitySource::ProductionFiles,
                ) {
                    Some(resolved) => {
                        self.state = ResolverState::Resolved(IdentitySource::ProductionFiles);
                        Progress::Resolved(resolved)
                    },
                    None => self.load_failed(),
                },
                ResolverState::LoadingOptional => match ResolvedIdentity::new(
                    identity,
                    IdentitySource::DefaultFiles,
                ) {
                    Some(resolved) => {
                        self.state = ResolverState::Resolved(IdentitySource::DefaultFiles);
                        Progress::Resolved(resolved)
                    },
                    None => self.load_failed(),
                },
                _ => self.wait(),
            },
            ResolverEvent::LoadFailed => self.load_failed(),
        }
    }

    /// The answer to an event that the state does not wait for.
    fn wait(&self) -> (progress: Progress)
        ensures
            match self.state() {
                ResolverState::Resolved(_) => progress is Finished,
                ResolverState::Failed(_) => progress is Finished,
                _ => progress matches Progress::Ask(request) && request_matches(
                    self.state(),
                    self.config(),
                    request,
                ),
            },
    {
        match self.request() {
            Some(request) => Progress::Ask(request),
            None => Progress::Finished,
        }
    }

    /// What follows where the files could not be loaded: the end in production
    /// mode, a self-signed identity otherwise.
    fn load_failed(&mut self) -> (progress: Progress)
        ensures
            final(self).config() == old(self).config(),
            final(self).state() == state_after(
                old(self).state(),
                decide(old(self).state(), Observation::LoadFailed),
                true,
            ),
            match decide(old(self).state(), Observation::LoadFailed) {
                Decision::Fail(error) => progress == Progress::Failed(error),
                Decision::SelfSign(reason) => progress matches Progress::Resolved(resolved)
                    && resolved.origin() == IdentitySource::SelfSigned(reason)
                    && is_for_loopback(resolved.credential()),
                _ => match old(self).state() {
                    ResolverState::Resolved(_) => progress is Finished,
                    ResolverState::Failed(_) => progress is Finished,
                    _ => progress matches Progress::Ask(request) && request_matches(
                        old(self).state(),
                        old(self).config(),
                        request,
                    ),
                },
            },
    {
        match self.state {
            ResolverState::LoadingRequired => {
                self.state = ResolverState::Failed(IdentityError::LoadFailed);
                Progress::Failed(IdentityError::LoadFailed)
            },
            ResolverState::LoadingOptional => self.fall_back(FallbackReason::LoadFailed),
            _ => self.wait(),
        }
    }

    /// Makes the self-signed identity and ends the resolution.
    fn fall_back(&mut self, reason: FallbackReason) -> (progress: Progress)
        ensures
            final(self).config() == old(self).config(),
            final(self).state() == ResolverState::Resolved(IdentitySource::SelfSigned(reason)),
            progress matches Progress::Resolved(resolved) && resolved.origin()
                == IdentitySource::SelfSigned(reason) && is_for_loopback(resolved.credential()),
    {
        match synthesize(reason) {
            Ok(resolved) => {
                self.state = ResolverState::Resolved(resolved.source());
                Progress::Resolved(resolved)
            },
            Err(error) => {
                self.state = ResolverState::Failed(error);
                Progress::Failed(error)
            },
        }
    }
}

/// The two default paths.
pub fn default_files() -> (files: FilePair)
    ensures
        files.cert_path@ == default_cert_path(),
        files.key_path@ == default_key_path(),
{
    FilePair { cert_path: "cert.pem".to_owned(), key_path: "key.pem".to_owned() }
}

/// The names that a self-signed identity is made for: the loopback host name
/// and the two loopback addresses.
pub fn self_signed_names() -> (names: Vec<&'static str>)
    ensures
        names@.len() == 3,
        names@.map_values(|name: &'static str| name@) == loopback_names(),
{
    let mut names: Vec<&'static str> = Vec::new();
    names.push("localhost");
    names.push("127.0.0.1");
    names.push("::1");
    assert(names@.map_values(|name: &'static str| name@) =~= loopback_names());
    names
}

/// Makes a self-signed identity for the loopback names: one certificate, for
/// those names and no other. The transport refuses only names that are
/// neither addresses nor ASCII, so for these names there always is one.
pub fn synthesize(reason: FallbackReason) -> (r: Result<ResolvedIdentity, IdentityError>)
    ensures
        r is Ok,
        r matches Ok(resolved) ==> resolved.origin() == IdentitySource::SelfSigned(reason)
            && is_for_loopback(resolved.credential()),
{
    let names = self_signed_names();
    conclude_synthesis(self_sign(&names), reason)
}

/// What a resolution makes of the transport's answer to self-signing.
pub fn conclude_synthesis(made: Result<Identity, InvalidSan>, reason: FallbackReason) -> (r: Result<
    ResolvedIdentity,
    IdentityError,
>)
    ensures
        r is Ok <==> (made matches Ok(identity) && certificates_of(identity).len() > 0),
        r matches Ok(resolved) ==> made == Ok::<Identity, InvalidSan>(resolved.credential())
            && resolved.origin() == IdentitySource::SelfSigned(reason),
        r matches Err(error) ==> error == IdentityError::SynthesisFailed,
{
    match made {
        Ok(identity) => match ResolvedIdentity::new(identity, IdentitySource::SelfSigned(reason)) {
            Some(resolved) => Ok(resolved),
            None => Err(IdentityError::SynthesisFailed),
        },
        Err(_) => Err(IdentityError::SynthesisFailed),
    }
}

/// `Identity::self_signed`, asked for the loopback names: a fresh key pair
/// and a certificate, valid for fourteen days from now. It fails only on a
/// name that is neither an address nor ASCII, so for these names it succeeds.
/// What the key and the dates are is not claimed. What it makes is a chain of
/// one certificate whose subject alternative names are the names given: the
/// host name, and each of the two addresses.
#[verifier::external_body]
fn self_sign(names: &Vec<&'static str>) -> (made: Result<Identity, InvalidSan>)
    requires
        names@.map_values(|name: &'static str| name@) == loopback_names(),
    ensures
        made is Ok,
        made matches Ok(identity) ==> certificates_of(identity).len() == 1
            && subject_alt_names_of(identity) == loopback_names(),
{
    Identity::self_signed(names)
}

} // verus!
