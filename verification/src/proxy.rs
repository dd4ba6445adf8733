//! The lifecycle of the one intercepting listener.
//!
//! A [`ProxyManager`] owns the single slot that holds the shutdown signal of
//! the running listener. Starting registers a signal if none is registered;
//! stopping takes the signal out and fires it. The host runs the listener
//! itself: a successful start hands it an [`EngineConfig`] to launch.

use crate::error::{ProxyError, ProxyErrorView};
use hudsucker::openssl::error::ErrorStack;
use hudsucker::openssl::pkey::{PKey, Private};
use hudsucker::openssl::x509::X509;
use tokio::sync::oneshot::error::RecvError;
use tokio::sync::oneshot::{Receiver, Sender};
use vstd::prelude::*;

verus! {

/// The sending half of tokio's one-shot channel.
#[verifier::external_type_specification]
#[verifier::external_body]
#[verifier::reject_recursive_types(T)]
pub struct ExSender<T>(Sender<T>);

/// The receiving half of tokio's one-shot channel.
#[verifier::external_type_specification]
#[verifier::external_body]
#[verifier::reject_recursive_types(T)]
pub struct ExReceiver<T>(Receiver<T>);

/// What awaiting a receiver gives when its sender is gone.
#[verifier::external_type_specification]
#[verifier::external_body]
pub struct ExRecvError(RecvError);

/// An X.509 certificate as openssl holds it.
#[verifier::external_type_specification]
#[verifier::external_body]
pub struct ExX509(X509);

/// A key as openssl holds it.
#[verifier::external_type_specification]
#[verifier::external_body]
#[verifier::reject_recursive_types(T)]
pub struct ExPKey<T>(PKey<T>);

/// openssl's tag for a key that has its private part.
#[verifier::external_type_specification]
#[verifier::external_body]
pub struct ExPrivate(Private);

/// openssl's error queue.
#[verifier::external_type_specification]
#[verifier::external_body]
pub struct ExErrorStack(ErrorStack);

/// How many minted leaf certificates the engine keeps.
pub const MINT_CACHE_SIZE: u64 = 1_000;

/// The longest material that can be handed to the parser.
pub const MAX_MATERIAL_LEN: usize = 0x7fff_ffff;

/// Whether the intercepting listener is up.
#[derive(Debug, Clone, Copy, PartialEq, Eq, Structural)]
pub enum ProxyState {
    Running,
    Stopped,
    Error,
}

/// The digest with which minted certificates are signed.
#[derive(Debug, Clone, Copy, PartialEq, Eq, Structural)]
pub enum DigestAlgorithm {
    Sha256,
}

/// An IPv4 address and a port to listen on.
#[derive(Debug, Clone, Copy, PartialEq, Eq)]
pub struct BindAddress {
    pub ip: (u8, u8, u8, u8),
    pub port: u16,
}

/// The loopback address with the given port.
pub open spec fn loopback(port: u16) -> BindAddress {
    BindAddress { ip: (127u8, 0u8, 0u8, 1u8), port }
}

/// What the interception engine needs to run one listener.
#[derive(Debug)]
pub struct EngineConfig {
    pub certificate: X509,
    pub private_key: PKey<Private>,
    pub digest: DigestAlgorithm,
    pub mint_cache_size: u64,
    pub address: BindAddress,
    /// Completes when the listener is asked to shut down.
    pub shutdown: Receiver<()>,
}

/// What a start asks of the host first.
#[derive(Debug)]
pub enum StartRequest {
    /// A listener is registered already: the start has succeeded, and there
    /// is nothing to do.
    AlreadyRunning,
    /// Read the authority's material from `path` and hand it to
    /// [`ProxyManager::launch`] with `port`.
    Read { port: u16, path: String },
}

/// A start that succeeded.
#[derive(Debug)]
pub enum Started {
    /// A listener was registered already; no second one is to be launched.
    AlreadyRunning,
    /// A shutdown signal was registered; the host launches the listener.
    Launch(EngineConfig),
}

/// What a stop did.
#[derive(Debug, Clone, Copy, PartialEq, Eq, Structural)]
pub enum Stopped {
    /// The registered shutdown signal was taken out and fired.
    Signalled,
    /// No listener was registered; nothing was done.
    NotRunning,
}

/// What the parser made of the authority's material.
#[derive(Debug, Clone, Copy, PartialEq, Eq, Structural)]
pub enum MaterialVerdict {
    /// It holds no certificate that parses.
    BadCertificate,
    /// It holds a certificate, but no private key that parses.
    BadKey,
    /// It holds both.
    Valid,
}

/// How a start ends, apart from the texts of its errors.
#[derive(Debug, Clone, Copy, PartialEq, Eq)]
pub enum StartKind {
    /// Success: a listener was registered already.
    AlreadyRunning,
    /// Success: a listener is to be launched on the address.
    Launched(BindAddress),
    MalformedCertificate,
    MalformedKey,
}

impl StartKind {
    /// Whether the start reports success to its caller.
    pub open spec fn is_success(self) -> bool {
        self is AlreadyRunning || self is Launched
    }
}

/// The verdict on material of which the certificate parsed if
/// `certificate_ok`, and the key if `key_ok`.
pub open spec fn verdict(certificate_ok: bool, key_ok: bool) -> MaterialVerdict {
    if !certificate_ok {
        MaterialVerdict::BadCertificate
    } else if !key_ok {
        MaterialVerdict::BadKey
    } else {
        MaterialVerdict::Valid
    }
}

/// A start for `port` on a controller that is `active` or not, with
/// material on which the parser came to `verdict`: whether the controller
/// is active afterwards, and how the start ends.
pub open spec fn start_model(active: bool, verdict: MaterialVerdict, port: u16) -> (
    bool,
    StartKind,
) {
    if active {
        (true, StartKind::AlreadyRunning)
    } else {
        match verdict {
            MaterialVerdict::BadCertificate => (false, StartKind::MalformedCertificate),
            MaterialVerdict::BadKey => (false, StartKind::MalformedKey),
            MaterialVerdict::Valid => (true, StartKind::Launched(loopback(port))),
        }
    }
}

/// A controller that is `active` or not after one start for `port` on each
/// of `verdicts`, in order: whether it is active then, and how many of the
/// starts launched a listener.
pub open spec fn after_starts(active: bool, verdicts: Seq<MaterialVerdict>, port: u16) -> (
    bool,
    nat,
)
    decreases verdicts.len(),
{
    if verdicts.len() == 0 {
        (active, 0)
    } else {
        let (before, launched) = after_starts(active, verdicts.drop_last(), port);
        let (now, kind) = start_model(before, verdicts.last(), port);
        (
            now,
            if kind is Launched {
                launched + 1
            } else {
                launched
            },
        )
    }
}

/// A stop on a controller that is `active` or not: whether it is active
/// afterwards (never), and what the stop did.
pub open spec fn stop_model(active: bool) -> (bool, Stopped) {
    (
        false,
        if active {
            Stopped::Signalled
        } else {
            Stopped::NotRunning
        },
    )
}

/// How the result of a start reads as a [`StartKind`].
pub open spec fn kind_of(result: Result<Started, ProxyError>) -> Option<StartKind> {
    match result {
        Ok(Started::AlreadyRunning) => Some(StartKind::AlreadyRunning),
        Ok(Started::Launch(config)) => Some(StartKind::Launched(config.address)),
        Err(ProxyError::MalformedCertificate(_)) => Some(StartKind::MalformedCertificate),
        Err(ProxyError::MalformedKey(_)) => Some(StartKind::MalformedKey),
        Err(_) => None,
    }
}

/// The controller of the single listener.
#[derive(Debug)]
pub struct ProxyManager {
    shutdown_sender: Option<Sender<()>>,
}

/// openssl's `X509::from_pem`: reads the first certificate out of
/// PEM-encoded bytes. Nothing is claimed of the result. The call aborts on
/// input longer than a C `int` can count, which the precondition excludes.
#[verifier::external_body]
fn parse_certificate(pem: &[u8]) -> (parsed: Result<X509, ErrorStack>)
    requires
        pem@.len() <= MAX_MATERIAL_LEN,
{
    X509::from_pem(pem)
}

/// openssl's `PKey::private_key_from_pem`: reads the first private key out
/// of PEM-encoded bytes. Nothing is claimed of the result. The call aborts
/// on input longer than a C `int` can count, which the precondition
/// excludes.
#[verifier::external_body]
fn parse_private_key(pem: &[u8]) -> (parsed: Result<PKey<Private>, ErrorStack>)
    requires
        pem@.len() <= MAX_MATERIAL_LEN,
{
    PKey::private_key_from_pem(pem)
}

/// The text that openssl's `ErrorStack` displays. Nothing is claimed of it.
#[verifier::external_body]
fn error_text(error: &ErrorStack) -> (text: String) {
    error.to_string()
}

/// tokio's `oneshot::channel`: a fresh pair of a sender and its receiver.
#[verifier::external_body]
fn shutdown_channel() -> (pair: (Sender<()>, Receiver<()>)) {
    tokio::sync::oneshot::channel()
}

/// tokio's `oneshot::Sender::send`: completes the receiver, if it is still
/// there. Whether it was is not reported.
#[verifier::external_body]
fn fire(sender: Sender<()>) {
    let _ = sender.send(());
}

impl ProxyManager {
    /// Whether a shutdown signal is registered, that is, whether a listener
    /// was launched and not stopped since.
    pub closed spec fn spec_is_active(&self) -> bool {
        self.shutdown_sender is Some
    }

    /// A controller with no listener.
    pub fn new() -> (manager: ProxyManager)
        ensures
            !manager.is_active(),
    {
        ProxyManager { shutdown_sender: None }
    }

    /// Tells whether a shutdown signal is registered.
    #[verifier::when_used_as_spec(spec_is_active)]
    pub fn is_active(&self) -> (active: bool)
        ensures
            active == self.spec_is_active(),
    {
        self.shutdown_sender.is_some()
    }

    /// Begins a start: decides whether the authority's material has to be
    /// read at all.
    ///
    /// With a listener registered the start has already succeeded, whatever
    /// the arguments. Otherwise a path is needed.
    pub fn start(&self, port: u16, cert_path: Option<String>) -> (request: Result<
        StartRequest,
        ProxyError,
    >)
        ensures
            self.is_active() ==> request matches Ok(StartRequest::AlreadyRunning),
            !self.is_active() && cert_path is None ==> request matches Err(
                ProxyError::CertificatePathNotSet,
            ),
            !self.is_active() && cert_path is Some ==> (request matches Ok(
                StartRequest::Read { port: p, path },
            ) && p == port && path@ == cert_path->0@),
    {
        if self.is_active() {
            return Ok(StartRequest::AlreadyRunning);
        }
        match cert_path {
            None => Err(ProxyError::CertificatePathNotSet),
            Some(path) => Ok(StartRequest::Read { port, path }),
        }
    }

    /// Completes a start with what reading the material gave: the bytes, or
    /// the system's message.
    ///
    /// With a listener registered the start has already succeeded.
    /// Otherwise the certificate and the key are parsed out of the same
    /// bytes, and the start ends as [`start_model`] says of what the parser
    /// found. Only when both parse is a shutdown signal registered and a
    /// listener on the loopback address and `port` asked for. Material that
    /// could not be read, or is too long for the parser, fails the start;
    /// any failure leaves the controller as it was.
    pub fn launch(&mut self, port: u16, material: Result<Vec<u8>, String>) -> (started: Result<
        Started,
        ProxyError,
    >)
        ensures
            old(self).is_active() ==> final(self).is_active() && started matches Ok(
                Started::AlreadyRunning,
            ),
            !old(self).is_active() ==> match material {
                Err(message) => {
                    &&& !final(self).is_active()
                    &&& started matches Err(ProxyError::Unreadable(text))
                    &&& text@ == message@
                },
                Ok(bytes) => {
                    &&& exists|verdict: MaterialVerdict|
                        (final(self).is_active(), kind_of(started)) == (
                            start_model(false, verdict, port).0,
                            Some(start_model(false, verdict, port).1),
                        )
                    &&& bytes@.len() > MAX_MATERIAL_LEN ==> started matches Err(
                        ProxyError::MalformedCertificate(_),
                    )
                },
            },
            started matches Ok(Started::Launch(config)) ==> launches_on(config, port),
    {
        if self.is_active() {
            return Ok(Started::AlreadyRunning);
        }
        match material {
            Err(message) => Err(ProxyError::Unreadable(message)),
            Ok(bytes) => {
                if bytes.len() > MAX_MATERIAL_LEN {
                    assert(start_model(false, MaterialVerdict::BadCertificate, port) == (
                        false,
                        StartKind::MalformedCertificate,
                    ));
                    return Err(
                        ProxyError::MalformedCertificate("certificate file is too large".to_owned()),
                    );
                }
                let certificate = parse_certificate(bytes.as_slice());
                let private_key = match &certificate {
                    Ok(_) => Some(parse_private_key(bytes.as_slice())),
                    Err(_) => None,
                };
                let ghost verdict = verdict(certificate is Ok, private_key matches Some(Ok(_)));
                let started = self.register(port, certificate, private_key);
                assert((self.is_active(), kind_of(started)) == (
                    start_model(false, verdict, port).0,
                    Some(start_model(false, verdict, port).1),
                ));
                started
            },
        }
    }

    /// Decides a start from what the parser made of the material, and
    /// registers the shutdown signal of the listener to be launched.
    ///
    /// `private_key` is `None` where the key was not looked for because the
    /// certificate had not parsed.
    pub fn register(
        &mut self,
        port: u16,
        certificate: Result<X509, ErrorStack>,
        private_key: Option<Result<PKey<Private>, ErrorStack>>,
    ) -> (started: Result<Started, ProxyError>)
        ensures
            (final(self).is_active(), kind_of(started)) == ({
                let (active, kind) = start_model(
                    old(self).is_active(),
                    verdict(certificate is Ok, private_key matches Some(Ok(_))),
                    port,
                );
                (active, Some(kind))
            }),
            started matches Ok(Started::Launch(config)) ==> {
                &&& launches_on(config, port)
                &&& certificate == Ok::<X509, ErrorStack>(config.certificate)
                &&& private_key == Some(Ok::<PKey<Private>, ErrorStack>(config.private_key))
            },
    {
        if self.is_active() {
            return Ok(Started::AlreadyRunning);
        }
        let certificate = match certificate {
            Ok(certificate) => certificate,
            Err(error) => {
                return Err(ProxyError::MalformedCertificate(error_text(&error)));
            },
        };
        let private_key = match private_key {
            Some(Ok(key)) => key,
            Some(Err(error)) => {
                return Err(ProxyError::MalformedKey(error_text(&error)));
            },
            None => {
                return Err(ProxyError::MalformedKey("no private key was read".to_owned()));
            },
        };
        let (sender, shutdown) = shutdown_channel();
        self.shutdown_sender = Some(sender);
        Ok(
            Started::Launch(
                EngineConfig {
                    certificate,
                    private_key,
                    digest: DigestAlgorithm::Sha256,
                    mint_cache_size: MINT_CACHE_SIZE,
                    address: BindAddress { ip: (127, 0, 0, 1), port },
                    shutdown,
                },
            ),
        )
    }

    /// Takes the registered shutdown signal out, if there is one, and fires
    /// it. Never fails, and does not wait for the listener to end.
    pub fn stop(&mut self) -> (stopped: Result<Stopped, ProxyError>)
        ensures
            stopped is Ok,
            (final(self).is_active(), stopped->Ok_0) == stop_model(old(self).is_active()),
    {
        match self.shutdown_sender.take() {
            Some(sender) => {
                fire(sender);
                Ok(Stopped::Signalled)
            },
            None => Ok(Stopped::NotRunning),
        }
    }
}

/// Starting a running controller again, any number of times and whatever
/// the material, succeeds every time, launches nothing and leaves the one
/// listener registered.
pub proof fn law_repeated_start_keeps_one_listener(verdicts: Seq<MaterialVerdict>, port: u16)
    ensures
        after_starts(true, verdicts, port) == (true, 0nat),
        forall|i: int|
            0 <= i < verdicts.len() ==> start_model(
                after_starts(true, #[trigger] verdicts.take(i), port).0,
                verdicts[i],
                port,
            ) == (true, StartKind::AlreadyRunning),
    decreases verdicts.len(),
{
    if verdicts.len() > 0 {
        law_repeated_start_keeps_one_listener(verdicts.drop_last(), port);
    }
    assert forall|i: int| 0 <= i < verdicts.len() implies start_model(
        after_starts(true, #[trigger] verdicts.take(i), port).0,
        verdicts[i],
        port,
    ) == (true, StartKind::AlreadyRunning) by {
        law_repeated_start_keeps_one_listener(verdicts.take(i), port);
    }
}

/// A start with valid material after a stop launches a listener on the
/// loopback address and the port asked for, whatever the controller was
/// before the stop.
pub proof fn law_start_after_stop_launches(active: bool, port: u16)
    ensures
        start_model(stop_model(active).0, MaterialVerdict::Valid, port) == (
            true,
            StartKind::Launched(loopback(port)),
        ),
{
}

/// A start with material that does not parse, on a controller with no
/// listener, fails and leaves the controller without one.
pub proof fn law_malformed_material_launches_nothing(verdict: MaterialVerdict, port: u16)
    requires
        verdict != MaterialVerdict::Valid,
    ensures
        !start_model(false, verdict, port).0,
        !start_model(false, verdict, port).1.is_success(),
        after_starts(false, seq![verdict], port) == (false, 0nat),
{
    reveal_with_fuel(after_starts, 2);
    assert(seq![verdict].drop_last() =~= Seq::<MaterialVerdict>::empty());
}

/// A stop on a controller with no listener signals nothing and changes
/// nothing.
pub proof fn law_stop_without_listener_is_noop()
    ensures
        stop_model(false) == (false, Stopped::NotRunning),
{
}

/// Whether `config` describes a listener on the loopback address and
/// `port`, with the digest and the cache size that this library uses.
pub open spec fn launches_on(config: EngineConfig, port: u16) -> bool {
    &&& config.address == loopback(port)
    &&& config.digest == DigestAlgorithm::Sha256
    &&& config.mint_cache_size == MINT_CACHE_SIZE
}

} // verus!
