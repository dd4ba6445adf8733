//! Installing the authority's certificate into the operating system's trust
//! store.
//!
//! An installation is a short conversation with the host. [`Installer::begin`]
//! names the first [`Effect`]; each [`Outcome`] handed to
//! [`Installer::advance`] yields the next one, until the installation is
//! done. On macOS an unprivileged attempt comes first and an
//! administrator-privileged one follows where it fails; the closing
//! verification can only lower the result to [`Installed::Unconfirmed`],
//! never fail the installation.

use crate::effect::{Effect, EffectView, Invocation, Outcome, OutcomeView};
use crate::error::{AuthorityError, AuthorityErrorView, TrustStoreStep};
use crate::platform::Platform;
use vstd::prelude::*;

verus! {

/// Where the certificate is copied to on Linux.
pub const LINUX_ANCHOR_PATH: &'static str =
    "/usr/local/share/ca-certificates/mitmproxy-desktop.crt";

/// The effect whose outcome an [`Installer`] waits for.
#[derive(Debug, Clone, Copy, PartialEq, Eq, Structural)]
pub enum InstallStage {
    /// macOS: import into the user's login keychain.
    Import,
    /// macOS: import into the system keychain, as administrator.
    ImportEscalated,
    /// macOS: mark as a trusted root for TLS.
    Trust,
    /// macOS: mark as a trusted root for TLS, as administrator.
    TrustEscalated,
    /// macOS: read-only verification.
    Verify,
    /// Linux: copy into the trust-anchor directory.
    CopyAnchor,
    /// Linux: refresh the trust anchors.
    RefreshAnchors,
    /// Windows: add to the machine-wide root store.
    AddToStore,
}

/// How a finished installation stands.
#[derive(Debug, Clone, Copy, PartialEq, Eq, Structural)]
pub enum Installed {
    /// Every step succeeded.
    Trusted,
    /// The certificate was installed, but the closing verification did not
    /// confirm it: the trust settings may need a manual look.
    Unconfirmed,
}

/// An installation under way.
#[derive(Debug)]
pub struct Installer {
    stage: InstallStage,
    cert_path: String,
    login_keychain: String,
}

/// The mathematical value of an [`Installer`].
pub struct InstallerView {
    pub stage: InstallStage,
    pub cert_path: Seq<char>,
    pub login_keychain: Seq<char>,
}

impl View for Installer {
    type V = InstallerView;

    closed spec fn view(&self) -> InstallerView {
        InstallerView {
            stage: self.stage,
            cert_path: self.cert_path@,
            login_keychain: self.login_keychain@,
        }
    }
}

/// What an installation asks for next.
#[derive(Debug)]
pub enum InstallStep {
    /// Perform the effect and hand its outcome to the installer.
    Next(Installer, Effect),
    /// The installation is over.
    Done(Result<Installed, AuthorityError>),
}

/// The mathematical value of an [`InstallStep`].
pub enum InstallStepView {
    Next(InstallerView, EffectView),
    Done(Result<Installed, AuthorityErrorView>),
}

impl View for InstallStep {
    type V = InstallStepView;

    open spec fn view(&self) -> InstallStepView {
        match self {
            InstallStep::Next(installer, effect) => InstallStepView::Next(installer@, effect@),
            InstallStep::Done(Ok(installed)) => InstallStepView::Done(Ok(*installed)),
            InstallStep::Done(Err(e)) => InstallStepView::Done(Err(e@)),
        }
    }
}

/// The user's login keychain, given the home directory.
pub open spec fn login_keychain(home: Seq<char>) -> Seq<char> {
    home + "/Library/Keychains/login.keychain-db"@
}

/// macOS: import the certificate into the login keychain.
pub open spec fn import_command(cert_path: Seq<char>, keychain: Seq<char>) -> Seq<Seq<char>> {
    seq![
        "security"@,
        "import"@,
        cert_path,
        "-k"@,
        keychain,
        "-t"@,
        "cert"@,
        "-f"@,
        "pemseq"@,
    ]
}

/// macOS: import the certificate into the system keychain through a shell
/// run with administrator privileges.
pub open spec fn escalated_import_command(cert_path: Seq<char>) -> Seq<Seq<char>> {
    seq![
        "osascript"@,
        "-e"@,
        "do shell script \"security import '"@ + cert_path
            + "' -k /Library/Keychains/System.keychain -t cert -f pemseq\" with administrator privileges"@,
    ]
}

/// macOS: mark the certificate as a trusted root for TLS.
pub open spec fn trust_command(cert_path: Seq<char>, keychain: Seq<char>) -> Seq<Seq<char>> {
    seq![
        "security"@,
        "add-trusted-cert"@,
        "-d"@,
        "-r"@,
        "trustRoot"@,
        "-p"@,
        "ssl"@,
        "-k"@,
        keychain,
        cert_path,
    ]
}

/// macOS: mark the certificate as a trusted root in the system keychain
/// through a shell run with administrator privileges.
pub open spec fn escalated_trust_command(cert_path: Seq<char>) -> Seq<Seq<char>> {
    seq![
        "osascript"@,
        "-e"@,
        "do shell script \"security add-trusted-cert -d -r trustRoot -p ssl -k /Library/Keychains/System.keychain '"@
            + cert_path + "'\" with administrator privileges"@,
    ]
}

/// macOS: check, without changing anything, that the certificate verifies
/// for TLS.
pub open spec fn verify_command(cert_path: Seq<char>) -> Seq<Seq<char>> {
    seq!["security"@, "verify-cert"@, "-c"@, cert_path, "-p"@, "ssl"@]
}

/// Linux: refresh the system's trust anchors.
pub open spec fn refresh_command() -> Seq<Seq<char>> {
    seq!["update-ca-certificates"@]
}

/// Windows: add the certificate to the machine-wide trusted-root store.
pub open spec fn add_to_store_command(cert_path: Seq<char>) -> Seq<Seq<char>> {
    seq!["certutil"@, "-addstore"@, "ROOT"@, cert_path]
}

/// The failure of the trust-store command at `step` whose outcome was
/// `outcome`.
pub open spec fn command_failure(step: TrustStoreStep, outcome: OutcomeView) -> InstallStepView {
    InstallStepView::Done(
        Err(AuthorityErrorView::TrustStore { step, output: outcome.diagnostics() }),
    )
}

/// The first step of an installation of the certificate at `cert_path`.
///
/// macOS needs the user's home directory to find the login keychain; the
/// other platforms do not look at `home`.
pub open spec fn install_begin(
    platform: Platform,
    cert_path: Seq<char>,
    home: Option<Seq<char>>,
) -> InstallStepView {
    match platform {
        Platform::MacOs => match home {
            None => InstallStepView::Done(Err(AuthorityErrorView::HomeNotSet)),
            Some(home) => InstallStepView::Next(
                InstallerView {
                    stage: InstallStage::Import,
                    cert_path,
                    login_keychain: login_keychain(home),
                },
                EffectView::Run(import_command(cert_path, login_keychain(home))),
            ),
        },
        Platform::Linux => InstallStepView::Next(
            InstallerView {
                stage: InstallStage::CopyAnchor,
                cert_path,
                login_keychain: Seq::empty(),
            },
            EffectView::CopyFile { from: cert_path, to: LINUX_ANCHOR_PATH@ },
        ),
        Platform::Windows => InstallStepView::Next(
            InstallerView {
                stage: InstallStage::AddToStore,
                cert_path,
                login_keychain: Seq::empty(),
            },
            EffectView::Run(add_to_store_command(cert_path)),
        ),
    }
}

/// The step that follows when the effect the installer waited for ended
/// with `outcome`.
pub open spec fn install_next(installer: InstallerView, outcome: OutcomeView) -> InstallStepView {
    let cert_path = installer.cert_path;
    let keychain = installer.login_keychain;
    let at = |stage: InstallStage, words: Seq<Seq<char>>|
        InstallStepView::Next(
            InstallerView { stage, cert_path, login_keychain: keychain },
            EffectView::Run(words),
        );
    match installer.stage {
        InstallStage::Import => if outcome.succeeded() {
            at(InstallStage::Trust, trust_command(cert_path, keychain))
        } else if outcome is Failed {
            command_failure(TrustStoreStep::Import, outcome)
        } else {
            at(InstallStage::ImportEscalated, escalated_import_command(cert_path))
        },
        InstallStage::ImportEscalated => if outcome.succeeded() {
            at(InstallStage::Trust, trust_command(cert_path, keychain))
        } else {
            command_failure(TrustStoreStep::Import, outcome)
        },
        InstallStage::Trust => if outcome.succeeded() {
            at(InstallStage::Verify, verify_command(cert_path))
        } else if outcome is Failed {
            command_failure(TrustStoreStep::Trust, outcome)
        } else {
            at(InstallStage::TrustEscalated, escalated_trust_command(cert_path))
        },
        InstallStage::TrustEscalated => if outcome.succeeded() {
            at(InstallStage::Verify, verify_command(cert_path))
        } else {
            command_failure(TrustStoreStep::Trust, outcome)
        },
        InstallStage::Verify => if outcome.succeeded() {
            InstallStepView::Done(Ok(Installed::Trusted))
        } else {
            InstallStepView::Done(Ok(Installed::Unconfirmed))
        },
        InstallStage::CopyAnchor => if outcome.succeeded() {
            at(InstallStage::RefreshAnchors, refresh_command())
        } else {
            InstallStepView::Done(Err(AuthorityErrorView::Filesystem(outcome.diagnostics())))
        },
        InstallStage::RefreshAnchors => if outcome.succeeded() {
            InstallStepView::Done(Ok(Installed::Trusted))
        } else {
            command_failure(TrustStoreStep::Refresh, outcome)
        },
        InstallStage::AddToStore => if outcome.succeeded() {
            InstallStepView::Done(Ok(Installed::Trusted))
        } else {
            command_failure(TrustStoreStep::AddToStore, outcome)
        },
    }
}

/// The closing verification decides between the two ways an installation
/// can stand; whatever its outcome, the installation has succeeded.
pub proof fn law_verification_never_fails(installer: InstallerView, outcome: OutcomeView)
    requires
        installer.stage == InstallStage::Verify,
    ensures
        install_next(installer, outcome) == InstallStepView::Done(
            Ok(
                if outcome.succeeded() {
                    Installed::Trusted
                } else {
                    Installed::Unconfirmed
                },
            ),
        ),
{
}

/// Outside the two unprivileged steps, which a privileged attempt follows,
/// and the closing verification, an effect that did not succeed ends the
/// installation with an error. At the two unprivileged steps a command
/// that could not be run at all does so too.
pub proof fn law_failure_without_escalation_is_fatal(installer: InstallerView, outcome: OutcomeView)
    requires
        !outcome.succeeded(),
        installer.stage != InstallStage::Verify,
        installer.stage == InstallStage::Import || installer.stage == InstallStage::Trust
            ==> outcome is Failed,
    ensures
        install_next(installer, outcome) is Done,
        install_next(installer, outcome)->Done_0 is Err,
{
}

impl Installer {
    /// Starts installing the certificate at `cert_path`.
    pub fn begin(platform: Platform, cert_path: &str, home: Option<&str>) -> (step: InstallStep)
        ensures
            step@ == install_begin(
                platform,
                cert_path@,
                match home {
                    Some(h) => Some(h@),
                    None => None,
                },
            ),
    {
        match platform {
            Platform::MacOs => match home {
                None => InstallStep::Done(Err(AuthorityError::HomeNotSet)),
                Some(home) => {
                    let mut keychain = home.to_owned();
                    keychain.append("/Library/Keychains/login.keychain-db");
                    let command = make_import(cert_path, keychain.as_str());
                    InstallStep::Next(
                        Installer {
                            stage: InstallStage::Import,
                            cert_path: cert_path.to_owned(),
                            login_keychain: keychain,
                        },
                        Effect::Run(command),
                    )
                },
            },
            Platform::Linux => InstallStep::Next(
                Installer {
                    stage: InstallStage::CopyAnchor,
                    cert_path: cert_path.to_owned(),
                    login_keychain: String::new(),
                },
                Effect::CopyFile { from: cert_path.to_owned(), to: LINUX_ANCHOR_PATH.to_owned() },
            ),
            Platform::Windows => InstallStep::Next(
                Installer {
                    stage: InstallStage::AddToStore,
                    cert_path: cert_path.to_owned(),
                    login_keychain: String::new(),
                },
                Effect::Run(make_add_to_store(cert_path)),
            ),
        }
    }

    /// The effect whose outcome the installer waits for.
    pub fn stage(&self) -> (stage: InstallStage)
        ensures
            stage == self@.stage,
    {
        self.stage
    }

    /// Takes the outcome of the effect that was asked for last and decides
    /// how the installation goes on.
    pub fn advance(self, outcome: &Outcome) -> (step: InstallStep)
        ensures
            step@ == install_next(self@, outcome@),
    {
        let ok = outcome.succeeded();
        match self.stage {
            InstallStage::Import => if ok {
                let command = make_trust(self.cert_path.as_str(), self.login_keychain.as_str());
                self.wait_for(InstallStage::Trust, command)
            } else {
                match outcome {
                    Outcome::Failed(_) => failed_command(TrustStoreStep::Import, outcome),
                    Outcome::Completed { .. } => {
                        let command = make_escalated_import(self.cert_path.as_str());
                        self.wait_for(InstallStage::ImportEscalated, command)
                    },
                }
            },
            InstallStage::ImportEscalated => if ok {
                let command = make_trust(self.cert_path.as_str(), self.login_keychain.as_str());
                self.wait_for(InstallStage::Trust, command)
            } else {
                failed_command(TrustStoreStep::Import, outcome)
            },
            InstallStage::Trust => if ok {
                let command = make_verify(self.cert_path.as_str());
                self.wait_for(InstallStage::Verify, command)
            } else {
                match outcome {
                    Outcome::Failed(_) => failed_command(TrustStoreStep::Trust, outcome),
                    Outcome::Completed { .. } => {
                        let command = make_escalated_trust(self.cert_path.as_str());
                        self.wait_for(InstallStage::TrustEscalated, command)
                    },
                }
            },
            InstallStage::TrustEscalated => if ok {
                let command = make_verify(self.cert_path.as_str());
                self.wait_for(InstallStage::Verify, command)
            } else {
                failed_command(TrustStoreStep::Trust, outcome)
            },
            InstallStage::Verify => if ok {
                InstallStep::Done(Ok(Installed::Trusted))
            } else {
                InstallStep::Done(Ok(Installed::Unconfirmed))
            },
            InstallStage::CopyAnchor => if ok {
                self.wait_for(InstallStage::RefreshAnchors, make_refresh())
            } else {
                InstallStep::Done(Err(AuthorityError::Filesystem(outcome.diagnostics())))
            },
            InstallStage::RefreshAnchors => if ok {
                InstallStep::Done(Ok(Installed::Trusted))
            } else {
                failed_command(TrustStoreStep::Refresh, outcome)
            },
            InstallStage::AddToStore => if ok {
                InstallStep::Done(Ok(Installed::Trusted))
            } else {
                failed_command(TrustStoreStep::AddToStore, outcome)
            },
        }
    }

    /// The installer moved on to `stage`, asking for `command` to be run.
    fn wait_for(self, stage: InstallStage, command: Invocation) -> (step: InstallStep)
        ensures
            step@ == InstallStepView::Next(
                InstallerView {
                    stage,
                    cert_path: self@.cert_path,
                    login_keychain: self@.login_keychain,
                },
                EffectView::Run(command@),
            ),
    {
        InstallStep::Next(
            Installer { stage, cert_path: self.cert_path, login_keychain: self.login_keychain },
            Effect::Run(command),
        )
    }
}

fn failed_command(step: TrustStoreStep, outcome: &Outcome) -> (done: InstallStep)
    ensures
        done@ == command_failure(step, outcome@),
{
    InstallStep::Done(Err(AuthorityError::TrustStore { step, output: outcome.diagnostics() }))
}

fn make_import(cert_path: &str, keychain: &str) -> (command: Invocation)
    ensures
        command@ == import_command(cert_path@, keychain@),
{
    let command = Invocation::new("security").arg("import").arg(cert_path).arg("-k").arg(
        keychain,
    ).arg("-t").arg("cert").arg("-f").arg("pemseq");
    assert(command@ =~= import_command(cert_path@, keychain@));
    command
}

fn make_escalated_import(cert_path: &str) -> (command: Invocation)
    ensures
        command@ == escalated_import_command(cert_path@),
{
    let mut script = "do shell script \"security import '".to_owned();
    script.append(cert_path);
    script.append(
        "' -k /Library/Keychains/System.keychain -t cert -f pemseq\" with administrator privileges",
    );
    let command = Invocation::new("osascript").arg("-e").arg(script.as_str());
    assert(command@ =~= escalated_import_command(cert_path@));
    command
}

fn make_trust(cert_path: &str, keychain: &str) -> (command: Invocation)
    ensures
        command@ == trust_command(cert_path@, keychain@),
{
    let command = Invocation::new("security").arg("add-trusted-cert").arg("-d").arg("-r").arg(
        "trustRoot",
    ).arg("-p").arg("ssl").arg("-k").arg(keychain).arg(cert_path);
    assert(command@ =~= trust_command(cert_path@, keychain@));
    command
}

fn make_escalated_trust(cert_path: &str) -> (command: Invocation)
    ensures
        command@ == escalated_trust_command(cert_path@),
{
    let mut script =
        "do shell script \"security add-trusted-cert -d -r trustRoot -p ssl -k /Library/Keychains/System.keychain '".to_owned();
    script.append(cert_path);
    script.append("'\" with administrator privileges");
    let command = Invocation::new("osascript").arg("-e").arg(script.as_str());
    assert(command@ =~= escalated_trust_command(cert_path@));
    command
}

fn make_verify(cert_path: &str) -> (command: Invocation)
    ensures
        command@ == verify_command(cert_path@),
{
    let command = Invocation::new("security").arg("verify-cert").arg("-c").arg(cert_path).arg(
        "-p",
    ).arg("ssl");
    assert(command@ =~= verify_command(cert_path@));
    command
}

fn make_refresh() -> (command: Invocation)
    ensures
        command@ == refresh_command(),
{
    Invocation::new("update-ca-certificates")
}

fn make_add_to_store(cert_path: &str) -> (command: Invocation)
    ensures
        command@ == add_to_store_command(cert_path@),
{
    let command = Invocation::new("certutil").arg("-addstore").arg("ROOT").arg(cert_path);
    assert(command@ =~= add_to_store_command(cert_path@));
    command
}

} // verus!
