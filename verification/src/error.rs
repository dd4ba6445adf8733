//! The two kinds of failure a user gets to see.

use vstd::prelude::*;

verus! {

/// The step of a trust-store installation at which a command failed.
#[derive(Debug, Clone, Copy, PartialEq, Eq, Structural)]
pub enum TrustStoreStep {
    /// Importing the certificate into a keychain.
    Import,
    /// Marking the imported certificate as a trusted root.
    Trust,
    /// Refreshing the system's trust anchors.
    Refresh,
    /// Adding the certificate to the machine-wide root store.
    AddToStore,
}

impl TrustStoreStep {
    /// The sentence that names the failure of this step.
    pub open spec fn spec_summary(self) -> Seq<char> {
        match self {
            TrustStoreStep::Import => "Failed to import certificate to keychain"@,
            TrustStoreStep::Trust =>
                "Failed to trust certificate. Please open Keychain Access and trust the certificate manually."@,
            TrustStoreStep::Refresh => "Failed to update CA certificates"@,
            TrustStoreStep::AddToStore => "Failed to install CA certificate"@,
        }
    }

    /// The sentence that names the failure of this step.
    pub fn summary(self) -> (text: &'static str)
        ensures
            text@ == self.spec_summary(),
    {
        match self {
            TrustStoreStep::Import => "Failed to import certificate to keychain",
            TrustStoreStep::Trust =>
                "Failed to trust certificate. Please open Keychain Access and trust the certificate manually.",
            TrustStoreStep::Refresh => "Failed to update CA certificates",
            TrustStoreStep::AddToStore => "Failed to install CA certificate",
        }
    }
}

/// Generating the authority, or installing it into the trust store, failed.
#[derive(Debug)]
pub enum AuthorityError {
    /// No per-user configuration directory could be determined.
    NoProjectDirectories,
    /// The user's home directory is not known.
    HomeNotSet,
    /// The file system refused; the text is its message.
    Filesystem(String),
    /// The key pair or the certificate could not be made; the text says why.
    Generation(String),
    /// A trust-store command was missing or exited with a failure. `output`
    /// is the system's message or what the command printed.
    TrustStore { step: TrustStoreStep, output: String },
}

/// The mathematical value of an [`AuthorityError`].
pub enum AuthorityErrorView {
    NoProjectDirectories,
    HomeNotSet,
    Filesystem(Seq<char>),
    Generation(Seq<char>),
    TrustStore { step: TrustStoreStep, output: Seq<char> },
}

impl AuthorityErrorView {
    /// The text shown to the user: the failed step's sentence, followed by a
    /// colon and the captured output where there is any.
    pub open spec fn message(self) -> Seq<char> {
        match self {
            AuthorityErrorView::NoProjectDirectories => "Failed to get project directories"@,
            AuthorityErrorView::HomeNotSet => "Failed to get HOME directory"@,
            AuthorityErrorView::Filesystem(text) => text,
            AuthorityErrorView::Generation(text) => text,
            AuthorityErrorView::TrustStore { step, output } => if output.len() == 0 {
                step.spec_summary()
            } else {
                step.spec_summary() + ": "@ + output
            },
        }
    }
}

impl View for AuthorityError {
    type V = AuthorityErrorView;

    open spec fn view(&self) -> AuthorityErrorView {
        match self {
            AuthorityError::NoProjectDirectories => AuthorityErrorView::NoProjectDirectories,
            AuthorityError::HomeNotSet => AuthorityErrorView::HomeNotSet,
            AuthorityError::Filesystem(text) => AuthorityErrorView::Filesystem(text@),
            AuthorityError::Generation(text) => AuthorityErrorView::Generation(text@),
            AuthorityError::TrustStore { step, output } => AuthorityErrorView::TrustStore {
                step: *step,
                output: output@,
            },
        }
    }
}

impl AuthorityError {
    /// The text shown to the user.
    pub fn message(&self) -> (text: String)
        ensures
            text@ == self@.message(),
    {
        match self {
            AuthorityError::NoProjectDirectories => "Failed to get project directories".to_owned(),
            AuthorityError::HomeNotSet => "Failed to get HOME directory".to_owned(),
            AuthorityError::Filesystem(text) => text.clone(),
            AuthorityError::Generation(text) => text.clone(),
            AuthorityError::TrustStore { step, output } => {
                let mut text = step.summary().to_owned();
                if !output.as_str().is_empty() {
                    text.append(": ");
                    text.append(output.as_str());
                }
                text
            },
        }
    }
}

/// Starting or stopping the listener failed.
#[derive(Debug)]
pub enum ProxyError {
    /// No path to the authority's material was given.
    CertificatePathNotSet,
    /// The material could not be read; the text is the system's message.
    Unreadable(String),
    /// The material holds no certificate that parses; the text says why.
    MalformedCertificate(String),
    /// The material holds no private key that parses; the text says why.
    MalformedKey(String),
    /// The interception engine refused to be built; the text says why.
    Engine(String),
}

/// The mathematical value of a [`ProxyError`].
pub enum ProxyErrorView {
    CertificatePathNotSet,
    Unreadable(Seq<char>),
    MalformedCertificate(Seq<char>),
    MalformedKey(Seq<char>),
    Engine(Seq<char>),
}

impl ProxyErrorView {
    /// The text shown to the user.
    pub open spec fn message(self) -> Seq<char> {
        match self {
            ProxyErrorView::CertificatePathNotSet => "Certificate path not set"@,
            ProxyErrorView::Unreadable(text) => text,
            ProxyErrorView::MalformedCertificate(text) => text,
            ProxyErrorView::MalformedKey(text) => text,
            ProxyErrorView::Engine(text) => text,
        }
    }
}

impl View for ProxyError {
    type V = ProxyErrorView;

    open spec fn view(&self) -> ProxyErrorView {
        match self {
            ProxyError::CertificatePathNotSet => ProxyErrorView::CertificatePathNotSet,
            ProxyError::Unreadable(text) => ProxyErrorView::Unreadable(text@),
            ProxyError::MalformedCertificate(text) => ProxyErrorView::MalformedCertificate(text@),
            ProxyError::MalformedKey(text) => ProxyErrorView::MalformedKey(text@),
            ProxyError::Engine(text) => ProxyErrorView::Engine(text@),
        }
    }
}

impl ProxyError {
    /// The text shown to the user.
    pub fn message(&self) -> (text: String)
        ensures
            text@ == self@.message(),
    {
        match self {
            ProxyError::CertificatePathNotSet => "Certificate path not set".to_owned(),
            ProxyError::Unreadable(text) => text.clone(),
            ProxyError::MalformedCertificate(text) => text.clone(),
            ProxyError::MalformedKey(text) => text.clone(),
            ProxyError::Engine(text) => text.clone(),
        }
    }
}

} // verus!
