use mitmproxy_desktop::effect::{Effect, Invocation, Outcome};
use mitmproxy_desktop::error::{AuthorityError, TrustStoreStep};
use mitmproxy_desktop::install::{InstallStage, InstallStep, Installed, Installer, LINUX_ANCHOR_PATH};
use mitmproxy_desktop::platform::Platform;

const CERT: &str = "/home/alice/.config/desktop/ca.crt";

fn words(inv: &Invocation) -> Vec<String> {
    let mut all = vec![inv.program.clone()];
    all.extend(inv.args.iter().cloned());
    all
}

fn ok() -> Outcome {
    Outcome::Completed { success: true, stdout: String::new(), stderr: String::new() }
}

fn exit_failure(stdout: &str, stderr: &str) -> Outcome {
    Outcome::Completed { success: false, stdout: stdout.to_owned(), stderr: stderr.to_owned() }
}

fn missing(message: &str) -> Outcome {
    Outcome::Failed(message.to_owned())
}

fn command(step: &InstallStep) -> Vec<String> {
    match step {
        InstallStep::Next(_, Effect::Run(inv)) => words(inv),
        other => panic!("expected a command, got {:?}", other),
    }
}

fn stage(step: &InstallStep) -> InstallStage {
    match step {
        InstallStep::Next(installer, _) => installer.stage(),
        other => panic!("expected a step, got {:?}", other),
    }
}

fn advance(step: InstallStep, outcome: &Outcome) -> InstallStep {
    match step {
        InstallStep::Next(installer, _) => installer.advance(outcome),
        InstallStep::Done(_) => panic!("the installation is over"),
    }
}

fn failure(step: &InstallStep) -> (TrustStoreStep, String) {
    match step {
        InstallStep::Done(Err(AuthorityError::TrustStore { step, output })) => (*step, output.clone()),
        other => panic!("expected a trust-store failure, got {:?}", other),
    }
}

fn mac() -> InstallStep {
    Installer::begin(Platform::MacOs, "/Users/a/ca.crt", Some("/Users/a"))
}

#[test]
fn macos_needs_the_home_directory() {
    let step = Installer::begin(Platform::MacOs, CERT, None);
    assert!(matches!(step, InstallStep::Done(Err(AuthorityError::HomeNotSet))));
}

#[test]
fn macos_happy_path() {
    let step = mac();
    assert_eq!(stage(&step), InstallStage::Import);
    assert_eq!(
        command(&step),
        vec![
            "security",
            "import",
            "/Users/a/ca.crt",
            "-k",
            "/Users/a/Library/Keychains/login.keychain-db",
            "-t",
            "cert",
            "-f",
            "pemseq"
        ]
    );
    let step = advance(step, &ok());
    assert_eq!(stage(&step), InstallStage::Trust);
    assert_eq!(
        command(&step),
        vec![
            "security",
            "add-trusted-cert",
            "-d",
            "-r",
            "trustRoot",
            "-p",
            "ssl",
            "-k",
            "/Users/a/Library/Keychains/login.keychain-db",
            "/Users/a/ca.crt"
        ]
    );
    let step = advance(step, &ok());
    assert_eq!(stage(&step), InstallStage::Verify);
    assert_eq!(command(&step), vec!["security", "verify-cert", "-c", "/Users/a/ca.crt", "-p", "ssl"]);
    let step = advance(step, &ok());
    assert!(matches!(step, InstallStep::Done(Ok(Installed::Trusted))));
}

#[test]
fn macos_escalates_a_refused_import() {
    let step = advance(mac(), &exit_failure("", "denied"));
    assert_eq!(stage(&step), InstallStage::ImportEscalated);
    assert_eq!(
        command(&step),
        vec![
            "osascript",
            "-e",
            "do shell script \"security import '/Users/a/ca.crt' -k /Library/Keychains/System.keychain -t cert -f pemseq\" with administrator privileges"
        ]
    );
    let trusted = advance(step, &ok());
    assert_eq!(stage(&trusted), InstallStage::Trust);
}

#[test]
fn macos_import_fails_when_escalation_fails() {
    let step = advance(mac(), &exit_failure("", "denied"));
    let done = advance(step, &exit_failure("out", "err"));
    assert_eq!(failure(&done), (TrustStoreStep::Import, "outerr".to_owned()));

    let step = advance(mac(), &exit_failure("", "denied"));
    let done = advance(step, &missing("osascript: not found"));
    assert_eq!(failure(&done), (TrustStoreStep::Import, "osascript: not found".to_owned()));
}

#[test]
fn macos_import_fails_at_once_when_the_tool_is_missing() {
    let done = advance(mac(), &missing("security: not found"));
    assert_eq!(failure(&done), (TrustStoreStep::Import, "security: not found".to_owned()));
}

#[test]
fn macos_escalates_a_refused_trust() {
    let step = advance(advance(mac(), &ok()), &exit_failure("", ""));
    assert_eq!(stage(&step), InstallStage::TrustEscalated);
    assert_eq!(
        command(&step),
        vec![
            "osascript",
            "-e",
            "do shell script \"security add-trusted-cert -d -r trustRoot -p ssl -k /Library/Keychains/System.keychain '/Users/a/ca.crt'\" with administrator privileges"
        ]
    );
    let verify = advance(step, &ok());
    assert_eq!(stage(&verify), InstallStage::Verify);
}

#[test]
fn macos_trust_fails_when_escalation_fails() {
    let step = advance(advance(mac(), &ok()), &exit_failure("", ""));
    let done = advance(step, &exit_failure("", "cancelled"));
    assert_eq!(failure(&done), (TrustStoreStep::Trust, "cancelled".to_owned()));

    let done = advance(advance(mac(), &ok()), &missing("gone"));
    assert_eq!(failure(&done), (TrustStoreStep::Trust, "gone".to_owned()));
}

#[test]
fn macos_verification_never_fails_the_installation() {
    for outcome in [exit_failure("", "CSSMERR_TP_NOT_TRUSTED"), missing("gone")] {
        let step = advance(advance(mac(), &ok()), &ok());
        let done = advance(step, &outcome);
        assert!(matches!(done, InstallStep::Done(Ok(Installed::Unconfirmed))));
    }
}

#[test]
fn linux_copies_then_refreshes() {
    let step = Installer::begin(Platform::Linux, CERT, None);
    assert_eq!(stage(&step), InstallStage::CopyAnchor);
    match &step {
        InstallStep::Next(_, Effect::CopyFile { from, to }) => {
            assert_eq!(from, CERT);
            assert_eq!(to, "/usr/local/share/ca-certificates/mitmproxy-desktop.crt");
            assert_eq!(to, LINUX_ANCHOR_PATH);
        }
        other => panic!("{:?}", other),
    }
    let step = advance(step, &ok());
    assert_eq!(stage(&step), InstallStage::RefreshAnchors);
    assert_eq!(command(&step), vec!["update-ca-certificates"]);
    let done = advance(step, &ok());
    assert!(matches!(done, InstallStep::Done(Ok(Installed::Trusted))));
}

#[test]
fn linux_copy_failure_is_a_filesystem_error() {
    let step = Installer::begin(Platform::Linux, CERT, Some("/home/alice"));
    let done = advance(step, &missing("Permission denied (os error 13)"));
    match done {
        InstallStep::Done(Err(AuthorityError::Filesystem(text))) => {
            assert_eq!(text, "Permission denied (os error 13)")
        }
        other => panic!("{:?}", other),
    }
}

#[test]
fn linux_refresh_failure_is_fatal() {
    let step = advance(Installer::begin(Platform::Linux, CERT, None), &ok());
    let done = advance(step, &exit_failure("a", "b"));
    assert_eq!(failure(&done), (TrustStoreStep::Refresh, "ab".to_owned()));

    let step = advance(Installer::begin(Platform::Linux, CERT, None), &ok());
    let done = advance(step, &missing("not found"));
    assert_eq!(failure(&done), (TrustStoreStep::Refresh, "not found".to_owned()));
}

#[test]
fn windows_adds_to_the_root_store() {
    let step = Installer::begin(Platform::Windows, "C:\\cfg\\ca.crt", None);
    assert_eq!(stage(&step), InstallStage::AddToStore);
    assert_eq!(command(&step), vec!["certutil", "-addstore", "ROOT", "C:\\cfg\\ca.crt"]);
    let done = advance(step, &ok());
    assert!(matches!(done, InstallStep::Done(Ok(Installed::Trusted))));
}

#[test]
fn windows_failure_is_fatal() {
    let step = Installer::begin(Platform::Windows, "C:\\cfg\\ca.crt", None);
    let done = advance(step, &exit_failure("CertUtil: -addstore command FAILED", ""));
    assert_eq!(
        failure(&done),
        (TrustStoreStep::AddToStore, "CertUtil: -addstore command FAILED".to_owned())
    );
}
