use mitmproxy_desktop::cleanup::{
    make_probe, parse_hashes, parse_keychains, verify_cert_in_keychain, CleanupOutcome,
    CleanupPass, CleanupStage, CleanupStep, CA_NAME,
};
use mitmproxy_desktop::effect::{Effect, Invocation, Outcome};

fn words(inv: &Invocation) -> Vec<String> {
    let mut all = vec![inv.program.clone()];
    all.extend(inv.args.iter().cloned());
    all
}

fn printed(stdout: &str) -> Outcome {
    Outcome::Completed { success: true, stdout: stdout.to_owned(), stderr: String::new() }
}

fn command(step: &CleanupStep) -> Vec<String> {
    match step {
        CleanupStep::Next(_, Effect::Run(inv)) => words(inv),
        other => panic!("expected a command, got {:?}", other),
    }
}

fn advance(step: CleanupStep, outcome: &Outcome) -> CleanupStep {
    match step {
        CleanupStep::Next(pass, _) => pass.advance(outcome),
        CleanupStep::Done(_) => panic!("the pass is over"),
    }
}

fn begin() -> CleanupStep {
    let (pass, effect) = CleanupPass::begin();
    CleanupStep::Next(pass, effect)
}

const LISTING: &str = "    \"/Users/alice/Library/Keychains/login.keychain-db\"\n    \"/Library/Keychains/System.keychain\"\n";

const FOUND_TWO: &str = "SHA-256 hash: 11223344\nSHA-1 hash: AAAA1111\nkeychain: \"/Users/alice/Library/Keychains/login.keychain-db\"\n    \"labl\"<blob>=\"Mitmproxy Desktop Root CA\"\nSHA-256 hash: 55667788\nSHA-1 hash: BBBB2222\n";

#[test]
fn the_common_name_is_fixed() {
    assert_eq!(CA_NAME, "Mitmproxy Desktop Root CA");
}

#[test]
fn probe_command_is_exact() {
    assert_eq!(words(&make_probe()), vec!["security", "find-identity", "-p", "ssl", "-a"]);
}

#[test]
fn verify_cert_in_keychain_reads_the_probe() {
    assert_eq!(
        verify_cert_in_keychain(&printed("  1) ABCD \"Mitmproxy Desktop Root CA\"\n")),
        Ok(true)
    );
    assert_eq!(verify_cert_in_keychain(&printed("     0 valid identities found\n")), Ok(false));
    assert_eq!(
        verify_cert_in_keychain(&Outcome::Completed {
            success: false,
            stdout: "Mitmproxy Desktop Root CA".to_owned(),
            stderr: String::new(),
        }),
        Ok(true)
    );
    assert_eq!(
        verify_cert_in_keychain(&Outcome::Failed("No such file or directory".to_owned())),
        Err("No such file or directory".to_owned())
    );
}

#[test]
fn parse_keychains_strips_space_and_quotes() {
    assert_eq!(
        parse_keychains(LISTING),
        vec!["/Users/alice/Library/Keychains/login.keychain-db", "/Library/Keychains/System.keychain"]
    );
}

#[test]
fn parse_keychains_drops_lines_without_the_word() {
    assert_eq!(
        parse_keychains("\n  \"/tmp/other.db\"\n\"a.keychain\"\r\nkeychain\n\"\"\n"),
        vec!["a.keychain", "keychain"]
    );
    assert!(parse_keychains("").is_empty());
}

#[test]
fn parse_keychains_agrees_with_the_standard_library() {
    for text in [LISTING, "", "\"x.keychain\"", " \"\"y.keychain-db\"\" \r\n z \n", "keychain\r"] {
        let expected: Vec<String> = text
            .lines()
            .filter_map(|line| {
                let cleaned = line.trim().trim_matches('"');
                if cleaned.contains("keychain") {
                    Some(cleaned.to_string())
                } else {
                    None
                }
            })
            .collect();
        assert_eq!(parse_keychains(text), expected, "{:?}", text);
    }
}

#[test]
fn parse_hashes_takes_the_last_word_of_hash_lines() {
    assert_eq!(parse_hashes(FOUND_TWO), vec!["AAAA1111", "BBBB2222"]);
    assert!(parse_hashes("SHA-256 hash: 11\n sha-1 hash: 22\n SHA-1 hash: 33\n").is_empty());
    assert_eq!(parse_hashes("SHA-1 hash:\n"), vec!["hash:"]);
    assert_eq!(parse_hashes("SHA-1 hash: AB CD\r\n"), vec!["CD"]);
}

#[test]
fn a_clean_store_needs_no_deletion() {
    let first = begin();
    assert_eq!(command(&first), vec!["security", "find-identity", "-p", "ssl", "-a"]);
    let second = advance(first, &printed("     0 valid identities found\n"));
    assert!(matches!(second, CleanupStep::Done(CleanupOutcome::NothingToClean)));
}

#[test]
fn a_probe_that_cannot_run_abandons_the_pass() {
    let second = advance(begin(), &Outcome::Failed("not found".to_owned()));
    assert!(matches!(second, CleanupStep::Done(CleanupOutcome::Abandoned)));
}

#[test]
fn a_full_pass_deletes_each_hash_in_each_keychain() {
    let mut commands: Vec<Vec<String>> = Vec::new();
    let mut step = begin();
    let replies = [
        printed("1) AAAA1111 \"Mitmproxy Desktop Root CA\"\n"),
        printed(LISTING),
        printed(FOUND_TWO),
        Outcome::Completed { success: false, stdout: String::new(), stderr: "denied".to_owned() },
        Outcome::Failed("sudo: not found".to_owned()),
        printed(""),
        printed("     0 valid identities found\n"),
    ];
    for reply in &replies {
        commands.push(command(&step));
        step = advance(step, reply);
    }
    assert!(matches!(step, CleanupStep::Done(CleanupOutcome::Cleaned)));
    let login = "/Users/alice/Library/Keychains/login.keychain-db";
    let system = "/Library/Keychains/System.keychain";
    let expected: Vec<Vec<&str>> = vec![
        vec!["security", "find-identity", "-p", "ssl", "-a"],
        vec!["security", "list-keychains"],
        vec!["security", "find-certificate", "-c", "Mitmproxy Desktop Root CA", "-a", "-Z", "-k", login],
        vec!["sudo", "security", "delete-certificate", "-Z", "AAAA1111", login],
        vec!["sudo", "security", "delete-certificate", "-Z", "BBBB2222", login],
        vec!["security", "find-certificate", "-c", "Mitmproxy Desktop Root CA", "-a", "-Z", "-k", system],
        vec!["security", "find-identity", "-p", "ssl", "-a"],
    ];
    assert_eq!(commands, expected);
}

#[test]
fn stages_follow_the_pass() {
    let (pass, _) = CleanupPass::begin();
    assert_eq!(pass.stage(), CleanupStage::Probe);
    let step = pass.advance(&printed(CA_NAME));
    let pass = match step {
        CleanupStep::Next(pass, _) => pass,
        other => panic!("{:?}", other),
    };
    assert_eq!(pass.stage(), CleanupStage::ListKeychains);
    let pass = match pass.advance(&printed(LISTING)) {
        CleanupStep::Next(pass, _) => pass,
        other => panic!("{:?}", other),
    };
    assert_eq!(pass.stage(), CleanupStage::Search);
    let pass = match pass.advance(&printed(FOUND_TWO)) {
        CleanupStep::Next(pass, _) => pass,
        other => panic!("{:?}", other),
    };
    assert_eq!(pass.stage(), CleanupStage::Delete);
}

#[test]
fn leftovers_end_the_pass_with_a_warning() {
    let mut step = begin();
    for reply in [printed(CA_NAME), printed("no such thing\n")] {
        step = advance(step, &reply);
    }
    assert_eq!(command(&step), vec!["security", "find-identity", "-p", "ssl", "-a"]);
    let done = advance(step, &printed("1) AAAA \"Mitmproxy Desktop Root CA\""));
    assert!(matches!(done, CleanupStep::Done(CleanupOutcome::Remaining)));
}

#[test]
fn a_query_that_cannot_run_abandons_the_pass_midway() {
    let mut step = begin();
    step = advance(step, &printed(CA_NAME));
    let done = advance(step, &Outcome::Failed("gone".to_owned()));
    assert!(matches!(done, CleanupStep::Done(CleanupOutcome::Abandoned)));

    let mut step = begin();
    for reply in [printed(CA_NAME), printed(LISTING)] {
        step = advance(step, &reply);
    }
    let done = advance(step, &Outcome::Failed("gone".to_owned()));
    assert!(matches!(done, CleanupStep::Done(CleanupOutcome::Abandoned)));
}
