//! Removing stale trust entries of the authority from the macOS keychains.
//!
//! Repeated generations may leave several certificates of one common name in
//! the keychains. A cleanup pass looks for them and asks for each to be
//! deleted by its content hash, since duplicates share their name. The pass
//! is best effort: whatever goes wrong, it ends in a [`CleanupOutcome`], never
//! in an error.

use crate::effect::{Effect, EffectView, Invocation, Outcome, OutcomeView};
use crate::text::{
    begins_with, contains, final_word, last_word, lines, occurs, split_lines, starts_with, trim,
    trimmed, CharClass,
};
use vstd::prelude::*;

verus! {

/// The common name of the authority's certificate.
pub const CA_NAME: &'static str = "Mitmproxy Desktop Root CA";

/// What begins a line that carries a certificate's content hash.
pub const HASH_LINE_PREFIX: &'static str = "SHA-1 hash:";

/// The effect whose outcome a [`CleanupPass`] waits for.
#[derive(Debug, Clone, Copy, PartialEq, Eq, Structural)]
pub enum CleanupStage {
    /// The query whether any certificate of the authority's name is present.
    Probe,
    /// The list of the active keychains.
    ListKeychains,
    /// The search for matching certificates in one keychain.
    Search,
    /// The deletion of one certificate by its hash.
    Delete,
    /// The second query, after the deletions.
    Recheck,
}

/// How a cleanup pass ended.
#[derive(Debug, Clone, Copy, PartialEq, Eq, Structural)]
pub enum CleanupOutcome {
    /// No certificate of the authority's name was present: nothing was done.
    NothingToClean,
    /// Certificates were present and none is left.
    Cleaned,
    /// Certificates are still present after the pass; they may need to be
    /// removed by hand.
    Remaining,
    /// A query could not be run, and the pass was given up.
    Abandoned,
}

/// A cleanup pass under way.
#[derive(Debug)]
pub struct CleanupPass {
    stage: CleanupStage,
    keychains: Vec<String>,
    keychain: usize,
    hashes: Vec<String>,
    hash: usize,
}

/// The mathematical value of a [`CleanupPass`].
pub struct CleanupPassView {
    pub stage: CleanupStage,
    /// The keychains not done with, the one at work first.
    pub keychains: Seq<Seq<char>>,
    /// The hashes found in the keychain at work and not yet deleted, the one
    /// at work first.
    pub hashes: Seq<Seq<char>>,
}

impl View for CleanupPass {
    type V = CleanupPassView;

    closed spec fn view(&self) -> CleanupPassView {
        CleanupPassView {
            stage: self.stage,
            keychains: self.keychains.deep_view().skip(self.keychain as int),
            hashes: self.hashes.deep_view().skip(self.hash as int),
        }
    }
}

/// What a cleanup pass asks for next.
#[derive(Debug)]
pub enum CleanupStep {
    /// Perform the effect and hand its outcome to the pass.
    Next(CleanupPass, Effect),
    /// The pass is over.
    Done(CleanupOutcome),
}

/// The mathematical value of a [`CleanupStep`].
pub enum CleanupStepView {
    Next(CleanupPassView, EffectView),
    Done(CleanupOutcome),
}

impl CleanupStepView {
    /// Whether the step asks for a certificate to be deleted.
    pub open spec fn deletes(self) -> bool {
        self matches CleanupStepView::Next(pass, _) && pass.stage == CleanupStage::Delete
    }
}

impl View for CleanupStep {
    type V = CleanupStepView;

    open spec fn view(&self) -> CleanupStepView {
        match self {
            CleanupStep::Next(pass, effect) => CleanupStepView::Next(pass@, effect@),
            CleanupStep::Done(outcome) => CleanupStepView::Done(*outcome),
        }
    }
}

/// The query for every identity valid for TLS, in all keychains.
pub open spec fn probe_command() -> Seq<Seq<char>> {
    seq!["security"@, "find-identity"@, "-p"@, "ssl"@, "-a"@]
}

/// The query for the active keychains.
pub open spec fn list_keychains_command() -> Seq<Seq<char>> {
    seq!["security"@, "list-keychains"@]
}

/// The search for all certificates of the authority's name in `keychain`,
/// printed with their hashes.
pub open spec fn find_command(keychain: Seq<char>) -> Seq<Seq<char>> {
    seq![
        "security"@,
        "find-certificate"@,
        "-c"@,
        CA_NAME@,
        "-a"@,
        "-Z"@,
        "-k"@,
        keychain,
    ]
}

/// The privileged deletion of the certificate with `hash` from `keychain`.
pub open spec fn delete_command(hash: Seq<char>, keychain: Seq<char>) -> Seq<Seq<char>> {
    seq!["sudo"@, "security"@, "delete-certificate"@, "-Z"@, hash, keychain]
}

/// Whether the trust store's answer to the probe lists the authority.
pub open spec fn lists_authority(outcome: OutcomeView) -> bool {
    occurs(outcome.stdout(), CA_NAME@)
}

/// The keychain that a line of the keychain list names: the line without
/// the white space and then the double quotes around it, if what is left
/// holds the word `keychain`.
pub open spec fn keychain_of(line: Seq<char>) -> Option<Seq<char>> {
    let cleaned = trimmed(trimmed(line, CharClass::Whitespace), CharClass::Quote);
    if occurs(cleaned, "keychain"@) {
        Some(cleaned)
    } else {
        None
    }
}

/// The hash that a line of a certificate listing carries: the last word of
/// a line that begins with the hash prefix.
pub open spec fn hash_of(line: Seq<char>) -> Option<Seq<char>> {
    if begins_with(line, HASH_LINE_PREFIX@) && final_word(line).len() > 0 {
        Some(final_word(line))
    } else {
        None
    }
}

/// What `pick` finds in `rows`, in their order.
pub open spec fn picked(
    rows: Seq<Seq<char>>,
    pick: spec_fn(Seq<char>) -> Option<Seq<char>>,
) -> Seq<Seq<char>>
    decreases rows.len(),
{
    if rows.len() == 0 {
        Seq::empty()
    } else {
        let earlier = picked(rows.drop_last(), pick);
        match pick(rows.last()) {
            Some(found) => earlier.push(found),
            None => earlier,
        }
    }
}

/// The keychains that the keychain list `text` names, in its order.
pub open spec fn keychains_in(text: Seq<char>) -> Seq<Seq<char>> {
    picked(lines(text), |line: Seq<char>| keychain_of(line))
}

/// The hashes that the certificate listing `text` carries, in its order.
pub open spec fn hashes_in(text: Seq<char>) -> Seq<Seq<char>> {
    picked(lines(text), |line: Seq<char>| hash_of(line))
}

/// The first step of a pass: the probe.
pub open spec fn cleanup_begin() -> CleanupStepView {
    CleanupStepView::Next(
        CleanupPassView {
            stage: CleanupStage::Probe,
            keychains: Seq::empty(),
            hashes: Seq::empty(),
        },
        EffectView::Run(probe_command()),
    )
}

/// The step that takes up the search in the first of `keychains`, or the
/// second probe where none is left.
pub open spec fn search_from(keychains: Seq<Seq<char>>) -> CleanupStepView {
    if keychains.len() == 0 {
        CleanupStepView::Next(
            CleanupPassView {
                stage: CleanupStage::Recheck,
                keychains: Seq::empty(),
                hashes: Seq::empty(),
            },
            EffectView::Run(probe_command()),
        )
    } else {
        CleanupStepView::Next(
            CleanupPassView { stage: CleanupStage::Search, keychains, hashes: Seq::empty() },
            EffectView::Run(find_command(keychains[0])),
        )
    }
}

/// The step that deletes the first of `hashes` from the first of
/// `keychains`, or goes on to the next keychain where no hash is left.
pub open spec fn delete_from(
    keychains: Seq<Seq<char>>,
    hashes: Seq<Seq<char>>,
) -> CleanupStepView {
    if hashes.len() == 0 {
        search_from(keychains.drop_first())
    } else {
        CleanupStepView::Next(
            CleanupPassView { stage: CleanupStage::Delete, keychains, hashes },
            EffectView::Run(delete_command(hashes[0], keychains[0])),
        )
    }
}

/// The step that follows when the effect the pass waited for ended with
/// `outcome`.
///
/// A query that could not be run ends the pass as abandoned. What a
/// deletion came to is not looked at.
pub open spec fn cleanup_next(pass: CleanupPassView, outcome: OutcomeView) -> CleanupStepView {
    match pass.stage {
        CleanupStage::Delete => delete_from(pass.keychains, pass.hashes.drop_first()),
        _ => if outcome is Failed {
            CleanupStepView::Done(CleanupOutcome::Abandoned)
        } else {
            match pass.stage {
                CleanupStage::Probe => if lists_authority(outcome) {
                    CleanupStepView::Next(
                        CleanupPassView {
                            stage: CleanupStage::ListKeychains,
                            keychains: Seq::empty(),
                            hashes: Seq::empty(),
                        },
                        EffectView::Run(list_keychains_command()),
                    )
                } else {
                    CleanupStepView::Done(CleanupOutcome::NothingToClean)
                },
                CleanupStage::ListKeychains => search_from(keychains_in(outcome.stdout())),
                CleanupStage::Search => delete_from(pass.keychains, hashes_in(outcome.stdout())),
                _ => if lists_authority(outcome) {
                    CleanupStepView::Done(CleanupOutcome::Remaining)
                } else {
                    CleanupStepView::Done(CleanupOutcome::Cleaned)
                },
            }
        },
    }
}

/// The steps of a pass that starts at `step` and is handed `outcomes` in
/// order, `step` first. A pass that is over takes no further step.
pub open spec fn replay(step: CleanupStepView, outcomes: Seq<OutcomeView>) -> Seq<CleanupStepView>
    decreases outcomes.len(),
{
    match step {
        CleanupStepView::Done(_) => seq![step],
        CleanupStepView::Next(pass, _) => if outcomes.len() == 0 {
            seq![step]
        } else {
            seq![step] + replay(cleanup_next(pass, outcomes[0]), outcomes.drop_first())
        },
    }
}

/// How many of `steps` ask for a certificate to be deleted.
pub open spec fn deletion_attempts(steps: Seq<CleanupStepView>) -> nat
    decreases steps.len(),
{
    if steps.len() == 0 {
        0
    } else {
        deletion_attempts(steps.drop_last()) + if steps.last().deletes() {
            1nat
        } else {
            0nat
        }
    }
}

/// A pass whose probe finds no certificate of the authority's name asks for
/// no deletion, whatever the host answers afterwards.
pub proof fn law_clean_store_needs_no_deletion(outcomes: Seq<OutcomeView>)
    requires
        outcomes.len() > 0 ==> !lists_authority(outcomes[0]),
    ensures
        deletion_attempts(replay(cleanup_begin(), outcomes)) == 0,
{
    let steps = replay(cleanup_begin(), outcomes);
    reveal_with_fuel(replay, 3);
    reveal_with_fuel(deletion_attempts, 3);
    if outcomes.len() == 0 {
        assert(steps =~= seq![cleanup_begin()]);
        assert(steps.drop_last() =~= Seq::<CleanupStepView>::empty());
    } else {
        let second = cleanup_next(cleanup_begin()->Next_0, outcomes[0]);
        assert(second is Done);
        assert(steps =~= seq![cleanup_begin(), second]);
        assert(steps.drop_last() =~= seq![cleanup_begin()]);
        assert(steps.drop_last().drop_last() =~= Seq::<CleanupStepView>::empty());
    }
}

/// A pass that is over asks for nothing more.
pub proof fn law_finished_pass_stays_finished(outcome: CleanupOutcome, outcomes: Seq<OutcomeView>)
    ensures
        replay(CleanupStepView::Done(outcome), outcomes) == seq![CleanupStepView::Done(outcome)],
{
}

/// Builds the probe.
pub fn make_probe() -> (command: Invocation)
    ensures
        command@ == probe_command(),
{
    let command = Invocation::new("security").arg("find-identity").arg("-p").arg("ssl").arg("-a");
    assert(command@ =~= probe_command());
    command
}

/// Tells whether the trust store's answer to the probe lists the authority;
/// where the probe could not be run, hands back the system's message.
pub fn verify_cert_in_keychain(outcome: &Outcome) -> (listed: Result<bool, String>)
    ensures
        match listed {
            Ok(b) => !(outcome@ is Failed) && b == lists_authority(outcome@),
            Err(message) => outcome@ == OutcomeView::Failed(message@),
        },
{
    match outcome {
        Outcome::Failed(message) => Err(message.clone()),
        Outcome::Completed { stdout, .. } => Ok(contains(stdout.as_str(), CA_NAME)),
    }
}

/// Reads the keychains out of the keychain list `text`.
pub fn parse_keychains(text: &str) -> (found: Vec<String>)
    ensures
        found.deep_view() == keychains_in(text@),
{
    let rows = split_lines(text);
    let ghost pick = |line: Seq<char>| keychain_of(line);
    let mut found: Vec<String> = Vec::new();
    let mut i: usize = 0;
    assert(rows.deep_view().take(0) =~= Seq::<Seq<char>>::empty());
    assert(found.deep_view() =~= Seq::<Seq<char>>::empty());
    while i < rows.len()
        invariant
            i <= rows.len(),
            pick == (|line: Seq<char>| keychain_of(line)),
            found.deep_view() == picked(rows.deep_view().take(i as int), pick),
        decreases rows.len() - i,
    {
        let ghost before = found.deep_view();
        let ghost upto = rows.deep_view().take(i + 1);
        assert(upto.drop_last() =~= rows.deep_view().take(i as int));
        assert(upto.last() == rows[i as int]@);
        let bare = trim(rows[i].as_str(), CharClass::Whitespace);
        let cleaned = trim(bare.as_str(), CharClass::Quote);
        if contains(cleaned.as_str(), "keychain") {
            found.push(cleaned);
            assert(found.deep_view() =~= before.push(cleaned@));
        }
        i += 1;
    }
    assert(rows.deep_view().take(i as int) =~= rows.deep_view());
    found
}

/// Reads the hashes out of the certificate listing `text`.
pub fn parse_hashes(text: &str) -> (found: Vec<String>)
    ensures
        found.deep_view() == hashes_in(text@),
{
    let rows = split_lines(text);
    let ghost pick = |line: Seq<char>| hash_of(line);
    let mut found: Vec<String> = Vec::new();
    let mut i: usize = 0;
    assert(rows.deep_view().take(0) =~= Seq::<Seq<char>>::empty());
    assert(found.deep_view() =~= Seq::<Seq<char>>::empty());
    while i < rows.len()
        invariant
            i <= rows.len(),
            pick == (|line: Seq<char>| hash_of(line)),
            found.deep_view() == picked(rows.deep_view().take(i as int), pick),
        decreases rows.len() - i,
    {
        let ghost before = found.deep_view();
        let ghost upto = rows.deep_view().take(i + 1);
        assert(upto.drop_last() =~= rows.deep_view().take(i as int));
        assert(upto.last() == rows[i as int]@);
        if starts_with(rows[i].as_str(), HASH_LINE_PREFIX) {
            let hash = last_word(rows[i].as_str());
            if !hash.as_str().is_empty() {
                found.push(hash);
                assert(found.deep_view() =~= before.push(hash@));
            }
        }
        i += 1;
    }
    assert(rows.deep_view().take(i as int) =~= rows.deep_view());
    found
}

impl CleanupPass {
    #[verifier::type_invariant]
    spec fn well_formed(self) -> bool {
        &&& self.keychain <= self.keychains.len()
        &&& self.hash <= self.hashes.len()
        &&& self.stage == CleanupStage::Search ==> self.keychain < self.keychains.len()
        &&& self.stage == CleanupStage::Delete ==> self.keychain < self.keychains.len()
            && self.hash < self.hashes.len()
    }

    fn waiting(stage: CleanupStage) -> (pass: CleanupPass)
        requires
            stage != CleanupStage::Search,
            stage != CleanupStage::Delete,
        ensures
            pass@ == (CleanupPassView { stage, keychains: Seq::empty(), hashes: Seq::empty() }),
    {
        let pass = CleanupPass {
            stage,
            keychains: Vec::new(),
            keychain: 0,
            hashes: Vec::new(),
            hash: 0,
        };
        assert(pass@.keychains =~= Seq::<Seq<char>>::empty());
        assert(pass@.hashes =~= Seq::<Seq<char>>::empty());
        pass
    }

    /// Starts a pass: the pass, and the probe it waits for.
    pub fn begin() -> (first: (CleanupPass, Effect))
        ensures
            CleanupStepView::Next(first.0@, first.1@) == cleanup_begin(),
    {
        (CleanupPass::waiting(CleanupStage::Probe), Effect::Run(make_probe()))
    }

    /// The effect whose outcome the pass waits for.
    pub fn stage(&self) -> (stage: CleanupStage)
        ensures
            stage == self@.stage,
    {
        self.stage
    }

    /// Takes the outcome of the effect that was asked for last and decides
    /// how the pass goes on.
    pub fn advance(self, outcome: &Outcome) -> (step: CleanupStep)
        ensures
            step@ == cleanup_next(self@, outcome@),
    {
        proof {
            use_type_invariant(&self);
        }
        match self.stage {
            CleanupStage::Delete => {
                assert(self@.hashes.drop_first() =~= self.hashes.deep_view().skip(self.hash + 1));
                take_up_deletion(self.keychains, self.keychain, self.hashes, self.hash + 1)
            },
            stage => match outcome {
                Outcome::Failed(_) => CleanupStep::Done(CleanupOutcome::Abandoned),
                Outcome::Completed { stdout, .. } => match stage {
                    CleanupStage::Probe => if contains(stdout.as_str(), CA_NAME) {
                        CleanupStep::Next(
                            CleanupPass::waiting(CleanupStage::ListKeychains),
                            Effect::Run(make_list_keychains()),
                        )
                    } else {
                        CleanupStep::Done(CleanupOutcome::NothingToClean)
                    },
                    CleanupStage::ListKeychains => {
                        let keychains = parse_keychains(stdout.as_str());
                        assert(keychains.deep_view().skip(0) =~= keychains.deep_view());
                        take_up_search(keychains, 0)
                    },
                    CleanupStage::Search => {
                        let hashes = parse_hashes(stdout.as_str());
                        assert(hashes.deep_view().skip(0) =~= hashes.deep_view());
                        take_up_deletion(self.keychains, self.keychain, hashes, 0)
                    },
                    _ => if contains(stdout.as_str(), CA_NAME) {
                        CleanupStep::Done(CleanupOutcome::Remaining)
                    } else {
                        CleanupStep::Done(CleanupOutcome::Cleaned)
                    },
                },
            },
        }
    }
}

fn take_up_search(keychains: Vec<String>, from: usize) -> (step: CleanupStep)
    requires
        from <= keychains.len(),
    ensures
        step@ == search_from(keychains.deep_view().skip(from as int)),
{
    if from == keychains.len() {
        CleanupStep::Next(CleanupPass::waiting(CleanupStage::Recheck), Effect::Run(make_probe()))
    } else {
        let command = make_find(keychains[from].as_str());
        let pass = CleanupPass {
            stage: CleanupStage::Search,
            keychains,
            keychain: from,
            hashes: Vec::new(),
            hash: 0,
        };
        assert(pass@.hashes =~= Seq::<Seq<char>>::empty());
        CleanupStep::Next(pass, Effect::Run(command))
    }
}

fn take_up_deletion(
    keychains: Vec<String>,
    keychain: usize,
    hashes: Vec<String>,
    from: usize,
) -> (step: CleanupStep)
    requires
        keychain < keychains.len(),
        from <= hashes.len(),
    ensures
        step@ == delete_from(
            keychains.deep_view().skip(keychain as int),
            hashes.deep_view().skip(from as int),
        ),
{
    if from == hashes.len() {
        assert(keychains.deep_view().skip(keychain as int).drop_first()
            =~= keychains.deep_view().skip(keychain + 1));
        take_up_search(keychains, keychain + 1)
    } else {
        let command = make_delete(hashes[from].as_str(), keychains[keychain].as_str());
        CleanupStep::Next(
            CleanupPass { stage: CleanupStage::Delete, keychains, keychain, hashes, hash: from },
            Effect::Run(command),
        )
    }
}

fn make_list_keychains() -> (command: Invocation)
    ensures
        command@ == list_keychains_command(),
{
    let command = Invocation::new("security").arg("list-keychains");
    assert(command@ =~= list_keychains_command());
    command
}

fn make_find(keychain: &str) -> (command: Invocation)
    ensures
        command@ == find_command(keychain@),
{
    let command = Invocation::new("security").arg("find-certificate").arg("-c").arg(CA_NAME).arg(
        "-a",
    ).arg("-Z").arg("-k").arg(keychain);
    assert(command@ =~= find_command(keychain@));
    command
}

fn make_delete(hash: &str, keychain: &str) -> (command: Invocation)
    ensures
        command@ == delete_command(hash@, keychain@),
{
    let command = Invocation::new("sudo").arg("security").arg("delete-certificate").arg("-Z").arg(
        hash,
    ).arg(keychain);
    assert(command@ =~= delete_command(hash@, keychain@));
    command
}

} // verus!
