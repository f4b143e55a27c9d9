//! The download fan-out: what is decided for one asset reference before
//! anything is fetched, the outcome once the transfer has run, and the
//! outcomes of a whole batch.

use vstd::prelude::*;
use crate::error::Error;
use crate::text::{lemma_last_position, str_views};
use crate::reference::{
    extension,
    extension_views,
    flat_name,
    is_wanted,
    media_url,
    spec_extension,
    spec_file_segment,
    spec_flat_name,
    spec_is_wanted,
    spec_media_url,
};

verus! {

/// What is to be done with one asset reference.
#[derive(Debug, Clone, PartialEq)]
pub enum Plan {
    /// The reference has no file name or no extension.
    Malformed,
    /// The extension is not wanted: nothing is fetched.
    Skip,
    /// Fetch `url` and store the body under `file_name`.
    Fetch { url: String, file_name: String },
}

/// A plan as mathematical data.
pub enum PlanView {
    Malformed,
    Skip,
    Fetch { url: Seq<char>, file_name: Seq<char> },
}

impl View for Plan {
    type V = PlanView;

    open spec fn view(&self) -> PlanView {
        match self {
            Plan::Malformed => PlanView::Malformed,
            Plan::Skip => PlanView::Skip,
            Plan::Fetch { url, file_name } => PlanView::Fetch {
                url: url@,
                file_name: file_name@,
            },
        }
    }
}

/// How the transfer of one reference ended.
#[derive(Debug, Clone, PartialEq)]
pub enum Transfer {
    /// The body was fetched and written.
    Stored,
    /// The retrieval failed, or the host answered without success.
    TransportFailed(String),
    /// The file could not be written.
    WriteFailed(String),
}

/// The terminal classification of one asset reference.
#[derive(Debug, PartialEq)]
pub enum Outcome {
    Saved,
    Skipped,
    Failed(Error),
}

/// The plan for `reference` under the wanted extensions: malformed where no
/// extension can be derived, skipped where the derived extension is not
/// wanted, fetched otherwise.
pub open spec fn spec_plan(reference: Seq<char>, wanted: Seq<Seq<char>>) -> PlanView {
    match spec_extension(reference) {
        None => PlanView::Malformed,
        Some(ext) => if spec_is_wanted(ext, wanted) {
            PlanView::Fetch { url: spec_media_url(reference), file_name: spec_flat_name(reference) }
        } else {
            PlanView::Skip
        },
    }
}

/// The outcome of a transfer that ran.
pub open spec fn spec_transfer_outcome(transfer: Transfer) -> Outcome {
    match transfer {
        Transfer::Stored => Outcome::Saved,
        Transfer::TransportFailed(reason) => Outcome::Failed(Error::Transport(reason)),
        Transfer::WriteFailed(reason) => Outcome::Failed(Error::Io(reason)),
    }
}

/// The outcome that a plan has without any transfer, if it has one.
pub open spec fn spec_settled(plan: PlanView) -> Option<Outcome> {
    match plan {
        PlanView::Malformed => Some(Outcome::Failed(Error::MalformedReference)),
        PlanView::Skip => Some(Outcome::Skipped),
        PlanView::Fetch { .. } => None,
    }
}

/// The outcome of a reference, given its plan and the transfer that ran for
/// it. A plan that fetches nothing has its outcome whatever the transfer.
pub open spec fn spec_conclude(plan: PlanView, transfer: Option<Transfer>) -> Outcome
    recommends
        plan is Fetch ==> transfer is Some,
{
    match spec_settled(plan) {
        Some(outcome) => outcome,
        None => spec_transfer_outcome(transfer->0),
    }
}

/// The outcomes of a batch: one per reference, each from that reference's
/// plan and transfer alone.
pub open spec fn spec_outcomes(
    references: Seq<Seq<char>>,
    wanted: Seq<Seq<char>>,
    transfers: Seq<Option<Transfer>>,
) -> Seq<Outcome>
    recommends
        transfers.len() == references.len(),
{
    Seq::new(
        references.len(),
        |i: int| spec_conclude(spec_plan(references[i], wanted), transfers[i]),
    )
}

/// Whether every reference that is to be fetched has a transfer.
pub open spec fn transfers_cover(
    references: Seq<Seq<char>>,
    wanted: Seq<Seq<char>>,
    transfers: Seq<Option<Transfer>>,
) -> bool {
    &&& transfers.len() == references.len()
    &&& forall|i: int|
        0 <= i < references.len() && (#[trigger] spec_plan(references[i], wanted)) is Fetch
            ==> transfers[i] is Some
}

/// Decides what is to be done with `reference`. Nothing is fetched here.
pub fn plan_download(reference: &str, wanted: &[String]) -> (plan: Plan)
    ensures
        plan@ == spec_plan(reference@, extension_views(wanted@)),
{
    match extension(reference) {
        None => Plan::Malformed,
        Some(ext) => {
            if is_wanted(ext, wanted) {
                Plan::Fetch { url: media_url(reference), file_name: flat_name(reference) }
            } else {
                Plan::Skip
            }
        },
    }
}

impl Plan {
    /// The outcome that is known without a transfer: a failure for a
    /// malformed reference, a skip for an unwanted one, none yet for one
    /// that is to be fetched.
    pub fn settled(&self) -> (outcome: Option<Outcome>)
        ensures
            outcome == spec_settled(self@),
    {
        match self {
            Plan::Malformed => Some(Outcome::Failed(Error::MalformedReference)),
            Plan::Skip => Some(Outcome::Skipped),
            Plan::Fetch { .. } => None,
        }
    }
}

impl Transfer {
    /// The outcome of a transfer that ran: saved, or failed with the cause.
    pub fn outcome(self) -> (outcome: Outcome)
        ensures
            outcome == spec_transfer_outcome(self),
    {
        match self {
            Transfer::Stored => Outcome::Saved,
            Transfer::TransportFailed(reason) => Outcome::Failed(Error::Transport(reason)),
            Transfer::WriteFailed(reason) => Outcome::Failed(Error::Io(reason)),
        }
    }
}

/// The outcome of one reference, from its plan and the transfer that ran
/// for it.
pub fn conclude(plan: &Plan, transfer: Option<Transfer>) -> (outcome: Outcome)
    requires
        plan@ is Fetch ==> transfer is Some,
    ensures
        outcome == spec_conclude(plan@, transfer),
{
    match plan.settled() {
        Some(outcome) => outcome,
        None => match transfer {
            Some(transfer) => transfer.outcome(),
            None => vstd::pervasive::unreached(),
        },
    }
}

/// The kind of an outcome, without the cause of a failure.
#[derive(Debug, Clone, Copy, PartialEq, Eq, Structural)]
pub enum OutcomeKind {
    Saved,
    Skipped,
    Failed,
}

/// The completion of one reference: its outcome's kind and its position
/// among the completions of the batch.
#[derive(Debug, Clone, Copy, PartialEq)]
pub struct Completion<'a> {
    pub kind: OutcomeKind,
    /// How many references have completed, this one included.
    pub position: usize,
    /// How many references the batch has.
    pub total: usize,
    pub reference: &'a str,
}

impl Outcome {
    /// The kind of this outcome.
    pub open spec fn spec_kind(&self) -> OutcomeKind {
        match self {
            Outcome::Saved => OutcomeKind::Saved,
            Outcome::Skipped => OutcomeKind::Skipped,
            Outcome::Failed(_) => OutcomeKind::Failed,
        }
    }

    /// The kind of this outcome.
    pub fn kind(&self) -> (kind: OutcomeKind)
        ensures
            kind == self.spec_kind(),
    {
        match self {
            Outcome::Saved => OutcomeKind::Saved,
            Outcome::Skipped => OutcomeKind::Skipped,
            Outcome::Failed(_) => OutcomeKind::Failed,
        }
    }
}

/// Records that `reference` has completed with `outcome`, after
/// `completed_before` other references of a batch of `total`. The position
/// counts this completion, so it grows with every one.
pub fn complete<'a>(
    reference: &'a str,
    outcome: &Outcome,
    completed_before: usize,
    total: usize,
) -> (completion: Completion<'a>)
    requires
        completed_before < usize::MAX,
    ensures
        completion.kind == outcome.spec_kind(),
        completion.position == completed_before + 1,
        completion.total == total,
        completion.reference == reference,
{
    Completion { kind: outcome.kind(), position: completed_before + 1, total, reference }
}

impl<'a> Completion<'a> {
    /// The reference as an error where it failed, as the caller reports it
    /// once the batch is done.
    pub fn result(&self) -> (result: Result<(), &'a str>)
        ensures
            result == if self.kind == OutcomeKind::Failed {
                Err::<(), &str>(self.reference)
            } else {
                Ok::<(), &str>(())
            },
    {
        match self.kind {
            OutcomeKind::Failed => Err(self.reference),
            _ => Ok(()),
        }
    }
}

/// The plans of a batch, as mathematical data: one per reference.
pub open spec fn spec_plans(references: Seq<Seq<char>>, wanted: Seq<Seq<char>>) -> Seq<PlanView> {
    Seq::new(references.len(), |i: int| spec_plan(references[i], wanted))
}

/// The views of a run of plans.
pub open spec fn plan_views(plans: Seq<Plan>) -> Seq<PlanView> {
    plans.map_values(|plan: Plan| plan@)
}

/// Decides for every reference what is to be done with it. Equal
/// references are planned as often as they occur.
pub fn plan_all(references: &Vec<&str>, wanted: &[String]) -> (plans: Vec<Plan>)
    ensures
        plans.len() == references.len(),
        plan_views(plans@) == spec_plans(str_views(references@), extension_views(wanted@)),
{
    let mut plans: Vec<Plan> = Vec::new();
    let mut i: usize = 0;
    while i < references.len()
        invariant
            i <= references.len(),
            plans.len() == i,
            forall|j: int|
                0 <= j < i ==> (#[trigger] plans[j])@ == spec_plan(
                    references[j]@,
                    extension_views(wanted@),
                ),
        decreases references.len() - i,
    {
        plans.push(plan_download(references[i], wanted));
        i = i + 1;
    }
    assert(plan_views(plans@) =~= spec_plans(
        str_views(references@),
        extension_views(wanted@),
    ));
    plans
}

/// Whether `transfers` holds a transfer for every reference that is to be
/// fetched.
pub fn covers(references: &Vec<&str>, wanted: &[String], transfers: &Vec<Option<Transfer>>) -> (yes:
    bool)
    ensures
        yes == transfers_cover(str_views(references@), extension_views(wanted@), transfers@),
{
    if transfers.len() != references.len() {
        return false;
    }
    let ghost refs = str_views(references@);
    let ghost exts = extension_views(wanted@);
    let mut i: usize = 0;
    while i < references.len()
        invariant
            i <= references.len(),
            transfers.len() == references.len(),
            refs == str_views(references@),
            exts == extension_views(wanted@),
            forall|j: int|
                0 <= j < i && (#[trigger] spec_plan(refs[j], exts)) is Fetch
                    ==> transfers[j] is Some,
        decreases references.len() - i,
    {
        if transfers[i].is_none() {
            let plan = plan_download(references[i], wanted);
            match plan {
                Plan::Fetch { .. } => {
                    assert(spec_plan(refs[i as int], exts) is Fetch);
                    return false;
                },
                _ => {},
            }
        }
        i = i + 1;
    }
    true
}

/// The outcomes of a batch, one per reference and in the order of the
/// references. `transfers` holds, at the place of each reference, how its
/// transfer ended, or nothing where none ran.
pub fn download_all(
    references: &Vec<&str>,
    wanted: &[String],
    transfers: Vec<Option<Transfer>>,
) -> (outcomes: Vec<Outcome>)
    requires
        transfers_cover(str_views(references@), extension_views(wanted@), transfers@),
    ensures
        outcomes.len() == references.len(),
        outcomes@ == spec_outcomes(
            str_views(references@),
            extension_views(wanted@),
            transfers@,
        ),
{
    let ghost refs = str_views(references@);
    let ghost exts = extension_views(wanted@);
    let ghost all = transfers@;
    let mut outcomes: Vec<Outcome> = Vec::new();
    let mut i: usize = 0;
    for transfer in it: transfers
        invariant
            i == it.index(),
            it.seq() == all,
            all.len() == references.len(),
            refs == str_views(references@),
            exts == extension_views(wanted@),
            transfers_cover(refs, exts, all),
            outcomes.len() == i,
            forall|j: int|
                0 <= j < i ==> #[trigger] outcomes[j] == spec_conclude(
                    spec_plan(refs[j], exts),
                    all[j],
                ),
    {
        let plan = plan_download(references[i], wanted);
        assert(plan@ == spec_plan(refs[i as int], exts));
        outcomes.push(conclude(&plan, transfer));
        i = i + 1;
    }
    assert(outcomes@ =~= spec_outcomes(refs, exts, all));
    outcomes
}

/// The references paired with their outcomes.
pub open spec fn spec_paired(references: Seq<Seq<char>>, outcomes: Seq<Outcome>) -> Seq<
    (Seq<char>, Outcome),
>
    recommends
        outcomes.len() == references.len(),
{
    Seq::new(references.len(), |i: int| (references[i], outcomes[i]))
}

/// The references whose outcome is a failure, in the order of the
/// references.
pub open spec fn spec_failed(references: Seq<Seq<char>>, outcomes: Seq<Outcome>) -> Seq<Seq<char>>
    recommends
        outcomes.len() == references.len(),
{
    spec_paired(references, outcomes).filter(|pair: (Seq<char>, Outcome)| pair.1 is Failed).map_values(
        |pair: (Seq<char>, Outcome)| pair.0,
    )
}

/// The references that failed, in the order of the references and as often
/// as they failed.
pub fn failed_references<'a>(references: &Vec<&'a str>, outcomes: &Vec<Outcome>) -> (failed: Vec<
    &'a str,
>)
    requires
        outcomes.len() == references.len(),
    ensures
        str_views(failed@) == spec_failed(str_views(references@), outcomes@),
{
    let ghost refs = str_views(references@);
    let ghost failure = |pair: (Seq<char>, Outcome)| pair.1 is Failed;
    let ghost first = |pair: (Seq<char>, Outcome)| pair.0;
    let mut failed: Vec<&'a str> = Vec::new();
    let mut i: usize = 0;
    assert(spec_paired(refs.take(0), outcomes@.take(0)) =~= Seq::empty());
    assert(Seq::<(Seq<char>, Outcome)>::empty().filter(failure) =~= Seq::empty()) by {
        reveal(Seq::filter);
    }
    assert(str_views(failed@) =~= spec_failed(refs.take(0), outcomes@.take(0)));
    while i < references.len()
        invariant
            i <= references.len(),
            outcomes.len() == references.len(),
            refs == str_views(references@),
            failure == |pair: (Seq<char>, Outcome)| pair.1 is Failed,
            first == |pair: (Seq<char>, Outcome)| pair.0,
            str_views(failed@) == spec_failed(refs.take(i as int), outcomes@.take(i as int)),
        decreases references.len() - i,
    {
        proof {
            let before = spec_paired(refs.take(i as int), outcomes@.take(i as int));
            let pair = (refs[i as int], outcomes@[i as int]);
            assert(spec_paired(refs.take(i + 1), outcomes@.take(i + 1)) =~= before.push(pair));
            before.lemma_filter_push(pair, failure);
            before.filter(failure).lemma_push_map_commute(first, pair);
        }
        match &outcomes[i] {
            Outcome::Failed(_) => {
                failed.push(references[i]);
                assert(str_views(failed@) =~= spec_failed(
                    refs.take(i as int),
                    outcomes@.take(i as int),
                ).push(refs[i as int]));
            },
            _ => {},
        }
        i = i + 1;
    }
    assert(refs.take(i as int) =~= refs);
    assert(outcomes@.take(i as int) =~= outcomes@);
    failed
}

/// A batch has exactly one outcome per reference; an empty batch has none.
pub proof fn lemma_one_outcome_per_reference(
    references: Seq<Seq<char>>,
    wanted: Seq<Seq<char>>,
    transfers: Seq<Option<Transfer>>,
)
    ensures
        spec_outcomes(references, wanted, transfers).len() == references.len(),
        references.len() == 0 ==> spec_outcomes(references, wanted, transfers) == Seq::<
            Outcome,
        >::empty(),
{
    assert(references.len() == 0 ==> spec_outcomes(references, wanted, transfers) =~= Seq::<
        Outcome,
    >::empty());
}

/// The extension filter is exact: a reference is fetched just when the
/// extension derived from it is, character for character, one of the wanted
/// ones; with any other derived extension it is skipped.
pub proof fn lemma_filter_is_exact(reference: Seq<char>, wanted: Seq<Seq<char>>)
    ensures
        spec_plan(reference, wanted) is Fetch <==> spec_extension(reference) is Some
            && wanted.contains(spec_extension(reference)->0),
        spec_plan(reference, wanted) is Skip <==> spec_extension(reference) is Some
            && !wanted.contains(spec_extension(reference)->0),
        spec_plan(reference, wanted) is Skip ==> forall|transfer: Option<Transfer>|
            #[trigger] spec_conclude(spec_plan(reference, wanted), transfer) == Outcome::Skipped,
{
}

/// A reference is malformed just when it has no `/`, or what follows its
/// last `/` has no `.`; its outcome is then that failure, whatever else
/// happens.
pub proof fn lemma_malformed_reference(reference: Seq<char>, wanted: Seq<Seq<char>>)
    ensures
        spec_plan(reference, wanted) is Malformed <==> !reference.contains('/') || !(
        spec_file_segment(reference)->0).contains('.'),
        spec_plan(reference, wanted) is Malformed ==> forall|transfer: Option<Transfer>|
            #[trigger] spec_conclude(spec_plan(reference, wanted), transfer) == Outcome::Failed(
                Error::MalformedReference,
            ),
{
    lemma_last_position(reference, '/');
    if reference.contains('/') {
        let segment = spec_file_segment(reference)->0;
        lemma_last_position(segment, '.');
    }
}

/// The outcome of a reference depends on that reference and on its own
/// transfer alone: two runs that differ in how other transfers ended give
/// it the same outcome.
pub proof fn lemma_outcomes_are_isolated(
    references: Seq<Seq<char>>,
    wanted: Seq<Seq<char>>,
    transfers: Seq<Option<Transfer>>,
    others: Seq<Option<Transfer>>,
    i: int,
)
    requires
        0 <= i < references.len(),
        transfers[i] == others[i],
    ensures
        spec_outcomes(references, wanted, transfers)[i] == spec_outcomes(
            references,
            wanted,
            others,
        )[i],
        spec_outcomes(references, wanted, transfers)[i] == spec_conclude(
            spec_plan(references[i], wanted),
            transfers[i],
        ),
{
}

} // verus!
