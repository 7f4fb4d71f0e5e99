//! Showing a directory in the host's file manager.
//!
//! Launching a program is the caller's business. This module decides which
//! program to launch next and what to report, one step at a time: the caller
//! opens a request, launches what a step names, and tells the pending launch
//! whether the program started.

use vstd::prelude::*;
use vstd::string::*;

verus! {

/// Start of every failure message of a request.
pub const OPEN_FAILURE_PREFIX: &'static str = "Failed to open directory: ";

/// What follows the prefix where every file manager of a list was refused.
pub const NO_FILE_MANAGER: &'static str = "No suitable file manager found";

/// The kind of host the editor runs on.
#[derive(Clone, Copy, Debug, PartialEq, Eq, Structural)]
pub enum Platform {
    Windows,
    MacOs,
    Linux,
    /// A host for which no file manager is known.
    Other,
}

/// The programs that can show a directory on `platform`, in the order in
/// which they are tried.
pub open spec fn file_managers(platform: Platform) -> Seq<Seq<char>> {
    match platform {
        Platform::Windows => seq!["explorer"@],
        Platform::MacOs => seq!["open"@],
        Platform::Linux => seq!["xdg-open"@, "nautilus"@, "dolphin"@, "thunar"@, "pcmanfm"@],
        Platform::Other => seq![],
    }
}

/// The message of a request that failed on `platform`, where the launch that
/// was refused last gave `reason`. A host with one fixed program reports that
/// program's reason; a host with a list to search reports that nothing in the
/// list was found.
pub open spec fn failure_text(platform: Platform, reason: Seq<char>) -> Seq<char> {
    match platform {
        Platform::Linux => OPEN_FAILURE_PREFIX@ + NO_FILE_MANAGER@,
        _ => OPEN_FAILURE_PREFIX@ + reason,
    }
}

/// Model of a launch that the caller has been asked to make.
pub struct Launch {
    pub platform: Platform,
    /// The directory to show: the program's only argument.
    pub target: Seq<char>,
    /// How many programs were refused before this one.
    pub attempt: nat,
}

impl Launch {
    /// The program to launch.
    pub open spec fn program(self) -> Seq<char> {
        file_managers(self.platform)[self.attempt as int]
    }

    /// The launch names one of the platform's file managers.
    pub open spec fn in_range(self) -> bool {
        self.attempt < file_managers(self.platform).len()
    }
}

/// Model of where a request stands.
pub enum Step {
    /// The caller is to launch a program and report back.
    Launch(Launch),
    /// The request is over, with this result.
    Finished(Result<(), Seq<char>>),
}

/// Where a new request to show `target` on `platform` stands.
pub open spec fn first_step(platform: Platform, target: Seq<char>) -> Step {
    if file_managers(platform).len() == 0 {
        Step::Finished(Ok(()))
    } else {
        Step::Launch(Launch { platform, target, attempt: 0 })
    }
}

/// Where the request stands once the program of `launch` has started.
pub open spec fn step_after_start(launch: Launch) -> Step {
    Step::Finished(Ok(()))
}

/// Where the request stands once the program of `launch` was refused with
/// `reason`: at the next file manager, or at a failure when none is left.
pub open spec fn step_after_refusal(launch: Launch, reason: Seq<char>) -> Step {
    if launch.attempt + 1 < file_managers(launch.platform).len() {
        Step::Launch(Launch { attempt: launch.attempt + 1, ..launch })
    } else {
        Step::Finished(Err(failure_text(launch.platform, reason)))
    }
}

/// Model of the caller's report on one launch.
pub enum Outcome {
    Started,
    Refused(Seq<char>),
}

/// Where a request that stood at `step` stands after the caller's report
/// `outcome`. A report that comes after the request's end changes nothing.
pub open spec fn next_step(step: Step, outcome: Outcome) -> Step {
    match step {
        Step::Finished(_) => step,
        Step::Launch(launch) => match outcome {
            Outcome::Started => step_after_start(launch),
            Outcome::Refused(reason) => step_after_refusal(launch, reason),
        },
    }
}

/// Where a request that stood at `step` stands after the caller's reports
/// `outcomes`, taken in their order.
pub open spec fn step_after(step: Step, outcomes: Seq<Outcome>) -> Step
    decreases outcomes.len(),
{
    if outcomes.len() == 0 {
        step
    } else {
        step_after(next_step(step, outcomes.first()), outcomes.drop_first())
    }
}

/// Every launch of `outcomes` was refused.
pub open spec fn all_refused(outcomes: Seq<Outcome>) -> bool {
    forall|i: int| 0 <= i < outcomes.len() ==> outcomes[i] is Refused
}

/// Lists the programs that can show a directory on `platform`, in the order
/// in which they are tried.
pub fn launch_candidates(platform: Platform) -> (names: Vec<&'static str>)
    ensures
        names.deep_view() == file_managers(platform),
{
    let names: Vec<&'static str> = match platform {
        Platform::Windows => vec!["explorer"],
        Platform::MacOs => vec!["open"],
        Platform::Linux => vec!["xdg-open", "nautilus", "dolphin", "thunar", "pcmanfm"],
        Platform::Other => Vec::new(),
    };
    assert(names.deep_view() =~= file_managers(platform));
    names
}

/// Builds the message of a request that failed on `platform`, where the
/// launch that was refused last gave `reason`.
pub fn failure_message(platform: Platform, reason: &str) -> (message: String)
    ensures
        message@ == failure_text(platform, reason@),
{
    let mut message = String::from_str(OPEN_FAILURE_PREFIX);
    match platform {
        Platform::Linux => message.append(NO_FILE_MANAGER),
        _ => message.append(reason),
    }
    message
}

/// A launch that the caller has been asked to make. It is used up by the
/// report of how the launch went.
#[derive(Debug)]
pub struct PendingLaunch {
    platform: Platform,
    target: String,
    attempt: usize,
}

impl View for PendingLaunch {
    type V = Launch;

    closed spec fn view(&self) -> Launch {
        Launch { platform: self.platform, target: self.target@, attempt: self.attempt as nat }
    }
}

/// Where a request stands: at a launch for the caller to make, or at its end.
#[derive(Debug)]
pub enum OpenStep {
    Launch(PendingLaunch),
    Finished(Result<(), String>),
}

impl View for OpenStep {
    type V = Step;

    open spec fn view(&self) -> Step {
        match self {
            OpenStep::Launch(launch) => Step::Launch(launch@),
            OpenStep::Finished(Ok(())) => Step::Finished(Ok(())),
            OpenStep::Finished(Err(message)) => Step::Finished(Err(message@)),
        }
    }
}

impl PendingLaunch {
    #[verifier::type_invariant]
    spec fn names_a_file_manager(self) -> bool {
        self.attempt < file_managers(self.platform).len()
    }

    /// The program to launch.
    pub fn program(&self) -> (name: &'static str)
        ensures
            self@.in_range(),
            name@ == self@.program(),
    {
        proof {
            use_type_invariant(self);
        }
        let names = launch_candidates(self.platform);
        names[self.attempt]
    }

    /// The directory to show, to be handed to the program as its only
    /// argument.
    pub fn target(&self) -> (path: &str)
        ensures
            path@ == self@.target,
    {
        self.target.as_str()
    }

    /// How many programs were refused before this one.
    pub fn attempt(&self) -> (count: usize)
        ensures
            self@.in_range(),
            count == self@.attempt,
    {
        proof {
            use_type_invariant(self);
        }
        self.attempt
    }

    /// Reports that the program started. The request succeeds; what becomes
    /// of the program afterwards is not waited for.
    pub fn started(self) -> (step: OpenStep)
        ensures
            step@ == step_after_start(self@),
    {
        OpenStep::Finished(Ok(()))
    }

    /// Reports that the program could not be started, with the host's
    /// `reason`.
    pub fn refused(self, reason: String) -> (step: OpenStep)
        ensures
            step@ == step_after_refusal(self@, reason@),
    {
        proof {
            use_type_invariant(&self);
        }
        let names = launch_candidates(self.platform);
        if self.attempt + 1 < names.len() {
            OpenStep::Launch(
                PendingLaunch {
                    platform: self.platform,
                    target: self.target,
                    attempt: self.attempt + 1,
                },
            )
        } else {
            OpenStep::Finished(Err(failure_message(self.platform, reason.as_str())))
        }
    }
}

/// The caller's report on one launch: the program started, or the host
/// refused to start it and gave a reason.
#[derive(Debug)]
pub enum LaunchOutcome {
    Started,
    Refused(String),
}

impl View for LaunchOutcome {
    type V = Outcome;

    open spec fn view(&self) -> Outcome {
        match self {
            LaunchOutcome::Started => Outcome::Started,
            LaunchOutcome::Refused(reason) => Outcome::Refused(reason@),
        }
    }
}

impl OpenStep {
    /// Takes the caller's report on the launch that this step asked for, and
    /// gives the step that follows. A finished request stays as it is.
    pub fn report(self, outcome: LaunchOutcome) -> (step: OpenStep)
        ensures
            step@ == next_step(self@, outcome@),
    {
        match self {
            OpenStep::Finished(result) => OpenStep::Finished(result),
            OpenStep::Launch(launch) => match outcome {
                LaunchOutcome::Started => launch.started(),
                LaunchOutcome::Refused(reason) => launch.refused(reason),
            },
        }
    }
}

/// Opens a request to show the directory `path` in a file manager of
/// `platform`. The path is taken as it is. On a platform without a known file
/// manager there is nothing to launch, and the request is finished at once.
pub fn open_project_directory(platform: Platform, path: String) -> (step: OpenStep)
    ensures
        step@ == first_step(platform, path@),
{
    let names = launch_candidates(platform);
    if names.len() == 0 {
        OpenStep::Finished(Ok(()))
    } else {
        OpenStep::Launch(PendingLaunch { platform, target: path, attempt: 0 })
    }
}

proof fn lemma_step_after_append(step: Step, outcomes: Seq<Outcome>, last: Outcome)
    ensures
        step_after(step, outcomes.push(last)) == step_after(
            step_after(step, outcomes),
            seq![last],
        ),
    decreases outcomes.len(),
{
    let all = outcomes.push(last);
    if outcomes.len() == 0 {
        assert(all =~= seq![last]);
    } else {
        assert(all.first() == outcomes.first());
        assert(all.drop_first() =~= outcomes.drop_first().push(last));
        lemma_step_after_append(next_step(step, outcomes.first()), outcomes.drop_first(), last);
    }
}

proof fn lemma_launches_count_up(launch: Launch, outcomes: Seq<Outcome>)
    requires
        launch.in_range(),
    ensures
        step_after(Step::Launch(launch), outcomes) matches Step::Launch(later) ==> later
            == (Launch { attempt: launch.attempt + outcomes.len(), ..launch })
            && later.in_range(),
    decreases outcomes.len(),
{
    if outcomes.len() > 0 {
        match next_step(Step::Launch(launch), outcomes.first()) {
            Step::Finished(result) => {
                lemma_finished_stays(result, outcomes.drop_first());
            },
            Step::Launch(next) => {
                lemma_launches_count_up(next, outcomes.drop_first());
            },
        }
    }
}

proof fn lemma_finished_stays(result: Result<(), Seq<char>>, outcomes: Seq<Outcome>)
    ensures
        step_after(Step::Finished(result), outcomes) == Step::Finished(result),
    decreases outcomes.len(),
{
    if outcomes.len() > 0 {
        lemma_finished_stays(result, outcomes.drop_first());
    }
}

proof fn lemma_refusals_advance(launch: Launch, outcomes: Seq<Outcome>)
    requires
        launch.in_range(),
        all_refused(outcomes),
        launch.attempt + outcomes.len() <= file_managers(launch.platform).len(),
    ensures
        launch.attempt + outcomes.len() < file_managers(launch.platform).len() ==> step_after(
            Step::Launch(launch),
            outcomes,
        ) == Step::Launch(Launch { attempt: launch.attempt + outcomes.len(), ..launch }),
        outcomes.len() > 0 && launch.attempt + outcomes.len() == file_managers(
            launch.platform,
        ).len() ==> step_after(Step::Launch(launch), outcomes) == Step::Finished(
            Err(failure_text(launch.platform, outcomes.last()->Refused_0)),
        ),
    decreases outcomes.len(),
{
    if outcomes.len() > 0 {
        let rest = outcomes.drop_first();
        let reason = outcomes.first()->Refused_0;
        assert(outcomes.first() is Refused);
        assert(all_refused(rest)) by {
            assert forall|i: int| 0 <= i < rest.len() implies rest[i] is Refused by {
                assert(rest[i] == outcomes[i + 1]);
            }
        }
        if rest.len() > 0 {
            let next = Launch { attempt: launch.attempt + 1, ..launch };
            assert(step_after_refusal(launch, reason) == Step::Launch(next));
            lemma_refusals_advance(next, rest);
            assert(rest.last() == outcomes.last());
        } else {
            assert(step_after(step_after_refusal(launch, reason), rest) == step_after_refusal(
                launch,
                reason,
            ));
            assert(outcomes.last() == outcomes.first());
        }
    }
}

/// The file managers are tried in their order: while fewer launches were
/// refused than the platform has file managers, the request stands at the
/// launch of the next one, pointed at the directory that was asked for.
pub proof fn lemma_tried_in_order(platform: Platform, target: Seq<char>, outcomes: Seq<Outcome>)
    requires
        all_refused(outcomes),
        outcomes.len() < file_managers(platform).len(),
    ensures
        step_after(first_step(platform, target), outcomes) == Step::Launch(
            Launch { platform, target, attempt: outcomes.len() },
        ),
{
    lemma_refusals_advance(Launch { platform, target, attempt: 0 }, outcomes);
}

/// The first program that starts ends the request with success, however many
/// were refused before it.
pub proof fn lemma_first_start_opens(platform: Platform, target: Seq<char>, refused: Seq<Outcome>)
    requires
        all_refused(refused),
        refused.len() < file_managers(platform).len(),
    ensures
        step_after(first_step(platform, target), refused.push(Outcome::Started))
            == Step::Finished(Ok(())),
{
    let first = first_step(platform, target);
    let launch = Launch { platform, target, attempt: refused.len() };
    let last = seq![Outcome::Started];
    lemma_tried_in_order(platform, target, refused);
    lemma_step_after_append(first, refused, Outcome::Started);
    assert(last.drop_first().len() == 0);
    assert(step_after(Step::Launch(launch), last) == step_after(
        next_step(Step::Launch(launch), Outcome::Started),
        last.drop_first(),
    ));
}

/// Where every file manager of the platform was refused, the request fails
/// with the platform's failure message.
pub proof fn lemma_all_refused_fails(platform: Platform, target: Seq<char>, outcomes: Seq<Outcome>)
    requires
        all_refused(outcomes),
        0 < outcomes.len() == file_managers(platform).len(),
    ensures
        step_after(first_step(platform, target), outcomes) == Step::Finished(
            Err(failure_text(platform, outcomes.last()->Refused_0)),
        ),
{
    lemma_refusals_advance(Launch { platform, target, attempt: 0 }, outcomes);
}

/// On Linux a request for which none of the file managers could be started
/// fails with the same message whatever the reasons were.
pub proof fn lemma_linux_without_file_manager(target: Seq<char>, outcomes: Seq<Outcome>)
    requires
        all_refused(outcomes),
        outcomes.len() == file_managers(Platform::Linux).len(),
    ensures
        step_after(first_step(Platform::Linux, target), outcomes) == Step::Finished(
            Err(OPEN_FAILURE_PREFIX@ + NO_FILE_MANAGER@),
        ),
{
    lemma_all_refused_fails(Platform::Linux, target, outcomes);
}

/// A request asks for no more launches than the platform has file managers:
/// after that many reports, whatever they say, it is finished, and further
/// reports leave its result as it is.
pub proof fn lemma_request_ends(platform: Platform, target: Seq<char>, outcomes: Seq<Outcome>)
    requires
        outcomes.len() >= file_managers(platform).len(),
    ensures
        step_after(first_step(platform, target), outcomes) is Finished,
        forall|more: Outcome|
            step_after(first_step(platform, target), outcomes.push(more)) == step_after(
                first_step(platform, target),
                outcomes,
            ),
{
    let first = first_step(platform, target);
    if first is Launch {
        lemma_launches_count_up(first->Launch_0, outcomes);
    } else {
        lemma_finished_stays(first->Finished_0, outcomes);
    }
    assert forall|more: Outcome|
        step_after(first, outcomes.push(more)) == step_after(first, outcomes) by {
        lemma_step_after_append(first, outcomes, more);
        let end = step_after(first, outcomes);
        assert(seq![more].drop_first().len() == 0);
        assert(step_after(end, seq![more]) == step_after(
            next_step(end, more),
            seq![more].drop_first(),
        ));
    }
}

} // verus!
