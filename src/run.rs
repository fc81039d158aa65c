use vstd::prelude::*;
use crate::catalog::{Dataset, DeclarationKind, SchemaDeclaration, Stage};
use crate::error::ImportError;
use crate::statement::{
    declaration_statement, declaration_text, probe_statement, probe_text, stage_statement,
    stage_text,
};

verus! {

/// The operator's resolved flags for one run.
#[derive(Clone, Copy, PartialEq, Eq, Structural, Debug)]
pub struct RunOptions {
    pub force: bool,
    pub abort_if_present: bool,
}

/// What to do once the presence probe has answered.
#[derive(Clone, Copy, PartialEq, Eq, Structural, Debug)]
pub enum Decision {
    Proceed,
    Skip,
    AskConfirmation,
}

/// The presence decision table: an absent dataset is imported; a present
/// one is skipped when the operator asked to abort in that case, imported
/// anyway when forced, and otherwise left to a confirmation.
pub open spec fn decision_for(present: bool, options: RunOptions) -> Decision {
    match (present, options.abort_if_present, options.force) {
        (false, _, _) => Decision::Proceed,
        (true, true, _) => Decision::Skip,
        (true, false, true) => Decision::Proceed,
        (true, false, false) => Decision::AskConfirmation,
    }
}

/// Decides, from the probe's answer and the operator's flags, whether to
/// import, skip, or ask.
pub fn decide(present: bool, options: RunOptions) -> (r: Decision)
    ensures
        r == decision_for(present, options),
{
    if !present {
        Decision::Proceed
    } else if options.abort_if_present {
        Decision::Skip
    } else if options.force {
        Decision::Proceed
    } else {
        Decision::AskConfirmation
    }
}

/// How a run that did not fail ended.
#[derive(Clone, Copy, PartialEq, Eq, Structural, Debug)]
pub enum RunOutcome {
    /// Every declaration and every stage succeeded.
    Imported,
    /// The dataset was present and the operator asked to abort in that case.
    Skipped,
    /// The dataset was present and the confirmation declined the import.
    Declined,
}

/// The record of one stage that ran: its name, how long it took, and
/// whether it succeeded.
#[derive(Debug)]
pub struct StageOutcome {
    pub name: String,
    pub elapsed_millis: u64,
    pub succeeded: bool,
}

/// Where a run stands: which answer it waits for.
#[derive(Clone, Copy, PartialEq, Eq, Structural, Debug)]
pub enum Phase {
    /// The presence probe was issued.
    Probing,
    /// The operator was asked whether to import a present dataset.
    Confirming,
    /// The declaration with this index was issued.
    Declaring(usize),
    /// The stage with this index was issued.
    Loading(usize),
    /// The run has ended; it accepts nothing more.
    Finished,
}

/// What the caller is to do next on the run's behalf.
#[derive(Debug)]
pub enum Action {
    /// Run the presence probe and report whether it returned a row.
    Probe(String),
    /// Ask the operator whether to import a dataset that is already present.
    Confirm,
    /// Run this schema declaration.
    Declare(String),
    /// Run this stage's statement, showing `status` while it runs and
    /// reporting how long it took.
    Load { name: String, status: String, statement: String },
    /// The run has ended with this result.
    Finish(Result<RunOutcome, ImportError>),
}

/// What came of the caller's last action.
#[derive(Debug)]
pub enum Event {
    Probed(Result<bool, neo4rs::Error>),
    Confirmed(bool),
    Declared(Result<(), neo4rs::Error>),
    /// The stage's result and its elapsed time in milliseconds.
    Loaded { elapsed_millis: u64, result: Result<(), neo4rs::Error> },
}

/// One import of a dataset, driven by its caller one action at a time.
#[derive(Debug)]
pub struct ImportRun {
    pub dataset: Dataset,
    pub options: RunOptions,
    pub phase: Phase,
    pub outcomes: Vec<StageOutcome>,
}

/// The error that names a failed declaration and wraps the store's cause.
pub open spec fn is_schema_error(err: ImportError, d: SchemaDeclaration, cause: neo4rs::Error) -> bool {
    match d.kind {
        DeclarationKind::Constraint => err matches ImportError::ConstraintCreation { node, prop, source }
            && node@ == d.target@ && prop@ == d.property@ && source == cause,
        DeclarationKind::Index => err matches ImportError::IndexCreation { node, prop, source }
            && node@ == d.target@ && prop@ == d.property@ && source == cause,
    }
}

/// The phase after the decision to import: the first declaration, else the
/// first stage, else the end.
pub open spec fn first_phase(d: Dataset) -> Phase {
    if d.declarations@.len() > 0 {
        Phase::Declaring(0)
    } else if d.stages@.len() > 0 {
        Phase::Loading(0)
    } else {
        Phase::Finished
    }
}

/// The phase after declaration `i` succeeded.
pub open spec fn phase_after_declaration(d: Dataset, i: int) -> Phase {
    if i + 1 < d.declarations@.len() {
        Phase::Declaring((i + 1) as usize)
    } else if d.stages@.len() > 0 {
        Phase::Loading(0)
    } else {
        Phase::Finished
    }
}

/// The phase after stage `i` succeeded.
pub open spec fn phase_after_stage(d: Dataset, i: int) -> Phase {
    if i + 1 < d.stages@.len() {
        Phase::Loading((i + 1) as usize)
    } else {
        Phase::Finished
    }
}

/// The outcomes name the first stages, one each, in catalog order.
pub open spec fn names_stages(outcomes: Seq<StageOutcome>, stages: Seq<Stage>) -> bool {
    &&& outcomes.len() <= stages.len()
    &&& forall|j: int| 0 <= j < outcomes.len() ==> #[trigger] outcomes[j].name == stages[j].name
}

/// The first `n` outcomes are successes.
pub open spec fn succeeded_before(outcomes: Seq<StageOutcome>, n: int) -> bool {
    forall|j: int| 0 <= j < n ==> #[trigger] outcomes[j].succeeded
}

/// The outcomes record exactly the first `n` stages, in order, all of them
/// successes.
pub open spec fn records_stages(outcomes: Seq<StageOutcome>, stages: Seq<Stage>, n: int) -> bool {
    &&& outcomes.len() == n
    &&& names_stages(outcomes, stages)
    &&& succeeded_before(outcomes, n)
}

/// A run of `d` with these outcomes may stand in `phase`.
pub open spec fn phase_fits(d: Dataset, outcomes: Seq<StageOutcome>, phase: Phase) -> bool {
    match phase {
        Phase::Probing | Phase::Confirming => outcomes.len() == 0,
        Phase::Declaring(i) => i < d.declarations@.len() && outcomes.len() == 0,
        Phase::Loading(i) => i < d.stages@.len() && records_stages(outcomes, d.stages@, i as int),
        Phase::Finished => names_stages(outcomes, d.stages@) && succeeded_before(
            outcomes,
            outcomes.len() - 1,
        ),
    }
}

impl ImportRun {
    /// The phase's index lies within the dataset, and the outcomes record,
    /// in catalog order, the stages that ran; only the last of them, once the
    /// run has ended, may have failed.
    /// in catalog order, exactly the stages that have succeeded.
    pub open spec fn wf(&self) -> bool {
        phase_fits(self.dataset, self.outcomes@, self.phase)
    }

    /// The event answers the action that the run issued last.
    pub open spec fn accepts(&self, event: Event) -> bool {
        match (self.phase, event) {
            (Phase::Probing, Event::Probed(_)) => true,
            (Phase::Confirming, Event::Confirmed(_)) => true,
            (Phase::Declaring(_), Event::Declared(_)) => true,
            (Phase::Loading(_), Event::Loaded { .. }) => true,
            _ => false,
        }
    }

    /// `a` is the action that a run in this (unfinished) phase issues.
    pub open spec fn issues(&self, a: Action) -> bool {
        match self.phase {
            Phase::Probing => a matches Action::Probe(s) && s@ == probe_text(
                self.dataset.presence_labels@,
            ),
            Phase::Confirming => a is Confirm,
            Phase::Declaring(i) => a matches Action::Declare(s) && s@ == declaration_text(
                self.dataset.declarations@[i as int],
            ),
            Phase::Loading(i) => a matches Action::Load { name, status, statement }
                && name@ == self.dataset.stages@[i as int].name@
                && status@ == self.dataset.stages@[i as int].status@
                && statement@ == stage_text(self.dataset.stages@[i as int]),
            Phase::Finished => false,
        }
    }

    /// `a` is the action on entering the run's phase: the phase's own
    /// action, or success if entering the end.
    pub open spec fn enters(&self, a: Action) -> bool {
        if self.phase is Finished {
            a == Action::Finish(Ok(RunOutcome::Imported))
        } else {
            self.issues(a)
        }
    }

    /// One step of a run: from `self`, on `event`, to `post`, issuing `a`.
    pub open spec fn steps_to(&self, event: Event, post: ImportRun, a: Action) -> bool {
        let d = self.dataset;
        &&& post.dataset == d
        &&& post.options == self.options
        &&& match (self.phase, event) {
            (Phase::Probing, Event::Probed(Err(e))) => {
                &&& post.phase is Finished
                &&& a == Action::Finish(Err(ImportError::Connection(e)))
                &&& post.outcomes@ == self.outcomes@
            },
            (Phase::Probing, Event::Probed(Ok(present))) => {
                &&& post.outcomes@ == self.outcomes@
                &&& match decision_for(present, self.options) {
                    Decision::Proceed => post.phase == first_phase(d) && post.enters(a),
                    Decision::Skip => post.phase is Finished && a == Action::Finish(
                        Ok(RunOutcome::Skipped),
                    ),
                    Decision::AskConfirmation => post.phase is Confirming && a is Confirm,
                }
            },
            (Phase::Confirming, Event::Confirmed(yes)) => {
                &&& post.outcomes@ == self.outcomes@
                &&& yes ==> post.phase == first_phase(d) && post.enters(a)
                &&& !yes ==> post.phase is Finished && a == Action::Finish(
                    Ok(RunOutcome::Declined),
                )
            },
            (Phase::Declaring(i), Event::Declared(Ok(_))) => {
                &&& post.outcomes@ == self.outcomes@
                &&& post.phase == phase_after_declaration(d, i as int)
                &&& post.enters(a)
            },
            (Phase::Declaring(i), Event::Declared(Err(e))) => {
                &&& post.outcomes@ == self.outcomes@
                &&& post.phase is Finished
                &&& a matches Action::Finish(Err(err)) && is_schema_error(
                    err,
                    d.declarations@[i as int],
                    e,
                )
            },
            (Phase::Loading(i), Event::Loaded { elapsed_millis, result: Ok(_) }) => {
                &&& post.outcomes@ == self.outcomes@.push(
                    StageOutcome { name: d.stages@[i as int].name, elapsed_millis, succeeded: true },
                )
                &&& post.phase == phase_after_stage(d, i as int)
                &&& post.enters(a)
            },
            (Phase::Loading(i), Event::Loaded { elapsed_millis, result: Err(e) }) => {
                &&& post.outcomes@ == self.outcomes@.push(
                    StageOutcome { name: d.stages@[i as int].name, elapsed_millis, succeeded: false },
                )
                &&& post.phase is Finished
                &&& a matches Action::Finish(Err(ImportError::DataImport { name, source }))
                    && name@ == d.stages@[i as int].name@ && source == e
            },
            _ => false,
        }
    }

    /// Starts a run of `dataset`: the first action is always the presence
    /// probe over the dataset's labels.
    pub fn start(dataset: Dataset, options: RunOptions) -> (r: (ImportRun, Action))
        ensures
            r.0.dataset == dataset,
            r.0.options == options,
            r.0.phase is Probing,
            r.0.outcomes@.len() == 0,
            r.0.wf(),
            r.0.issues(r.1),
    {
        let probe = probe_statement(&dataset.presence_labels);
        let run = ImportRun { dataset, options, phase: Phase::Probing, outcomes: Vec::new() };
        (run, Action::Probe(probe))
    }

    /// Starts a run of `dataset` that imports it without probing for its
    /// presence: the first action is the first declaration, else the first
    /// stage, else the end. Its options are recorded as a forced import.
    pub fn start_import(dataset: Dataset) -> (r: (ImportRun, Action))
        ensures
            r.0.dataset == dataset,
            r.0.options == (RunOptions { force: true, abort_if_present: false }),
            r.0.phase == first_phase(dataset),
            r.0.outcomes@.len() == 0,
            r.0.wf(),
            r.0.enters(r.1),
    {
        let options = RunOptions { force: true, abort_if_present: false };
        let mut run = ImportRun { dataset, options, phase: Phase::Probing, outcomes: Vec::new() };
        let p = run.first_phase();
        let a = run.enter(p);
        (run, a)
    }

    /// The action of the run's current phase.
    fn issue(&self) -> (a: Action)
        requires
            self.wf(),
            !(self.phase is Finished),
        ensures
            self.issues(a),
    {
        match self.phase {
            Phase::Probing => Action::Probe(probe_statement(&self.dataset.presence_labels)),
            Phase::Confirming => Action::Confirm,
            Phase::Declaring(i) => Action::Declare(
                declaration_statement(&self.dataset.declarations[i]),
            ),
            Phase::Loading(i) => Action::Load {
                name: self.dataset.stages[i].name.clone(),
                status: self.dataset.stages[i].status.clone(),
                statement: stage_statement(&self.dataset.stages[i]),
            },
            // excluded by the precondition
            Phase::Finished => Action::Confirm,
        }
    }

    /// Moves to `phase` and returns the action of entering it.
    fn enter(&mut self, phase: Phase) -> (a: Action)
        requires
            phase_fits(old(self).dataset, old(self).outcomes@, phase),
        ensures
            final(self).dataset == old(self).dataset,
            final(self).options == old(self).options,
            final(self).outcomes == old(self).outcomes,
            final(self).phase == phase,
            final(self).wf(),
            final(self).enters(a),
    {
        self.phase = phase;
        if let Phase::Finished = phase {
            Action::Finish(Ok(RunOutcome::Imported))
        } else {
            self.issue()
        }
    }

    fn first_phase(&self) -> (p: Phase)
        ensures
            p == first_phase(self.dataset),
    {
        if self.dataset.declarations.len() > 0 {
            Phase::Declaring(0)
        } else if self.dataset.stages.len() > 0 {
            Phase::Loading(0)
        } else {
            Phase::Finished
        }
    }

    /// Whether the run waits for this kind of event.
    pub fn accepts_event(&self, event: &Event) -> (r: bool)
        ensures
            r == self.accepts(*event),
    {
        match (self.phase, event) {
            (Phase::Probing, Event::Probed(_)) => true,
            (Phase::Confirming, Event::Confirmed(_)) => true,
            (Phase::Declaring(_), Event::Declared(_)) => true,
            (Phase::Loading(_), Event::Loaded { .. }) => true,
            _ => false,
        }
    }

    /// Whether the run has ended.
    pub fn is_finished(&self) -> (r: bool)
        ensures
            r == (self.phase is Finished),
    {
        matches!(self.phase, Phase::Finished)
    }

    /// Takes the answer to the last action and returns the next one.
    pub fn advance(&mut self, event: Event) -> (a: Action)
        requires
            old(self).wf(),
            old(self).accepts(event),
        ensures
            final(self).wf(),
            old(self).steps_to(event, *final(self), a),
    {
        let phase = self.phase;
        match event {
            Event::Probed(Err(e)) => {
                self.phase = Phase::Finished;
                Action::Finish(Err(ImportError::Connection(e)))
            },
            Event::Probed(Ok(present)) => match decide(present, self.options) {
                Decision::Proceed => {
                    let p = self.first_phase();
                    self.enter(p)
                },
                Decision::Skip => {
                    self.phase = Phase::Finished;
                    Action::Finish(Ok(RunOutcome::Skipped))
                },
                Decision::AskConfirmation => {
                    self.phase = Phase::Confirming;
                    Action::Confirm
                },
            },
            Event::Confirmed(yes) => {
                if yes {
                    let p = self.first_phase();
                    self.enter(p)
                } else {
                    self.phase = Phase::Finished;
                    Action::Finish(Ok(RunOutcome::Declined))
                }
            },
            Event::Declared(result) => {
                let i = match phase {
                    Phase::Declaring(i) => i,
                    // excluded: the run accepts this event only while declaring
                    _ => 0,
                };
                assert(i < self.dataset.declarations@.len());
                match result {
                    Ok(()) => {
                        let n = self.dataset.declarations.len();
                        let p = if i + 1 < n {
                            Phase::Declaring(i + 1)
                        } else if self.dataset.stages.len() > 0 {
                            Phase::Loading(0)
                        } else {
                            Phase::Finished
                        };
                        self.enter(p)
                    },
                    Err(e) => {
                        self.phase = Phase::Finished;
                        let d = &self.dataset.declarations[i];
                        let err = match d.kind {
                            DeclarationKind::Constraint => ImportError::ConstraintCreation {
                                node: d.target.clone(),
                                prop: d.property.clone(),
                                source: e,
                            },
                            DeclarationKind::Index => ImportError::IndexCreation {
                                node: d.target.clone(),
                                prop: d.property.clone(),
                                source: e,
                            },
                        };
                        Action::Finish(Err(err))
                    },
                }
            },
            Event::Loaded { elapsed_millis, result } => {
                let i = match phase {
                    Phase::Loading(i) => i,
                    // excluded: the run accepts this event only while loading
                    _ => 0,
                };
                assert(i < self.dataset.stages@.len());
                match result {
                    Ok(()) => {
                        let name = self.dataset.stages[i].name.clone();
                        self.outcomes.push(StageOutcome { name, elapsed_millis, succeeded: true });
                        let n = self.dataset.stages.len();
                        let p = if i + 1 < n {
                            Phase::Loading(i + 1)
                        } else {
                            Phase::Finished
                        };
                        self.enter(p)
                    },
                    Err(e) => {
                        self.phase = Phase::Finished;
                        let recorded = self.dataset.stages[i].name.clone();
                        self.outcomes.push(
                            StageOutcome { name: recorded, elapsed_millis, succeeded: false },
                        );
                        let name = self.dataset.stages[i].name.clone();
                        Action::Finish(Err(ImportError::DataImport { name, source: e }))
                    },
                }
            },
        }
    }
}

/// The presence decision table, as a run carries it out: an absent dataset
/// goes straight to its schema and stages; a present one is skipped, with
/// nothing issued after the probe, when the operator asked to abort in that
/// case; it is imported anyway when forced; and otherwise the operator is
/// asked.
pub proof fn lemma_presence_decision(
    run: ImportRun,
    present: bool,
    post: ImportRun,
    a: Action,
)
    requires
        run.wf(),
        run.phase is Probing,
        run.steps_to(Event::Probed(Ok(present)), post, a),
    ensures
        !present ==> post.phase == first_phase(run.dataset) && post.enters(a),
        present && run.options.abort_if_present ==> {
            &&& post.phase is Finished
            &&& a == Action::Finish(Ok(RunOutcome::Skipped))
            &&& forall|ev: Event| !post.accepts(ev)
        },
        present && !run.options.abort_if_present && run.options.force ==> post.phase
            == first_phase(run.dataset) && post.enters(a),
        present && !run.options.abort_if_present && !run.options.force ==> {
            &&& post.phase is Confirming
            &&& a is Confirm
        },
{
}

/// A failed stage ends the run: the error names that stage and wraps the
/// store's cause, no later stage is issued, and the outcomes record the
/// stages before it as successes and that stage, with its elapsed time, as
/// the failure that ended the run.
pub proof fn lemma_stage_failure_halts(
    run: ImportRun,
    k: usize,
    ms: u64,
    cause: neo4rs::Error,
    post: ImportRun,
    a: Action,
)
    requires
        run.wf(),
        run.phase == Phase::Loading(k),
        run.steps_to(Event::Loaded { elapsed_millis: ms, result: Err(cause) }, post, a),
    ensures
        a matches Action::Finish(Err(ImportError::DataImport { name, source }))
            && name@ == run.dataset.stages@[k as int].name@ && source == cause,
        post.phase is Finished,
        forall|ev: Event| !post.accepts(ev),
        records_stages(run.outcomes@, run.dataset.stages@, k as int),
        post.outcomes@ == run.outcomes@.push(
            StageOutcome { name: run.dataset.stages@[k as int].name, elapsed_millis: ms, succeeded: false },
        ),
{
}

/// Stages run one after another in catalog order: whenever a stage is
/// issued, it is the stage whose index is the number of stages that have
/// succeeded, and those are exactly the stages before it.
pub proof fn lemma_stages_in_catalog_order(run: ImportRun, event: Event, post: ImportRun, a: Action)
    requires
        run.wf(),
        run.steps_to(event, post, a),
        post.wf(),
        a is Load,
    ensures
        post.phase == Phase::Loading(post.outcomes@.len() as usize),
        records_stages(post.outcomes@, run.dataset.stages@, post.outcomes@.len() as int),
        a->Load_name@ == run.dataset.stages@[post.outcomes@.len() as int].name@,
{
}

/// The schema comes first: the first stage is issued only once the last
/// declaration has succeeded, or straight after the decision to import when
/// the dataset declares nothing.
pub proof fn lemma_declarations_precede_stages(
    run: ImportRun,
    event: Event,
    post: ImportRun,
    a: Action,
)
    requires
        run.wf(),
        run.steps_to(event, post, a),
        post.phase == Phase::Loading(0),
    ensures
        run.phase is Declaring ==> run.phase->Declaring_0 + 1 == run.dataset.declarations@.len()
            && event matches Event::Declared(Ok(_)),
        run.phase is Probing || run.phase is Confirming ==> run.dataset.declarations@.len() == 0,
        !(run.phase is Loading),
{
    assert(run.dataset.stages.len() == run.dataset.stages@.len());
}

} // verus!
