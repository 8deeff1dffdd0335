//! The rules that a new model passes before it is put on the board, as a
//! sequence of questions to the database and to the HuggingFace Hub.
//!
//! Users submit models through the JSON API and the HTML form; the admin
//! creates them through the admin API. The handler keeps a
//! [`SubmitState`], asks it for the next step, performs the task it names
//! and stores the answer, until the progress refuses the model or reports it
//! created.

use vstd::prelude::*;

use crate::constants::MAX_MODELS;
use crate::hf::HfError;
use crate::text::{trim, trimmed};

verus! {

/// A task that the handler performs for the submission.
#[derive(Debug, Clone, Copy, PartialEq, Eq, Structural)]
pub enum SubmitTask {
    /// How many models are on the board?
    CountModels,
    /// Is the model already on the board (case-insensitive)?
    CheckModelExists,
    /// Has the model already been abliterated (case-insensitive)?
    CheckDelivered,
    /// Did the submitting IP create a model within the last day?
    CheckRecentCreation,
    /// Does the model exist on the HuggingFace Hub, within the limits?
    ValidateOnHf,
    /// Does the HF link given with the model name a valid HuggingFace model?
    ValidateHfLink,
    /// Put the model on the board with no votes.
    CreateModel,
}

/// Why a model is refused.
#[derive(Debug)]
pub enum SubmitRefusal {
    /// The board holds the maximum number of models.
    BoardFull,
    /// The model is already on the board.
    AlreadyExists,
    /// The model has already been abliterated.
    AlreadyDelivered,
    /// The IP has already added a model within the last day.
    DailyLimitReached,
    /// The HuggingFace check of the model failed.
    NotOnHf(HfError),
    /// The HuggingFace check of the given HF link failed.
    BadHfLink(HfError),
}

/// What came of a task: the answer to a check, or the creation of the
/// model.
#[derive(Debug)]
pub enum SubmitOutcome {
    /// The number of models on the board.
    ModelCount(i64),
    /// Whether the model is on the board.
    ModelExists(bool),
    /// Whether the model has already been abliterated.
    Delivered(bool),
    /// Whether the IP created a model within the last day.
    RecentCreation(bool),
    /// The result of the HuggingFace check of the model.
    HfChecked(Result<(), HfError>),
    /// The result of the HuggingFace check of the HF link.
    LinkChecked(Result<(), HfError>),
    ModelCreated,
}

/// What the handler does next.
#[derive(Debug)]
pub enum SubmitStep {
    Run(SubmitTask),
    Refuse(SubmitRefusal),
    Done,
}

/// What has been learnt and done so far for one submission: the model of a
/// [`SubmitProgress`].
#[derive(Debug)]
pub struct SubmitState {
    /// Whether an IP may add one model per day only (user submissions).
    pub per_ip_limit: bool,
    /// Whether the model is checked against the HuggingFace Hub.
    pub validate_hf: bool,
    /// Whether an HF link came with the model and is checked.
    pub check_link: bool,
    pub model_count: Option<i64>,
    pub model_exists: Option<bool>,
    pub delivered: Option<bool>,
    pub recent_creation: Option<bool>,
    pub hf_check: Option<Result<(), HfError>>,
    pub link_check: Option<Result<(), HfError>>,
    pub created: bool,
}

/// The answers that the database and the Hub give for one submission.
pub struct SubmitWorld {
    pub model_count: i64,
    pub model_exists: bool,
    pub delivered: bool,
    pub recent_creation: bool,
    pub hf_check: Result<(), HfError>,
    pub link_check: Result<(), HfError>,
}

/// The submission rules: at most `MAX_MODELS` models on the board, no
/// model twice, no model that has already been abliterated, one model per
/// IP per day (for users), and the model, and the HF link when one is
/// checked, must pass the HuggingFace check (when the Hub is consulted).
/// `None` means the model is created.
pub open spec fn submit_refusal(
    w: SubmitWorld,
    per_ip_limit: bool,
    validate_hf: bool,
    check_link: bool,
) -> Option<SubmitRefusal> {
    if w.model_count >= MAX_MODELS {
        Some(SubmitRefusal::BoardFull)
    } else if w.model_exists {
        Some(SubmitRefusal::AlreadyExists)
    } else if w.delivered {
        Some(SubmitRefusal::AlreadyDelivered)
    } else if per_ip_limit && w.recent_creation {
        Some(SubmitRefusal::DailyLimitReached)
    } else if validate_hf && w.hf_check is Err {
        Some(SubmitRefusal::NotOnHf(w.hf_check->Err_0))
    } else if check_link && w.link_check is Err {
        Some(SubmitRefusal::BadHfLink(w.link_check->Err_0))
    } else {
        None
    }
}

/// Whether an HF link given with a model is checked: it is when it is given
/// and is not blank.
pub open spec fn link_is_checked(hf_link: Option<Seq<char>>) -> bool {
    hf_link matches Some(l) && trim(l).len() > 0
}

impl SubmitState {
    /// Nothing asked, nothing done.
    pub open spec fn fresh(per_ip_limit: bool, validate_hf: bool, check_link: bool) -> SubmitState {
        SubmitState {
            per_ip_limit,
            validate_hf,
            check_link,
            model_count: None,
            model_exists: None,
            delivered: None,
            recent_creation: None,
            hf_check: None,
            link_check: None,
            created: false,
        }
    }

    pub open spec fn create_step(self) -> SubmitStep {
        if !self.created {
            SubmitStep::Run(SubmitTask::CreateModel)
        } else {
            SubmitStep::Done
        }
    }

    pub open spec fn link_step(self) -> SubmitStep {
        if !self.check_link {
            self.create_step()
        } else {
            match self.link_check {
                None => SubmitStep::Run(SubmitTask::ValidateHfLink),
                Some(Err(e)) => SubmitStep::Refuse(SubmitRefusal::BadHfLink(e)),
                Some(Ok(())) => self.create_step(),
            }
        }
    }

    pub open spec fn hf_step(self) -> SubmitStep {
        if !self.validate_hf {
            self.link_step()
        } else {
            match self.hf_check {
                None => SubmitStep::Run(SubmitTask::ValidateOnHf),
                Some(Err(e)) => SubmitStep::Refuse(SubmitRefusal::NotOnHf(e)),
                Some(Ok(())) => self.link_step(),
            }
        }
    }

    pub open spec fn ip_step(self) -> SubmitStep {
        if !self.per_ip_limit {
            self.hf_step()
        } else {
            match self.recent_creation {
                None => SubmitStep::Run(SubmitTask::CheckRecentCreation),
                Some(true) => SubmitStep::Refuse(SubmitRefusal::DailyLimitReached),
                Some(false) => self.hf_step(),
            }
        }
    }

    /// The next step: the first check whose answer is unknown, or the
    /// refusal of the first check that failed, or else the creation.
    pub open spec fn next(self) -> SubmitStep {
        match self.model_count {
            None => SubmitStep::Run(SubmitTask::CountModels),
            Some(n) => if n >= MAX_MODELS {
                SubmitStep::Refuse(SubmitRefusal::BoardFull)
            } else {
                match self.model_exists {
                    None => SubmitStep::Run(SubmitTask::CheckModelExists),
                    Some(true) => SubmitStep::Refuse(SubmitRefusal::AlreadyExists),
                    Some(false) => match self.delivered {
                        None => SubmitStep::Run(SubmitTask::CheckDelivered),
                        Some(true) => SubmitStep::Refuse(SubmitRefusal::AlreadyDelivered),
                        Some(false) => self.ip_step(),
                    },
                }
            },
        }
    }

    /// The state once `outcome` has been recorded.
    pub open spec fn with(self, outcome: SubmitOutcome) -> SubmitState {
        match outcome {
            SubmitOutcome::ModelCount(n) => SubmitState { model_count: Some(n), ..self },
            SubmitOutcome::ModelExists(b) => SubmitState { model_exists: Some(b), ..self },
            SubmitOutcome::Delivered(b) => SubmitState { delivered: Some(b), ..self },
            SubmitOutcome::RecentCreation(b) => SubmitState { recent_creation: Some(b), ..self },
            SubmitOutcome::HfChecked(r) => SubmitState { hf_check: Some(r), ..self },
            SubmitOutcome::LinkChecked(r) => SubmitState { link_check: Some(r), ..self },
            SubmitOutcome::ModelCreated => SubmitState { created: true, ..self },
        }
    }

    /// The outcome of performing `task` in `world`.
    pub open spec fn outcome(task: SubmitTask, world: SubmitWorld) -> SubmitOutcome {
        match task {
            SubmitTask::CountModels => SubmitOutcome::ModelCount(world.model_count),
            SubmitTask::CheckModelExists => SubmitOutcome::ModelExists(world.model_exists),
            SubmitTask::CheckDelivered => SubmitOutcome::Delivered(world.delivered),
            SubmitTask::CheckRecentCreation => SubmitOutcome::RecentCreation(world.recent_creation),
            SubmitTask::ValidateOnHf => SubmitOutcome::HfChecked(world.hf_check),
            SubmitTask::ValidateHfLink => SubmitOutcome::LinkChecked(world.link_check),
            SubmitTask::CreateModel => SubmitOutcome::ModelCreated,
        }
    }

    /// The state after `task` has been performed in `world`.
    pub open spec fn after(self, task: SubmitTask, world: SubmitWorld) -> SubmitState {
        self.with(SubmitState::outcome(task, world))
    }

    /// Where the handler stands after at most `fuel` tasks performed in
    /// `world`.
    pub open spec fn run(self, world: SubmitWorld, fuel: nat) -> SubmitStep
        decreases fuel,
    {
        match self.next() {
            SubmitStep::Run(task) => if fuel == 0 {
                SubmitStep::Run(task)
            } else {
                self.after(task, world).run(world, (fuel - 1) as nat)
            },
            step => step,
        }
    }

    /// Whether `task` has not been performed yet.
    pub open spec fn pending(self, task: SubmitTask) -> bool {
        match task {
            SubmitTask::CountModels => self.model_count is None,
            SubmitTask::CheckModelExists => self.model_exists is None,
            SubmitTask::CheckDelivered => self.delivered is None,
            SubmitTask::CheckRecentCreation => self.recent_creation is None,
            SubmitTask::ValidateOnHf => self.hf_check is None,
            SubmitTask::ValidateHfLink => self.link_check is None,
            SubmitTask::CreateModel => !self.created,
        }
    }

    /// Whether every check that the model must pass has been answered in
    /// its favour.
    pub open spec fn checks_passed(self) -> bool {
        &&& self.model_count matches Some(n) && n < MAX_MODELS
        &&& self.model_exists == Some(false)
        &&& self.delivered == Some(false)
        &&& self.per_ip_limit ==> self.recent_creation == Some(false)
        &&& self.validate_hf ==> (self.hf_check matches Some(Ok(_)))
        &&& self.check_link ==> (self.link_check matches Some(Ok(_)))
    }

    fn initial_for_user(validate_hf: bool) -> (r: SubmitState)
        ensures
            r == SubmitState::fresh(true, validate_hf, false),
    {
        SubmitState {
            per_ip_limit: true,
            validate_hf,
            check_link: false,
            model_count: None,
            model_exists: None,
            delivered: None,
            recent_creation: None,
            hf_check: None,
            link_check: None,
            created: false,
        }
    }

    fn initial_for_admin(validate_hf: bool, hf_link: &Option<String>) -> (r: SubmitState)
        ensures
            r == SubmitState::fresh(
                false,
                validate_hf,
                link_is_checked(
                    match hf_link {
                        Some(l) => Some(l@),
                        None => None,
                    },
                ),
            ),
    {
        let check_link = match hf_link {
            Some(l) => trimmed(l.as_str()).as_str().unicode_len() > 0,
            None => false,
        };
        SubmitState {
            per_ip_limit: false,
            validate_hf,
            check_link,
            model_count: None,
            model_exists: None,
            delivered: None,
            recent_creation: None,
            hf_check: None,
            link_check: None,
            created: false,
        }
    }

    fn next_create(&self) -> (r: SubmitStep)
        ensures
            r == self.create_step(),
    {
        if !self.created {
            SubmitStep::Run(SubmitTask::CreateModel)
        } else {
            SubmitStep::Done
        }
    }

    fn next_link(&self) -> (r: SubmitStep)
        ensures
            r == self.link_step(),
    {
        if !self.check_link {
            return self.next_create();
        }
        match &self.link_check {
            None => SubmitStep::Run(SubmitTask::ValidateHfLink),
            Some(Err(e)) => SubmitStep::Refuse(SubmitRefusal::BadHfLink(e.duplicate())),
            Some(Ok(())) => self.next_create(),
        }
    }

    fn next_hf(&self) -> (r: SubmitStep)
        ensures
            r == self.hf_step(),
    {
        if !self.validate_hf {
            return self.next_link();
        }
        match &self.hf_check {
            None => SubmitStep::Run(SubmitTask::ValidateOnHf),
            Some(Err(e)) => SubmitStep::Refuse(SubmitRefusal::NotOnHf(e.duplicate())),
            Some(Ok(())) => self.next_link(),
        }
    }

    fn decide(&self) -> (r: SubmitStep)
        ensures
            r == self.next(),
    {
        match self.model_count {
            None => return SubmitStep::Run(SubmitTask::CountModels),
            Some(n) => if n >= MAX_MODELS {
                return SubmitStep::Refuse(SubmitRefusal::BoardFull);
            },
        }
        match self.model_exists {
            None => return SubmitStep::Run(SubmitTask::CheckModelExists),
            Some(true) => return SubmitStep::Refuse(SubmitRefusal::AlreadyExists),
            Some(false) => {},
        }
        match self.delivered {
            None => return SubmitStep::Run(SubmitTask::CheckDelivered),
            Some(true) => return SubmitStep::Refuse(SubmitRefusal::AlreadyDelivered),
            Some(false) => {},
        }
        if !self.per_ip_limit {
            return self.next_hf();
        }
        match self.recent_creation {
            None => SubmitStep::Run(SubmitTask::CheckRecentCreation),
            Some(true) => SubmitStep::Refuse(SubmitRefusal::DailyLimitReached),
            Some(false) => self.next_hf(),
        }
    }

    fn apply(&mut self, outcome: SubmitOutcome)
        ensures
            *final(self) == old(self).with(outcome),
    {
        match outcome {
            SubmitOutcome::ModelCount(n) => self.model_count = Some(n),
            SubmitOutcome::ModelExists(b) => self.model_exists = Some(b),
            SubmitOutcome::Delivered(b) => self.delivered = Some(b),
            SubmitOutcome::RecentCreation(b) => self.recent_creation = Some(b),
            SubmitOutcome::HfChecked(r) => self.hf_check = Some(r),
            SubmitOutcome::LinkChecked(r) => self.link_check = Some(r),
            SubmitOutcome::ModelCreated => self.created = true,
        }
    }
}

/// What has been learnt and done so far for one submission. The handler
/// reads the next step with [`SubmitProgress::next_step`], performs it, and
/// hands back what came of it with [`SubmitProgress::record`].
#[derive(Debug)]
pub struct SubmitProgress {
    state: SubmitState,
}

impl View for SubmitProgress {
    type V = SubmitState;

    closed spec fn view(&self) -> SubmitState {
        self.state
    }
}

impl SubmitProgress {
    /// A user submission (JSON API or HTML form): one model per IP per day,
    /// no HF link.
    pub fn for_user(validate_hf: bool) -> (r: SubmitProgress)
        ensures
            r@ == SubmitState::fresh(true, validate_hf, false),
    {
        SubmitProgress { state: SubmitState::initial_for_user(validate_hf) }
    }

    /// An admin submission: no per-IP limit; the HF link `hf_link` is
    /// checked when it is given and not blank.
    pub fn for_admin(validate_hf: bool, hf_link: &Option<String>) -> (r: SubmitProgress)
        ensures
            r@ == SubmitState::fresh(
                false,
                validate_hf,
                link_is_checked(
                    match hf_link {
                        Some(l) => Some(l@),
                        None => None,
                    },
                ),
            ),
    {
        SubmitProgress { state: SubmitState::initial_for_admin(validate_hf, hf_link) }
    }

    /// What the handler does next.
    pub fn next_step(&self) -> (r: SubmitStep)
        ensures
            r == self@.next(),
    {
        self.state.decide()
    }

    /// Records what came of a task: an answer of the database or the Hub,
    /// or the creation of the model.
    pub fn record(&mut self, outcome: SubmitOutcome)
        ensures
            final(self)@ == old(self)@.with(outcome),
    {
        self.state.apply(outcome);
    }
}

/// A model is created exactly when the board holds fewer than 50 models,
/// the model is neither on the board nor abliterated, the IP has not added
/// a model within the last day (when that limit applies), and the model and
/// the checked HF link pass the HuggingFace check (when it is made). A full
/// board refuses any model.
pub proof fn law_submit_accepted_iff_rules_pass(
    w: SubmitWorld,
    per_ip_limit: bool,
    validate_hf: bool,
    check_link: bool,
)
    ensures
        submit_refusal(w, per_ip_limit, validate_hf, check_link) is None <==> {
            &&& w.model_count < 50
            &&& !w.model_exists
            &&& !w.delivered
            &&& per_ip_limit ==> !w.recent_creation
            &&& validate_hf ==> w.hf_check is Ok
            &&& check_link ==> w.link_check is Ok
        },
        w.model_count >= 50 ==> (submit_refusal(w, per_ip_limit, validate_hf, check_link) matches Some(
            SubmitRefusal::BoardFull,
        )),
{
}

/// The model is created only after every check has passed, and the
/// submission is done only once it is created.
pub proof fn law_submit_creates_after_checks(p: SubmitState)
    ensures
        p.next() == SubmitStep::Run(SubmitTask::CreateModel) ==> p.checks_passed(),
        p.next() is Done ==> p.checks_passed() && p.created,
{
}

/// Every task that the progress asks for is one that has not been performed
/// yet, and performing it marks it performed: no task is asked for twice.
pub proof fn law_submit_asks_each_task_once(p: SubmitState, world: SubmitWorld)
    ensures
        p.next() matches SubmitStep::Run(t) ==> p.pending(t) && !p.after(t, world).pending(t),
{
}

/// Performing the tasks in a world leads to the verdict of the submission
/// rules: the model is refused for the first rule that it breaks, and is
/// created when it breaks none.
pub proof fn law_submit_follows_rules(
    world: SubmitWorld,
    per_ip_limit: bool,
    validate_hf: bool,
    check_link: bool,
)
    ensures
        SubmitState::fresh(per_ip_limit, validate_hf, check_link).run(world, 7) == match submit_refusal(
            world,
            per_ip_limit,
            validate_hf,
            check_link,
        ) {
            Some(r) => SubmitStep::Refuse(r),
            None => SubmitStep::Done,
        },
{
    reveal_with_fuel(SubmitState::run, 8);
}

} // verus!
