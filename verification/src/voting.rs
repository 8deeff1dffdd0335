//! The rules that a vote passes before it is recorded, as a sequence of
//! questions to the database and to the HuggingFace Hub.
//!
//! The handler keeps a [`VoteState`], asks it for the next step, performs
//! the task it names (a query, the Hub check, or a write) and stores the
//! answer, until the progress refuses the vote or reports it done. All of it
//! runs inside one database transaction, which is committed as the last
//! task; a refusal drops the transaction.

use vstd::prelude::*;

use crate::constants::{MAX_MODELS, MAX_VOTES_PER_HOUR};
use crate::hf::HfError;

verus! {

/// A task that the handler performs for the vote.
#[derive(Debug, Clone, Copy, PartialEq, Eq, Structural)]
pub enum VoteTask {
    /// Has this client UUID already voted for this model?
    CheckVoted,
    /// Has this IP voted for this model in the last hour?
    CheckIpVotedForModel,
    /// How many votes did this IP cast in the last hour?
    CountIpVotes,
    /// Is the model on the board (case-insensitive)?
    CheckModelExists,
    /// Has the model already been abliterated (case-insensitive)?
    CheckDelivered,
    /// How many models are on the board?
    CountModels,
    /// Does the model exist on the HuggingFace Hub, within the limits?
    ValidateOnHf,
    /// Put the model on the board with no votes, created by `"auto"`.
    CreateModel,
    /// Insert the vote and add one to the model's vote count.
    RecordVote,
    /// Commit the transaction.
    Commit,
}

/// Why a vote is refused.
#[derive(Debug)]
pub enum VoteRefusal {
    /// The client UUID has already voted for this model.
    AlreadyVoted,
    /// The IP has voted for this model in the last hour.
    IpAlreadyVotedForModel,
    /// The IP has cast the maximum number of votes in the last hour.
    HourlyLimitReached,
    /// The model is not on the board and has already been abliterated.
    AlreadyDelivered,
    /// The model is not on the board and the board holds the maximum
    /// number of models.
    BoardFull,
    /// The model is not on the board and the HuggingFace check failed.
    NotOnHf(HfError),
}

/// What came of a task: the answer to a check, or a write that was made.
#[derive(Debug)]
pub enum VoteOutcome {
    /// Whether the client UUID had already voted for the model.
    Voted(bool),
    /// Whether the IP had voted for the model in the last hour.
    IpVotedForModel(bool),
    /// The number of votes the IP cast in the last hour.
    IpVotes(i64),
    /// Whether the model is on the board.
    ModelExists(bool),
    /// Whether the model has already been abliterated.
    Delivered(bool),
    /// The number of models on the board.
    ModelCount(i64),
    /// The result of the HuggingFace check.
    HfChecked(Result<(), HfError>),
    ModelCreated,
    VoteRecorded,
    Committed,
}

/// What the handler does next.
#[derive(Debug)]
pub enum VoteStep {
    Run(VoteTask),
    Refuse(VoteRefusal),
    Done,
}

/// What has been learnt and done so far for one vote: the model of a
/// [`VoteProgress`].
#[derive(Debug)]
pub struct VoteState {
    /// Whether unknown models are checked against the HuggingFace Hub.
    pub validate_hf: bool,
    pub already_voted: Option<bool>,
    pub ip_voted_for_model: Option<bool>,
    pub ip_votes_last_hour: Option<i64>,
    pub model_exists: Option<bool>,
    pub delivered: Option<bool>,
    pub model_count: Option<i64>,
    pub hf_check: Option<Result<(), HfError>>,
    pub model_created: bool,
    pub vote_recorded: bool,
    pub committed: bool,
}

/// The answers that the database and the Hub give for one vote.
pub struct VoteWorld {
    pub already_voted: bool,
    pub ip_voted_for_model: bool,
    pub ip_votes_last_hour: i64,
    pub model_exists: bool,
    pub delivered: bool,
    pub model_count: i64,
    pub hf_check: Result<(), HfError>,
}

/// The voting rules: one vote per model per client UUID, one vote per
/// model per IP per hour, at most `MAX_VOTES_PER_HOUR` votes per IP per
/// hour; a model that is not yet on the board is put there by the vote,
/// unless it has already been abliterated, the board already holds
/// `MAX_MODELS` models, or (when the Hub is consulted) it fails the
/// HuggingFace check. `None` means the vote is recorded.
pub open spec fn vote_refusal(w: VoteWorld, validate_hf: bool) -> Option<VoteRefusal> {
    if w.already_voted {
        Some(VoteRefusal::AlreadyVoted)
    } else if w.ip_voted_for_model {
        Some(VoteRefusal::IpAlreadyVotedForModel)
    } else if w.ip_votes_last_hour >= MAX_VOTES_PER_HOUR {
        Some(VoteRefusal::HourlyLimitReached)
    } else if !w.model_exists && w.delivered {
        Some(VoteRefusal::AlreadyDelivered)
    } else if !w.model_exists && w.model_count >= MAX_MODELS {
        Some(VoteRefusal::BoardFull)
    } else if !w.model_exists && validate_hf && w.hf_check is Err {
        Some(VoteRefusal::NotOnHf(w.hf_check->Err_0))
    } else {
        None
    }
}

impl VoteState {
    /// Nothing asked, nothing done.
    pub open spec fn fresh(validate_hf: bool) -> VoteState {
        VoteState {
            validate_hf,
            already_voted: None,
            ip_voted_for_model: None,
            ip_votes_last_hour: None,
            model_exists: None,
            delivered: None,
            model_count: None,
            hf_check: None,
            model_created: false,
            vote_recorded: false,
            committed: false,
        }
    }

    /// The writes, once every check has passed: create the model when it
    /// was not on the board, then record the vote, then commit.
    pub open spec fn write_step(self) -> VoteStep {
        if self.model_exists == Some(false) && !self.model_created {
            VoteStep::Run(VoteTask::CreateModel)
        } else if !self.vote_recorded {
            VoteStep::Run(VoteTask::RecordVote)
        } else if !self.committed {
            VoteStep::Run(VoteTask::Commit)
        } else {
            VoteStep::Done
        }
    }

    /// The next step: the first check whose answer is unknown, or the
    /// refusal of the first check that failed, or else the next write.
    pub open spec fn next(self) -> VoteStep {
        match self.already_voted {
            None => VoteStep::Run(VoteTask::CheckVoted),
            Some(true) => VoteStep::Refuse(VoteRefusal::AlreadyVoted),
            Some(false) => match self.ip_voted_for_model {
                None => VoteStep::Run(VoteTask::CheckIpVotedForModel),
                Some(true) => VoteStep::Refuse(VoteRefusal::IpAlreadyVotedForModel),
                Some(false) => match self.ip_votes_last_hour {
                    None => VoteStep::Run(VoteTask::CountIpVotes),
                    Some(n) => if n >= MAX_VOTES_PER_HOUR {
                        VoteStep::Refuse(VoteRefusal::HourlyLimitReached)
                    } else {
                        match self.model_exists {
                            None => VoteStep::Run(VoteTask::CheckModelExists),
                            Some(true) => self.write_step(),
                            Some(false) => match self.delivered {
                                None => VoteStep::Run(VoteTask::CheckDelivered),
                                Some(true) => VoteStep::Refuse(VoteRefusal::AlreadyDelivered),
                                Some(false) => match self.model_count {
                                    None => VoteStep::Run(VoteTask::CountModels),
                                    Some(c) => if c >= MAX_MODELS {
                                        VoteStep::Refuse(VoteRefusal::BoardFull)
                                    } else if !self.validate_hf {
                                        self.write_step()
                                    } else {
                                        match self.hf_check {
                                            None => VoteStep::Run(VoteTask::ValidateOnHf),
                                            Some(Err(e)) => VoteStep::Refuse(
                                                VoteRefusal::NotOnHf(e),
                                            ),
                                            Some(Ok(())) => self.write_step(),
                                        }
                                    },
                                },
                            },
                        }
                    },
                },
            },
        }
    }

    /// The state once `outcome` has been recorded.
    pub open spec fn with(self, outcome: VoteOutcome) -> VoteState {
        match outcome {
            VoteOutcome::Voted(b) => VoteState { already_voted: Some(b), ..self },
            VoteOutcome::IpVotedForModel(b) => VoteState { ip_voted_for_model: Some(b), ..self },
            VoteOutcome::IpVotes(n) => VoteState { ip_votes_last_hour: Some(n), ..self },
            VoteOutcome::ModelExists(b) => VoteState { model_exists: Some(b), ..self },
            VoteOutcome::Delivered(b) => VoteState { delivered: Some(b), ..self },
            VoteOutcome::ModelCount(n) => VoteState { model_count: Some(n), ..self },
            VoteOutcome::HfChecked(r) => VoteState { hf_check: Some(r), ..self },
            VoteOutcome::ModelCreated => VoteState { model_created: true, ..self },
            VoteOutcome::VoteRecorded => VoteState { vote_recorded: true, ..self },
            VoteOutcome::Committed => VoteState { committed: true, ..self },
        }
    }

    /// The outcome of performing `task` in `world`.
    pub open spec fn outcome(task: VoteTask, world: VoteWorld) -> VoteOutcome {
        match task {
            VoteTask::CheckVoted => VoteOutcome::Voted(world.already_voted),
            VoteTask::CheckIpVotedForModel => VoteOutcome::IpVotedForModel(world.ip_voted_for_model),
            VoteTask::CountIpVotes => VoteOutcome::IpVotes(world.ip_votes_last_hour),
            VoteTask::CheckModelExists => VoteOutcome::ModelExists(world.model_exists),
            VoteTask::CheckDelivered => VoteOutcome::Delivered(world.delivered),
            VoteTask::CountModels => VoteOutcome::ModelCount(world.model_count),
            VoteTask::ValidateOnHf => VoteOutcome::HfChecked(world.hf_check),
            VoteTask::CreateModel => VoteOutcome::ModelCreated,
            VoteTask::RecordVote => VoteOutcome::VoteRecorded,
            VoteTask::Commit => VoteOutcome::Committed,
        }
    }

    /// The state after `task` has been performed in `world`.
    pub open spec fn after(self, task: VoteTask, world: VoteWorld) -> VoteState {
        self.with(VoteState::outcome(task, world))
    }

    /// Where the handler stands after at most `fuel` tasks performed in
    /// `world`.
    pub open spec fn run(self, world: VoteWorld, fuel: nat) -> VoteStep
        decreases fuel,
    {
        match self.next() {
            VoteStep::Run(task) => if fuel == 0 {
                VoteStep::Run(task)
            } else {
                self.after(task, world).run(world, (fuel - 1) as nat)
            },
            step => step,
        }
    }

    /// The tasks that the handler performs, in order, in at most `fuel`
    /// steps in `world`.
    pub open spec fn trace(self, world: VoteWorld, fuel: nat) -> Seq<VoteTask>
        decreases fuel,
    {
        match self.next() {
            VoteStep::Run(task) => if fuel == 0 {
                Seq::empty()
            } else {
                seq![task] + self.after(task, world).trace(world, (fuel - 1) as nat)
            },
            _ => Seq::empty(),
        }
    }

    fn initial(validate_hf: bool) -> (r: VoteState)
        ensures
            r == VoteState::fresh(validate_hf),
    {
        VoteState {
            validate_hf,
            already_voted: None,
            ip_voted_for_model: None,
            ip_votes_last_hour: None,
            model_exists: None,
            delivered: None,
            model_count: None,
            hf_check: None,
            model_created: false,
            vote_recorded: false,
            committed: false,
        }
    }

    fn next_write(&self) -> (r: VoteStep)
        ensures
            r == self.write_step(),
    {
        if self.model_exists == Some(false) && !self.model_created {
            VoteStep::Run(VoteTask::CreateModel)
        } else if !self.vote_recorded {
            VoteStep::Run(VoteTask::RecordVote)
        } else if !self.committed {
            VoteStep::Run(VoteTask::Commit)
        } else {
            VoteStep::Done
        }
    }

    fn decide(&self) -> (r: VoteStep)
        ensures
            r == self.next(),
    {
        match self.already_voted {
            None => return VoteStep::Run(VoteTask::CheckVoted),
            Some(true) => return VoteStep::Refuse(VoteRefusal::AlreadyVoted),
            Some(false) => {},
        }
        match self.ip_voted_for_model {
            None => return VoteStep::Run(VoteTask::CheckIpVotedForModel),
            Some(true) => return VoteStep::Refuse(VoteRefusal::IpAlreadyVotedForModel),
            Some(false) => {},
        }
        match self.ip_votes_last_hour {
            None => return VoteStep::Run(VoteTask::CountIpVotes),
            Some(n) => if n >= MAX_VOTES_PER_HOUR {
                return VoteStep::Refuse(VoteRefusal::HourlyLimitReached);
            },
        }
        match self.model_exists {
            None => return VoteStep::Run(VoteTask::CheckModelExists),
            Some(true) => return self.next_write(),
            Some(false) => {},
        }
        match self.delivered {
            None => return VoteStep::Run(VoteTask::CheckDelivered),
            Some(true) => return VoteStep::Refuse(VoteRefusal::AlreadyDelivered),
            Some(false) => {},
        }
        match self.model_count {
            None => return VoteStep::Run(VoteTask::CountModels),
            Some(c) => if c >= MAX_MODELS {
                return VoteStep::Refuse(VoteRefusal::BoardFull);
            },
        }
        if !self.validate_hf {
            return self.next_write();
        }
        match &self.hf_check {
            None => VoteStep::Run(VoteTask::ValidateOnHf),
            Some(Err(e)) => VoteStep::Refuse(VoteRefusal::NotOnHf(e.duplicate())),
            Some(Ok(())) => self.next_write(),
        }
    }

    fn apply(&mut self, outcome: VoteOutcome)
        ensures
            *final(self) == old(self).with(outcome),
    {
        match outcome {
            VoteOutcome::Voted(b) => self.already_voted = Some(b),
            VoteOutcome::IpVotedForModel(b) => self.ip_voted_for_model = Some(b),
            VoteOutcome::IpVotes(n) => self.ip_votes_last_hour = Some(n),
            VoteOutcome::ModelExists(b) => self.model_exists = Some(b),
            VoteOutcome::Delivered(b) => self.delivered = Some(b),
            VoteOutcome::ModelCount(n) => self.model_count = Some(n),
            VoteOutcome::HfChecked(r) => self.hf_check = Some(r),
            VoteOutcome::ModelCreated => self.model_created = true,
            VoteOutcome::VoteRecorded => self.vote_recorded = true,
            VoteOutcome::Committed => self.committed = true,
        }
    }
}

/// What has been learnt and done so far for one vote. The handler reads
/// the next step with [`VoteProgress::next_step`], performs it, and hands
/// back what came of it with [`VoteProgress::record`].
#[derive(Debug)]
pub struct VoteProgress {
    state: VoteState,
}

impl View for VoteProgress {
    type V = VoteState;

    closed spec fn view(&self) -> VoteState {
        self.state
    }
}

impl VoteProgress {
    /// A vote for which nothing is known or done yet.
    pub fn start(validate_hf: bool) -> (r: VoteProgress)
        ensures
            r@ == VoteState::fresh(validate_hf),
    {
        VoteProgress { state: VoteState::initial(validate_hf) }
    }

    /// What the handler does next.
    pub fn next_step(&self) -> (r: VoteStep)
        ensures
            r == self@.next(),
    {
        self.state.decide()
    }

    /// Records what came of a task: an answer of the database or the Hub,
    /// or a write that was made.
    pub fn record(&mut self, outcome: VoteOutcome)
        ensures
            final(self)@ == old(self)@.with(outcome),
    {
        self.state.apply(outcome);
    }
}


impl VoteState {
    /// Whether `task` has not been performed yet.
    pub open spec fn pending(self, task: VoteTask) -> bool {
        match task {
            VoteTask::CheckVoted => self.already_voted is None,
            VoteTask::CheckIpVotedForModel => self.ip_voted_for_model is None,
            VoteTask::CountIpVotes => self.ip_votes_last_hour is None,
            VoteTask::CheckModelExists => self.model_exists is None,
            VoteTask::CheckDelivered => self.delivered is None,
            VoteTask::CountModels => self.model_count is None,
            VoteTask::ValidateOnHf => self.hf_check is None,
            VoteTask::CreateModel => !self.model_created,
            VoteTask::RecordVote => !self.vote_recorded,
            VoteTask::Commit => !self.committed,
        }
    }

    /// Whether every check that the vote must pass has been answered in its
    /// favour.
    pub open spec fn checks_passed(self) -> bool {
        &&& self.already_voted == Some(false)
        &&& self.ip_voted_for_model == Some(false)
        &&& self.ip_votes_last_hour matches Some(n) && n < MAX_VOTES_PER_HOUR
        &&& self.model_exists is Some
        &&& self.model_exists == Some(false) ==> {
            &&& self.delivered == Some(false)
            &&& self.model_count matches Some(c) && c < MAX_MODELS
            &&& self.validate_hf ==> self.hf_check matches Some(Ok(_))
        }
    }
}

/// A vote is recorded exactly when the client has not voted for the model,
/// the IP has not voted for it in the last hour and has cast fewer than 3
/// votes in that hour, and the model is on the board or may join it: not
/// abliterated, fewer than 50 models on the board, and (when the Hub is
/// consulted) found on the Hub. An IP that has cast 3 votes in the hour is
/// refused for the hourly limit, whatever it votes for next.
pub proof fn law_vote_accepted_iff_rules_pass(w: VoteWorld, validate_hf: bool)
    ensures
        vote_refusal(w, validate_hf) is None <==> {
            &&& !w.already_voted
            &&& !w.ip_voted_for_model
            &&& w.ip_votes_last_hour < 3
            &&& w.model_exists || {
                &&& !w.delivered
                &&& w.model_count < 50
                &&& validate_hf ==> w.hf_check is Ok
            }
        },
        !w.already_voted && !w.ip_voted_for_model && w.ip_votes_last_hour >= 3 ==> (vote_refusal(
            w,
            validate_hf,
        ) matches Some(VoteRefusal::HourlyLimitReached)),
        w.already_voted ==> (vote_refusal(w, validate_hf) matches Some(VoteRefusal::AlreadyVoted)),
        !w.already_voted && !w.ip_voted_for_model && w.ip_votes_last_hour < 3 && w.model_exists
            ==> vote_refusal(w, validate_hf) is None,
{
}

/// Nothing is written before every check has passed: whenever the next step
/// is a write (creating the model, recording the vote, committing) or the
/// vote is done, the client has not voted for the model, the IP has not
/// voted for it in the last hour, the IP is under the hourly limit, and a
/// model that was not on the board is not abliterated, finds the board below
/// `MAX_MODELS` models, and (when the Hub is consulted) passed the
/// HuggingFace check. The model is created only when it was not on the
/// board.
pub proof fn law_vote_writes_follow_checks(p: VoteState)
    ensures
        p.next() matches VoteStep::Run(t) && (t == VoteTask::CreateModel || t == VoteTask::RecordVote
            || t == VoteTask::Commit) ==> p.checks_passed(),
        p.next() is Done ==> p.checks_passed() && p.vote_recorded && p.committed,
        p.next() == VoteStep::Run(VoteTask::CreateModel) ==> p.model_exists == Some(false),
        p.next() == VoteStep::Run(VoteTask::Commit) ==> p.vote_recorded,
{
}

/// Every task that the progress asks for is one that has not been performed
/// yet, and performing it marks it performed: no task is asked for twice.
pub proof fn law_vote_asks_each_task_once(p: VoteState, world: VoteWorld)
    ensures
        p.next() matches VoteStep::Run(t) ==> p.pending(t) && !p.after(t, world).pending(t),
{
}

/// Performing the tasks in a world leads to the verdict of the voting rules:
/// the vote is refused for the first rule that it breaks, and is recorded
/// when it breaks none.
pub proof fn law_vote_follows_rules(world: VoteWorld, validate_hf: bool)
    ensures
        VoteState::fresh(validate_hf).run(world, 10) == match vote_refusal(world, validate_hf) {
            Some(r) => VoteStep::Refuse(r),
            None => VoteStep::Done,
        },
{
    reveal_with_fuel(VoteState::run, 11);
}

/// The writes that a vote performs: it records the vote and commits (as its
/// last two tasks) exactly when the rules accept it, and creates the model
/// exactly when the rules accept it and the model was not on the board.
#[verifier::rlimit(50)]
pub proof fn law_vote_writes(world: VoteWorld, validate_hf: bool)
    ensures
        ({
            let t = VoteState::fresh(validate_hf).trace(world, 10);
            &&& t.contains(VoteTask::RecordVote) <==> vote_refusal(world, validate_hf) is None
            &&& t.contains(VoteTask::Commit) <==> vote_refusal(world, validate_hf) is None
            &&& t.contains(VoteTask::CreateModel) <==> (vote_refusal(world, validate_hf) is None
                && !world.model_exists)
            &&& vote_refusal(world, validate_hf) is None ==> t.len() >= 2 && t[t.len() - 2]
                == VoteTask::RecordVote && t.last() == VoteTask::Commit
        }),
{
    let w = world;
    let p0 = VoteState::fresh(validate_hf);
    let p1 = p0.after(VoteTask::CheckVoted, w);
    let p2 = p1.after(VoteTask::CheckIpVotedForModel, w);
    let p3 = p2.after(VoteTask::CountIpVotes, w);
    let p4 = p3.after(VoteTask::CheckModelExists, w);
    let t = p0.trace(w, 10);
    assert(t =~= seq![VoteTask::CheckVoted] + p1.trace(w, 9));
    if w.already_voted {
        assert(p1.trace(w, 9) =~= Seq::<VoteTask>::empty());
        assert(t =~= seq![VoteTask::CheckVoted]);
        return;
    }
    assert(p1.trace(w, 9) =~= seq![VoteTask::CheckIpVotedForModel] + p2.trace(w, 8));
    if w.ip_voted_for_model {
        assert(p2.trace(w, 8) =~= Seq::<VoteTask>::empty());
        assert(t =~= seq![VoteTask::CheckVoted, VoteTask::CheckIpVotedForModel]);
        return;
    }
    assert(p2.trace(w, 8) =~= seq![VoteTask::CountIpVotes] + p3.trace(w, 7));
    if w.ip_votes_last_hour >= MAX_VOTES_PER_HOUR {
        assert(p3.trace(w, 7) =~= Seq::<VoteTask>::empty());
        assert(t =~= seq![VoteTask::CheckVoted, VoteTask::CheckIpVotedForModel, VoteTask::CountIpVotes]);
        return;
    }
    assert(p3.trace(w, 7) =~= seq![VoteTask::CheckModelExists] + p4.trace(w, 6));
    let checks = seq![
        VoteTask::CheckVoted,
        VoteTask::CheckIpVotedForModel,
        VoteTask::CountIpVotes,
        VoteTask::CheckModelExists,
    ];
    assert(t =~= checks + p4.trace(w, 6));
    if w.model_exists {
        let p5 = p4.after(VoteTask::RecordVote, w);
        let p6 = p5.after(VoteTask::Commit, w);
        assert(p4.trace(w, 6) =~= seq![VoteTask::RecordVote] + p5.trace(w, 5));
        assert(p5.trace(w, 5) =~= seq![VoteTask::Commit] + p6.trace(w, 4));
        assert(p6.trace(w, 4) =~= Seq::<VoteTask>::empty());
        assert(t =~= checks + seq![VoteTask::RecordVote, VoteTask::Commit]);
        assert(t[4] == VoteTask::RecordVote);
        assert(t[5] == VoteTask::Commit);
        return;
    }
    let p5 = p4.after(VoteTask::CheckDelivered, w);
    assert(p4.trace(w, 6) =~= seq![VoteTask::CheckDelivered] + p5.trace(w, 5));
    if w.delivered {
        assert(p5.trace(w, 5) =~= Seq::<VoteTask>::empty());
        assert(t =~= checks + seq![VoteTask::CheckDelivered]);
        return;
    }
    let p6 = p5.after(VoteTask::CountModels, w);
    assert(p5.trace(w, 5) =~= seq![VoteTask::CountModels] + p6.trace(w, 4));
    if w.model_count >= MAX_MODELS {
        assert(p6.trace(w, 4) =~= Seq::<VoteTask>::empty());
        assert(t =~= checks + seq![VoteTask::CheckDelivered, VoteTask::CountModels]);
        return;
    }
    let (q, rest, fuel) = if validate_hf {
        let p7 = p6.after(VoteTask::ValidateOnHf, w);
        assert(p6.trace(w, 4) =~= seq![VoteTask::ValidateOnHf] + p7.trace(w, 3));
        if w.hf_check is Err {
            assert(p7.trace(w, 3) =~= Seq::<VoteTask>::empty());
            assert(t =~= checks + seq![
                VoteTask::CheckDelivered,
                VoteTask::CountModels,
                VoteTask::ValidateOnHf,
            ]);
            return;
        }
        (p7, seq![VoteTask::CheckDelivered, VoteTask::CountModels, VoteTask::ValidateOnHf], 3nat)
    } else {
        (p6, seq![VoteTask::CheckDelivered, VoteTask::CountModels], 4nat)
    };
    assert(t =~= checks + rest + q.trace(w, fuel));
    let q1 = q.after(VoteTask::CreateModel, w);
    let q2 = q1.after(VoteTask::RecordVote, w);
    let q3 = q2.after(VoteTask::Commit, w);
    assert(q.trace(w, fuel) =~= seq![VoteTask::CreateModel] + q1.trace(w, (fuel - 1) as nat));
    assert(q1.trace(w, (fuel - 1) as nat) =~= seq![VoteTask::RecordVote] + q2.trace(
        w,
        (fuel - 2) as nat,
    ));
    assert(q2.trace(w, (fuel - 2) as nat) =~= seq![VoteTask::Commit] + q3.trace(
        w,
        (fuel - 3) as nat,
    ));
    assert(q3.trace(w, (fuel - 3) as nat) =~= Seq::<VoteTask>::empty());
    let writes = seq![VoteTask::CreateModel, VoteTask::RecordVote, VoteTask::Commit];
    assert(t =~= checks + rest + writes);
    let k: int = 4 + rest.len() as int;
    assert(t[k] == VoteTask::CreateModel);
    assert(t[k + 1] == VoteTask::RecordVote);
    assert(t[k + 2] == VoteTask::Commit);
}

} // verus!
