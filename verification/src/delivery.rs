//! Recording a delivery: the abliterated model is looked up on the board,
//! the delivery is stored with the model's stored ID and vote count, and the
//! model leaves the board (its votes go with it).

use vstd::prelude::*;

verus! {

/// A task that the handler performs for the delivery.
#[derive(Debug)]
pub enum DeliveryTask {
    /// Find the model on the board: its stored ID and vote count.
    FindModel,
    /// Store the delivery for the model `model_id` with `vote_count` votes.
    InsertDelivery { model_id: String, vote_count: i64 },
    /// Delete the model `model_id` from the board.
    RemoveModel { model_id: String },
}

/// What the handler does next.
#[derive(Debug)]
pub enum DeliveryStep {
    Run(DeliveryTask),
    /// The model is not on the board; nothing is written.
    ModelNotFound,
    Done,
}

/// What came of a task.
#[derive(Debug)]
pub enum DeliveryOutcome {
    /// The model found on the board (stored ID and vote count), if any.
    Found(Option<(String, i64)>),
    Inserted,
    Removed,
}

/// What has been learnt and done so far for one delivery: the model of a
/// [`DeliveryProgress`].
#[derive(Debug)]
pub struct DeliveryState {
    /// The model found on the board, once looked up.
    pub found: Option<Option<(String, i64)>>,
    pub inserted: bool,
    pub removed: bool,
}

impl DeliveryState {
    /// Nothing asked, nothing done.
    pub open spec fn fresh() -> DeliveryState {
        DeliveryState { found: None, inserted: false, removed: false }
    }

    /// The next step: look the model up; refuse when it is not on the
    /// board; else store the delivery for the model found, then remove it.
    pub open spec fn next(self) -> DeliveryStep {
        match self.found {
            None => DeliveryStep::Run(DeliveryTask::FindModel),
            Some(None) => DeliveryStep::ModelNotFound,
            Some(Some((id, votes))) => if !self.inserted {
                DeliveryStep::Run(DeliveryTask::InsertDelivery { model_id: id, vote_count: votes })
            } else if !self.removed {
                DeliveryStep::Run(DeliveryTask::RemoveModel { model_id: id })
            } else {
                DeliveryStep::Done
            },
        }
    }

    /// The state once `outcome` has been recorded.
    pub open spec fn with(self, outcome: DeliveryOutcome) -> DeliveryState {
        match outcome {
            DeliveryOutcome::Found(m) => DeliveryState { found: Some(m), ..self },
            DeliveryOutcome::Inserted => DeliveryState { inserted: true, ..self },
            DeliveryOutcome::Removed => DeliveryState { removed: true, ..self },
        }
    }

    /// The outcome of performing `task`, where the board holds `on_board`
    /// for the requested model.
    pub open spec fn outcome(task: DeliveryTask, on_board: Option<(String, i64)>) -> DeliveryOutcome {
        match task {
            DeliveryTask::FindModel => DeliveryOutcome::Found(on_board),
            DeliveryTask::InsertDelivery { .. } => DeliveryOutcome::Inserted,
            DeliveryTask::RemoveModel { .. } => DeliveryOutcome::Removed,
        }
    }

    /// The state after `task` has been performed.
    pub open spec fn after(self, task: DeliveryTask, on_board: Option<(String, i64)>) -> DeliveryState {
        self.with(DeliveryState::outcome(task, on_board))
    }

    /// The tasks performed, in order, in at most `fuel` steps.
    pub open spec fn trace(self, on_board: Option<(String, i64)>, fuel: nat) -> Seq<DeliveryTask>
        decreases fuel,
    {
        match self.next() {
            DeliveryStep::Run(task) => if fuel == 0 {
                Seq::empty()
            } else {
                seq![task] + self.after(task, on_board).trace(on_board, (fuel - 1) as nat)
            },
            _ => Seq::empty(),
        }
    }

    /// Where the handler stands after at most `fuel` tasks.
    pub open spec fn run(self, on_board: Option<(String, i64)>, fuel: nat) -> DeliveryStep
        decreases fuel,
    {
        match self.next() {
            DeliveryStep::Run(task) => if fuel == 0 {
                DeliveryStep::Run(task)
            } else {
                self.after(task, on_board).run(on_board, (fuel - 1) as nat)
            },
            step => step,
        }
    }

    fn decide(&self) -> (r: DeliveryStep)
        ensures
            r == self.next(),
    {
        match &self.found {
            None => DeliveryStep::Run(DeliveryTask::FindModel),
            Some(None) => DeliveryStep::ModelNotFound,
            Some(Some((id, votes))) => if !self.inserted {
                DeliveryStep::Run(
                    DeliveryTask::InsertDelivery { model_id: id.clone(), vote_count: *votes },
                )
            } else if !self.removed {
                DeliveryStep::Run(DeliveryTask::RemoveModel { model_id: id.clone() })
            } else {
                DeliveryStep::Done
            },
        }
    }

    fn apply(&mut self, outcome: DeliveryOutcome)
        ensures
            *final(self) == old(self).with(outcome),
    {
        match outcome {
            DeliveryOutcome::Found(m) => self.found = Some(m),
            DeliveryOutcome::Inserted => self.inserted = true,
            DeliveryOutcome::Removed => self.removed = true,
        }
    }
}

/// What has been learnt and done so far for one delivery. The handler reads
/// the next step with [`DeliveryProgress::next_step`], performs it, and
/// hands back what came of it with [`DeliveryProgress::record`].
#[derive(Debug)]
pub struct DeliveryProgress {
    state: DeliveryState,
}

impl View for DeliveryProgress {
    type V = DeliveryState;

    closed spec fn view(&self) -> DeliveryState {
        self.state
    }
}

impl DeliveryProgress {
    /// A delivery for which nothing is known or done yet.
    pub fn start() -> (r: DeliveryProgress)
        ensures
            r@ == DeliveryState::fresh(),
    {
        DeliveryProgress { state: DeliveryState { found: None, inserted: false, removed: false } }
    }

    /// What the handler does next.
    pub fn next_step(&self) -> (r: DeliveryStep)
        ensures
            r == self@.next(),
    {
        self.state.decide()
    }

    /// Records what came of a task.
    pub fn record(&mut self, outcome: DeliveryOutcome)
        ensures
            final(self)@ == old(self)@.with(outcome),
    {
        self.state.apply(outcome);
    }
}

/// A delivery is stored only for the model found on the board, with that
/// model's stored ID and vote count; the model is removed only after its
/// delivery is stored; a delivery is done only once both have happened.
pub proof fn law_delivery_writes_follow_lookup(p: DeliveryState)
    ensures
        p.next() matches DeliveryStep::Run(DeliveryTask::InsertDelivery { model_id, vote_count })
            ==> p.found == Some(Some((model_id, vote_count))),
        p.next() matches DeliveryStep::Run(DeliveryTask::RemoveModel { model_id }) ==> (
        p.found matches Some(Some((id, _))) && id == model_id) && p.inserted,
        p.next() is Done ==> (p.found matches Some(Some(_))) && p.inserted && p.removed,
        p.next() is ModelNotFound ==> p.found == Some(None::<(String, i64)>),
{
}

/// A delivered model leaves the board: when the model is on the board the
/// delivery looks it up, stores the delivery with its stored ID and vote
/// count, then removes that model, and is done; when it is not, the
/// delivery is refused after the lookup and nothing is written.
pub proof fn law_delivered_model_leaves_board(on_board: Option<(String, i64)>)
    ensures
        on_board matches Some((id, votes)) ==> DeliveryState::fresh().run(on_board, 3) is Done
            && DeliveryState::fresh().trace(on_board, 3) == seq![
            DeliveryTask::FindModel,
            DeliveryTask::InsertDelivery { model_id: id, vote_count: votes },
            DeliveryTask::RemoveModel { model_id: id },
        ],
        on_board is None ==> DeliveryState::fresh().run(on_board, 3) is ModelNotFound
            && DeliveryState::fresh().trace(on_board, 3) == seq![DeliveryTask::FindModel],
{
    reveal_with_fuel(DeliveryState::run, 4);
    let p0 = DeliveryState::fresh();
    let p1 = p0.after(DeliveryTask::FindModel, on_board);
    assert(p0.trace(on_board, 3) =~= seq![DeliveryTask::FindModel] + p1.trace(on_board, 2));
    if let Some((id, votes)) = on_board {
        let t1 = DeliveryTask::InsertDelivery { model_id: id, vote_count: votes };
        let t2 = DeliveryTask::RemoveModel { model_id: id };
        let p2 = p1.after(t1, on_board);
        let p3 = p2.after(t2, on_board);
        assert(p1.trace(on_board, 2) =~= seq![t1] + p2.trace(on_board, 1));
        assert(p2.trace(on_board, 1) =~= seq![t2] + p3.trace(on_board, 0));
        assert(p3.trace(on_board, 0) =~= Seq::<DeliveryTask>::empty());
        assert(p0.trace(on_board, 3) =~= seq![DeliveryTask::FindModel, t1, t2]);
    } else {
        assert(p1.trace(on_board, 2) =~= Seq::<DeliveryTask>::empty());
        assert(p0.trace(on_board, 3) =~= seq![DeliveryTask::FindModel]);
    }
}

} // verus!
