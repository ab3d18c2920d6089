use vstd::prelude::*;

use crate::date::Date;

verus! {

/// Where the whole run stands.
#[derive(Clone, Copy, Debug, PartialEq, Eq, Structural)]
pub enum Status {
    // Prologue
    PingProxy,
    FetchCache,
    // Main download
    Working,
    // Epilogue
    Complete,
    Failed,
}

/// A milestone reached by the run or by one of its items.
#[derive(Clone, Copy, Debug, PartialEq, Eq, Structural)]
pub enum UpdateSuccess {
    // Prologue
    ProxyPing,
    FetchCache,
    // Main download
    FetchUrl { date: Date },
    FetchImage { date: Date },
    SaveImage { date: Date },
    // Epilogue
    Complete,
}

/// A failed attempt that will be tried again.
#[derive(Clone, Copy, Debug, PartialEq, Eq, Structural)]
pub enum UpdateWarning {
    FetchUrl { attempt: usize, date: Date },
    FetchImage { attempt: usize, date: Date },
}

/// A message that does not end the run.
#[derive(Clone, Copy, Debug, PartialEq, Eq, Structural)]
pub enum Update {
    Success(UpdateSuccess),
    Warning(UpdateWarning),
}

/// The position of a status along `PingProxy -> FetchCache -> Working -> Complete`.
pub open spec fn status_rank(s: Status) -> int {
    match s {
        Status::PingProxy => 0,
        Status::FetchCache => 1,
        Status::Working => 2,
        Status::Complete => 3,
        Status::Failed => 4,
    }
}

/// The status after a milestone that moves the run from `from` to `to`: the
/// run takes that step only where it stands at `from`, and otherwise stays.
pub open spec fn step_status(current: Status, from: Status, to: Status) -> Status {
    if current == from {
        to
    } else {
        current
    }
}

/// What the progress of a run holds.
pub struct StateView {
    pub status: Status,
    pub is_first_draw: bool,
    pub latest_success: Option<UpdateSuccess>,
    pub latest_warning: Option<UpdateWarning>,
    pub completed_units: nat,
    pub total_units: nat,
}

impl StateView {
    /// The count of completed units does not exceed the total, and a failed
    /// run shows no success.
    pub open spec fn wf(self) -> bool {
        &&& self.completed_units <= self.total_units
        &&& self.status == Status::Failed ==> self.latest_success is None
    }

    /// The state after an item was saved: one more unit is done, while work is
    /// under way and not every unit is done yet.
    pub open spec fn complete_one(self) -> StateView {
        if self.status == Status::Working && self.completed_units < self.total_units {
            StateView { completed_units: self.completed_units + 1, ..self }
        } else {
            self
        }
    }

    /// The state after one message.
    pub open spec fn apply(self, update: Update) -> StateView {
        match update {
            Update::Success(success) => {
                if self.status == Status::Failed {
                    self
                } else {
                    let s = StateView { latest_success: Some(success), ..self };
                    match success {
                        UpdateSuccess::ProxyPing => StateView {
                            status: step_status(s.status, Status::PingProxy, Status::FetchCache),
                            ..s
                        },
                        UpdateSuccess::FetchCache => StateView {
                            status: step_status(s.status, Status::FetchCache, Status::Working),
                            ..s
                        },
                        UpdateSuccess::Complete => StateView {
                            status: step_status(s.status, Status::Working, Status::Complete),
                            ..s
                        },
                        UpdateSuccess::SaveImage { .. } => s.complete_one(),
                        _ => s,
                    }
                }
            },
            Update::Warning(warning) => StateView { latest_warning: Some(warning), ..self },
        }
    }

    /// The state after each message of `updates`, in order.
    pub open spec fn apply_all(self, updates: Seq<Update>) -> StateView
        decreases updates.len(),
    {
        if updates.len() == 0 {
            self
        } else {
            self.apply(updates[0]).apply_all(updates.drop_first())
        }
    }

    /// The state after a fatal error.
    pub open spec fn fail(self) -> StateView {
        StateView { status: Status::Failed, latest_success: None, ..self }
    }
}

/// However many messages arrive, in whatever order, the count of completed
/// units never decreases and never exceeds the total, which stays fixed; and
/// once the run has failed, it shows no success.
pub proof fn lemma_completed_units_bounded(s: StateView, updates: Seq<Update>)
    requires
        s.wf(),
    ensures
        s.apply_all(updates).wf(),
        s.apply_all(updates).completed_units >= s.completed_units,
        s.apply_all(updates).total_units == s.total_units,
        s.fail().wf(),
        s.fail().completed_units == s.completed_units,
    decreases updates.len(),
{
    if updates.len() > 0 {
        lemma_completed_units_bounded(s.apply(updates[0]), updates.drop_first());
    }
}

/// Messages move the status only forward along
/// `PingProxy -> FetchCache -> Working -> Complete`, one step at a time; only a
/// fatal error leads to `Failed`, from any status, and a failed run stays failed.
pub proof fn lemma_status_moves_forward(s: StateView, updates: Seq<Update>)
    ensures
        status_rank(s.apply_all(updates).status) >= status_rank(s.status),
        s.apply_all(updates).status == Status::Failed <==> s.status == Status::Failed,
        s.fail().status == Status::Failed,
    decreases updates.len(),
{
    if updates.len() > 0 {
        lemma_status_moves_forward(s.apply(updates[0]), updates.drop_first());
    }
}

/// One message changes the status by at most one step: the proxy message
/// takes `PingProxy` to `FetchCache`, the cache message takes `FetchCache` to
/// `Working`, the completion message takes `Working` to `Complete`, and every
/// other message leaves the status as it is.
pub proof fn lemma_status_single_step(s: StateView, update: Update)
    ensures
        ({
            let t = s.apply(update).status;
            ||| t == s.status
            ||| s.status == Status::PingProxy && update == Update::Success(UpdateSuccess::ProxyPing)
                && t == Status::FetchCache
            ||| s.status == Status::FetchCache && update == Update::Success(UpdateSuccess::FetchCache)
                && t == Status::Working
            ||| s.status == Status::Working && update == Update::Success(UpdateSuccess::Complete)
                && t == Status::Complete
        }),
{
}

/// The progress of a run, folded from the messages that its tasks send.
#[derive(Clone, Copy, Debug)]
pub struct State {
    status: Status,
    is_first_draw: bool,

    latest_success: Option<UpdateSuccess>,
    latest_warning: Option<UpdateWarning>,

    completed_units: usize,
    total_units: usize,
}

impl View for State {
    type V = StateView;

    closed spec fn view(&self) -> StateView {
        StateView {
            status: self.status,
            is_first_draw: self.is_first_draw,
            latest_success: self.latest_success,
            latest_warning: self.latest_warning,
            completed_units: self.completed_units as nat,
            total_units: self.total_units as nat,
        }
    }
}

impl State {
    #[verifier::type_invariant]
    closed spec fn inv(self) -> bool {
        self@.wf()
    }

    /// A run of `total_units` items that has not begun.
    pub fn new(total_units: usize) -> (r: Self)
        ensures
            r@ == (StateView {
                status: Status::PingProxy,
                is_first_draw: true,
                latest_success: None,
                latest_warning: None,
                completed_units: 0,
                total_units: total_units as nat,
            }),
    {
        Self {
            status: Status::PingProxy,
            is_first_draw: true,

            latest_success: None,
            latest_warning: None,

            completed_units: 0,
            total_units,
        }
    }

    /// Records a fatal error: the run has failed, and no success is shown.
    pub fn set_failed(&mut self)
        ensures
            final(self)@ == old(self)@.fail(),
    {
        proof {
            use_type_invariant(&*self);
        }
        self.latest_success = None;
        self.status = Status::Failed;
    }

    /// Moves past the stages that this run leaves out: the proxy check where
    /// there is no proxy, and the cache where none is fetched. Without a
    /// message for them, the status would wait at them.
    pub fn skip_disabled_stages(&mut self, has_proxy: bool, use_cache: bool)
        ensures
            final(self)@ == (StateView {
                status: if old(self)@.status == Status::PingProxy && !has_proxy && !use_cache {
                    Status::Working
                } else if old(self)@.status == Status::PingProxy && !has_proxy {
                    Status::FetchCache
                } else if old(self)@.status == Status::FetchCache && !use_cache {
                    Status::Working
                } else {
                    old(self)@.status
                },
                ..old(self)@
            }),
    {
        proof {
            use_type_invariant(&*self);
        }
        if self.status == Status::PingProxy && !has_proxy {
            self.status = Status::FetchCache;
        }
        if self.status == Status::FetchCache && !use_cache {
            self.status = Status::Working;
        }
    }

    /// How many of `width` cells of a progress bar are filled: all of them
    /// when there is nothing to do, else the completed share, rounded down.
    pub fn bar_fill(&self, width: usize) -> (r: usize)
        ensures
            self@.total_units == 0 ==> r == width,
            self@.total_units > 0 ==> r as int == (self@.completed_units * width) as int / self@.total_units as int,
            r <= width,
    {
        proof {
            use_type_invariant(self);
        }
        if self.total_units == 0 {
            width
        } else {
            proof {
                let c = self.completed_units as int;
                let t = self.total_units as int;
                let w = width as int;
                assert(c * w <= t * w) by (nonlinear_arith)
                    requires c <= t, 0 <= w;
                assert(c * w / t <= (t * w) / t) by (nonlinear_arith)
                    requires c * w <= t * w, t > 0;
                assert((t * w) / t == w) by (nonlinear_arith)
                    requires t > 0;
                assert(c * w < 0x1_0000_0000_0000_0000_0000_0000_0000_0000) by (nonlinear_arith)
                    requires 0 <= c <= 0xffff_ffff_ffff_ffff, 0 <= w <= 0xffff_ffff_ffff_ffff;
            }
            let filled = (self.completed_units as u128) * (width as u128) / (self.total_units as u128);
            filled as usize
        }
    }

    /// Folds one message into the progress.
    pub fn update(&mut self, update: Update)
        ensures
            final(self)@ == old(self)@.apply(update),
    {
        proof {
            use_type_invariant(&*self);
        }
        match update {
            Update::Success(success) => {
                if self.status == Status::Failed {
                    return;
                }
                self.latest_success = Some(success);
                match success {
                    UpdateSuccess::ProxyPing => {
                        if self.status == Status::PingProxy {
                            self.status = Status::FetchCache;
                        }
                    },
                    UpdateSuccess::FetchCache => {
                        if self.status == Status::FetchCache {
                            self.status = Status::Working;
                        }
                    },
                    UpdateSuccess::Complete => {
                        if self.status == Status::Working {
                            self.status = Status::Complete;
                        }
                    },
                    UpdateSuccess::SaveImage { .. } => {
                        self.increase_complete_units();
                    },
                    _ => (),
                }
            },
            Update::Warning(warning) => {
                self.latest_warning = Some(warning);
            },
        }
    }

    fn increase_complete_units(&mut self)
        ensures
            final(self)@ == old(self)@.complete_one(),
    {
        proof {
            use_type_invariant(&*self);
        }
        if self.status != Status::Working {
            return;
        }
        if self.completed_units < self.total_units {
            self.completed_units += 1;
        }
    }

    pub fn status(&self) -> (r: Status)
        ensures
            r == self@.status,
    {
        self.status
    }

    pub fn latest_success(&self) -> (r: Option<UpdateSuccess>)
        ensures
            r == self@.latest_success,
            self@.status == Status::Failed ==> r is None,
    {
        proof {
            use_type_invariant(self);
        }
        self.latest_success
    }

    pub fn latest_warning(&self) -> (r: Option<UpdateWarning>)
        ensures
            r == self@.latest_warning,
    {
        self.latest_warning
    }

    pub fn completed_units(&self) -> (r: usize)
        ensures
            r as nat == self@.completed_units,
            r <= self@.total_units,
    {
        proof {
            use_type_invariant(self);
        }
        self.completed_units
    }

    pub fn total_units(&self) -> (r: usize)
        ensures
            r as nat == self@.total_units,
    {
        self.total_units
    }

    /// Notes that the progress was drawn, and tells whether that was the first time.
    pub fn record_draw(&mut self) -> (was_first_draw: bool)
        ensures
            was_first_draw == old(self)@.is_first_draw,
            final(self)@ == (StateView { is_first_draw: false, ..old(self)@ }),
    {
        proof {
            use_type_invariant(&*self);
        }
        let was_first_draw = self.is_first_draw;
        self.is_first_draw = false;
        was_first_draw
    }
}

} // verus!
