use vstd::prelude::*;
use crate::channel::{DeliverySender, ResultChannel};
use crate::fetch::{delivered_by, lemma_failures_deliver_nothing, FetchError};
use crate::lift::{build_draft, category_name, Lift, LiftType, NewLift, Timestamp};

verus! {

/// The visible lift sequence after a frame that drained `delivered`, in the
/// order it was sent: each delivery replaces the whole sequence, so the last
/// one is shown; a frame that drained nothing leaves it as it was.
pub open spec fn reconciled(current: Seq<Lift>, delivered: Seq<Vec<Lift>>) -> Seq<Lift> {
    if delivered.len() == 0 {
        current
    } else {
        delivered.last()@
    }
}

/// The part of the application state that is saved on shutdown and restored
/// on startup: everything but the channel.
pub struct PersistedState {
    pub lifts: Vec<Lift>,
    pub submitlift_open: bool,
    pub new_lift: NewLift,
    pub lift_type: LiftType,
}

/// The state the UI thread owns: the lifts of the latest fetch that was
/// delivered, the submission form, and the channel through which background
/// fetches hand their results back.
pub struct TemplateApp {
    pub channel: ResultChannel,
    pub lifts: Vec<Lift>,
    pub submitlift_open: bool,
    pub new_lift: NewLift,
    pub lift_type: LiftType,
}

impl TemplateApp {
    /// Everything but the visible lift sequence is as in `other`.
    pub open spec fn same_but_lifts(&self, other: TemplateApp) -> bool {
        &&& self.channel == other.channel
        &&& self.submitlift_open == other.submitlift_open
        &&& self.new_lift == other.new_lift
        &&& self.lift_type == other.lift_type
    }

    /// `after` is `before` once a frame has drained `delivered`.
    pub open spec fn frame_applied(before: TemplateApp, after: TemplateApp, delivered: Seq<
        Vec<Lift>,
    >) -> bool {
        &&& after.lifts@ == reconciled(before.lifts@, delivered)
        &&& after.same_but_lifts(before)
    }

    /// The state of a first start: no lifts until a fetch is delivered, the
    /// form closed, with a blank draft on the first category.
    pub open spec fn is_initial(&self) -> bool {
        &&& self.lifts@.len() == 0
        &&& !self.submitlift_open
        &&& self.new_lift.lift@ == category_name(LiftType::Bench)
        &&& self.new_lift.weight == 0
        &&& self.new_lift.reps == 0
        &&& self.new_lift.rpe == 0
        &&& self.new_lift.time == (Timestamp { secs: 0, nanos: 0 })
        &&& self.lift_type == LiftType::Bench
    }

    /// The state restored from `saved`, with a channel of its own.
    pub open spec fn restores(&self, saved: PersistedState) -> bool {
        &&& self.lifts == saved.lifts
        &&& self.submitlift_open == saved.submitlift_open
        &&& self.new_lift == saved.new_lift
        &&& self.lift_type == saved.lift_type
    }

    /// The state to start from: the saved one where there is one, else the
    /// initial state.
    pub fn new(saved: Option<PersistedState>) -> (r: TemplateApp)
        ensures
            match saved {
                Some(s) => r.restores(s),
                None => r.is_initial(),
            },
    {
        match saved {
            Some(s) => {
                TemplateApp {
                    channel: ResultChannel::new(),
                    lifts: s.lifts,
                    submitlift_open: s.submitlift_open,
                    new_lift: s.new_lift,
                    lift_type: s.lift_type,
                }
            },
            None => TemplateApp::initial(),
        }
    }

    /// The state of a first start.
    pub fn initial() -> (r: TemplateApp)
        ensures
            r.is_initial(),
    {
        TemplateApp {
            channel: ResultChannel::new(),
            lifts: Vec::new(),
            submitlift_open: false,
            new_lift: NewLift::blank(),
            lift_type: LiftType::Bench,
        }
    }

    /// Applies the results a frame drained, in the order they were sent:
    /// each replaces the visible lift sequence wholesale, so the last wins.
    pub fn apply_deliveries(&mut self, delivered: Vec<Vec<Lift>>)
        ensures
            TemplateApp::frame_applied(*old(self), *final(self), delivered@),
    {
        let mut delivered = delivered;
        match delivered.pop() {
            Some(last) => {
                self.lifts = last;
            },
            None => {},
        }
    }

    /// The reconciliation step, run once at the start of every frame: takes
    /// every result queued so far without waiting, and applies them in order.
    pub fn reconcile(&mut self)
        ensures
            exists|delivered: Seq<Vec<Lift>>|
                TemplateApp::frame_applied(*old(self), *final(self), delivered),
    {
        let delivered = self.channel.try_receive_all();
        self.apply_deliveries(delivered);
    }

    /// Opens the submission form when it is closed, and closes it when open.
    pub fn toggle_submit_form(&mut self)
        ensures
            final(self).submitlift_open == !old(self).submitlift_open,
            final(self).lifts == old(self).lifts,
            final(self).new_lift == old(self).new_lift,
            final(self).lift_type == old(self).lift_type,
            final(self).channel == old(self).channel,
    {
        self.submitlift_open = !self.submitlift_open;
    }

    /// The submit action at instant `now`: records the selected category's
    /// name in the form's draft, returns the draft to send, stamped with
    /// `now`, and closes the form without waiting for the outcome of the
    /// submission.
    pub fn submit(&mut self, now: Timestamp) -> (r: NewLift)
        ensures
            r.lift@ == category_name(old(self).lift_type),
            r.weight == old(self).new_lift.weight,
            r.reps == old(self).new_lift.reps,
            r.rpe == old(self).new_lift.rpe,
            r.time == now,
            final(self).new_lift.lift@ == category_name(old(self).lift_type),
            final(self).new_lift.weight == old(self).new_lift.weight,
            final(self).new_lift.reps == old(self).new_lift.reps,
            final(self).new_lift.rpe == old(self).new_lift.rpe,
            final(self).new_lift.time == old(self).new_lift.time,
            !final(self).submitlift_open,
            final(self).lifts == old(self).lifts,
            final(self).lift_type == old(self).lift_type,
            final(self).channel == old(self).channel,
    {
        self.new_lift.lift = self.lift_type.name().to_owned();
        let draft = build_draft(
            self.lift_type,
            self.new_lift.weight,
            self.new_lift.reps,
            self.new_lift.rpe,
            now,
        );
        self.submitlift_open = false;
        draft
    }

    /// A sending half for a background fetch to deliver its result through;
    /// nothing has been sent through it yet.
    pub fn sender(&self) -> (r: DeliverySender)
        ensures
            r.sent() == Seq::<Vec<Lift>>::empty(),
    {
        self.channel.sender()
    }
}

impl Default for TemplateApp {
    fn default() -> (r: TemplateApp)
        ensures
            r.is_initial(),
    {
        TemplateApp::initial()
    }
}

/// A frame that drains nothing leaves the whole state as it was.
pub proof fn lemma_empty_frame_changes_nothing(before: TemplateApp, after: TemplateApp)
    requires
        TemplateApp::frame_applied(before, after, Seq::empty()),
    ensures
        after.lifts@ == before.lifts@,
        after.same_but_lifts(before),
{
}

/// A delivered fetch result replaces the visible lifts: exactly its lifts are
/// shown afterwards, with none of the earlier ones kept beside them.
pub proof fn lemma_delivery_replaces(before: TemplateApp, after: TemplateApp, delivery: Vec<Lift>)
    requires
        TemplateApp::frame_applied(before, after, seq![delivery]),
    ensures
        after.lifts@ == delivery@,
{
}

/// When two results are drained in one frame, the one sent later is shown.
pub proof fn lemma_later_delivery_wins(
    before: TemplateApp,
    after: TemplateApp,
    first: Vec<Lift>,
    second: Vec<Lift>,
)
    requires
        TemplateApp::frame_applied(before, after, seq![first, second]),
    ensures
        after.lifts@ == second@,
{
}

/// Fetches that all failed leave the state as it was: the frame that drains
/// what they sent changes nothing. What the outcomes sent is
/// `delivered_by(outcomes)`: `complete_fetch` sends `delivery_of(outcome)`
/// for each, as its contract and `lemma_delivered_by_step` state.
pub proof fn lemma_failed_fetches_change_nothing(
    outcomes: Seq<Result<Vec<Lift>, FetchError>>,
    before: TemplateApp,
    after: TemplateApp,
)
    requires
        forall|i: int| 0 <= i < outcomes.len() ==> (#[trigger] outcomes[i]) is Err,
        TemplateApp::frame_applied(before, after, delivered_by(outcomes)),
    ensures
        after.lifts@ == before.lifts@,
        after.same_but_lifts(before),
{
    lemma_failures_deliver_nothing(outcomes);
}

} // verus!
