use vstd::prelude::*;

verus! {

/// A UTC instant: whole seconds since the Unix epoch and the nanoseconds
/// within that second (up to two seconds' worth during a leap second).
#[derive(Clone, Copy, Debug, PartialEq, Eq, Structural)]
pub struct Timestamp {
    pub secs: i64,
    pub nanos: u32,
}

impl Timestamp {
    pub open spec fn wf(&self) -> bool {
        self.nanos < 2_000_000_000
    }
}

/// The closed set of exercise categories a lift can be recorded under.
#[derive(Clone, Copy, Debug, PartialEq, Eq, Structural)]
pub enum LiftType {
    Bench,
    Squat,
    Deadlift,
}

/// The canonical display name of a category, which is also the exercise
/// name sent to the remote service.
pub open spec fn category_name(t: LiftType) -> Seq<char> {
    match t {
        LiftType::Bench => "Bench"@,
        LiftType::Squat => "Squat"@,
        LiftType::Deadlift => "Deadlift"@,
    }
}

impl LiftType {
    pub fn name(&self) -> (r: &'static str)
        ensures
            r@ == category_name(*self),
    {
        match self {
            LiftType::Bench => "Bench",
            LiftType::Squat => "Squat",
            LiftType::Deadlift => "Deadlift",
        }
    }
}

/// A lift as the remote service stores it: it always carries the
/// identifier the service assigned.
#[derive(Clone, Debug, PartialEq)]
pub struct Lift {
    pub id: i32,
    pub lift: String,
    pub weight: i32,
    pub reps: i32,
    pub rpe: i32,
    pub time: Timestamp,
}

/// A lift built on the client and not yet accepted by the service: it has
/// no identifier.
#[derive(Debug)]
pub struct NewLift {
    pub lift: String,
    pub weight: i32,
    pub reps: i32,
    pub rpe: i32,
    pub time: Timestamp,
}

impl NewLift {
    /// The form's starting draft: the first category, zero weight, reps and
    /// RPE, stamped at the epoch until it is submitted.
    pub fn blank() -> (r: NewLift)
        ensures
            r.lift@ == category_name(LiftType::Bench),
            r.weight == 0,
            r.reps == 0,
            r.rpe == 0,
            r.time == (Timestamp { secs: 0, nanos: 0 }),
    {
        NewLift {
            lift: LiftType::Bench.name().to_owned(),
            weight: 0,
            reps: 0,
            rpe: 0,
            time: Timestamp { secs: 0, nanos: 0 },
        }
    }
}

/// The draft submitted for a category and the form's values, stamped with
/// `time`, the instant of submission; it carries no identifier.
pub fn build_draft(category: LiftType, weight: i32, reps: i32, rpe: i32, time: Timestamp) -> (r:
    NewLift)
    ensures
        r.lift@ == category_name(category),
        r.weight == weight,
        r.reps == reps,
        r.rpe == rpe,
        r.time == time,
{
    NewLift { lift: category.name().to_owned(), weight, reps, rpe, time }
}

} // verus!
