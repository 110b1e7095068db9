//! The schedule cache: replaced wholesale by each successful store read, and
//! read by whole copies.
use crate::errors::AppError;
use crate::schedule::ScheduleQueryResult;
use vstd::prelude::*;

verus! {

/// The in-memory copy of all schedules.
pub struct ScheduleState {
    schedules: Vec<ScheduleQueryResult>,
}

/// The contents after a refresh from `before` with the store's answer
/// `loaded`: the loaded list on success, `before` unchanged on failure.
pub open spec fn after_refresh(
    before: Seq<ScheduleQueryResult>,
    loaded: Result<Vec<ScheduleQueryResult>, AppError>,
) -> Seq<ScheduleQueryResult> {
    match loaded {
        Ok(v) => v@,
        Err(_) => before,
    }
}

impl View for ScheduleState {
    type V = Seq<ScheduleQueryResult>;

    closed spec fn view(&self) -> Seq<ScheduleQueryResult> {
        self.schedules@
    }
}

impl ScheduleState {
    /// An empty cache.
    pub fn new() -> (r: ScheduleState)
        ensures
            r@ == Seq::<ScheduleQueryResult>::empty(),
    {
        ScheduleState { schedules: Vec::new() }
    }

    /// Installs the store's answer `loaded`: on success the cache holds exactly
    /// the loaded schedules; on failure it keeps its contents and the error is
    /// handed back.
    pub fn refresh(&mut self, loaded: Result<Vec<ScheduleQueryResult>, AppError>) -> (r: Result<
        (),
        AppError,
    >)
        ensures
            final(self)@ == after_refresh(old(self)@, loaded),
            loaded is Ok <==> r is Ok,
            loaded matches Err(e) ==> r == Err::<(), AppError>(e),
    {
        match loaded {
            Ok(schedules) => {
                self.schedules = schedules;
                Ok(())
            },
            Err(e) => Err(e),
        }
    }

    /// A full copy of the current contents.
    pub fn get_schedules(&self) -> (r: Vec<ScheduleQueryResult>)
        ensures
            r@ == self@,
    {
        self.schedules.clone()
    }
}

/// A refresh is all or nothing: the contents afterwards are either exactly
/// the contents before or exactly the loaded list, never a mixture of both.
pub proof fn lemma_refresh_all_or_nothing(
    before: Seq<ScheduleQueryResult>,
    loaded: Result<Vec<ScheduleQueryResult>, AppError>,
)
    ensures
        after_refresh(before, loaded) == before || (loaded matches Ok(v)
            && after_refresh(before, loaded) == v@),
        loaded is Err ==> after_refresh(before, loaded) == before,
{
}

} // verus!
