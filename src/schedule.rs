//! The schedule record and its recurrence kinds.
use vstd::prelude::*;

verus! {

/// How a schedule recurs after its anchor.
#[derive(Clone, Copy, Debug, PartialEq, Eq, Structural)]
pub enum Repeat {
    Once,
    Daily,
    Weekly,
    Monthly,
    Yearly,
}

/// One reminder as held by the store and the cache.
///
/// `date` is the anchor instant in seconds since the Unix epoch.
#[derive(Debug)]
pub struct ScheduleQueryResult {
    pub id: i32,
    pub content: Option<String>,
    pub date: i64,
    pub remind: bool,
    pub repeat: Repeat,
}

impl Clone for ScheduleQueryResult {
    fn clone(&self) -> (r: Self)
        ensures
            r == *self,
    {
        let content = match &self.content {
            Some(c) => Some(c.clone()),
            None => None,
        };
        ScheduleQueryResult {
            id: self.id,
            content,
            date: self.date,
            remind: self.remind,
            repeat: self.repeat,
        }
    }
}

} // verus!
