use vstd::prelude::*;

use crate::timestamp::{now, Timestamp};

verus! {

/// Where a map task stands in its life cycle.
#[derive(Clone, Debug)]
pub enum Status {
    Complete,
    InProgress,
    /// The task failed, with the error message.
    Failed(String),
    NotStarted,
}

/// The mathematical value of a [`Status`].
pub enum StatusView {
    Complete,
    InProgress,
    Failed(Seq<char>),
    NotStarted,
}

impl View for Status {
    type V = StatusView;

    open spec fn view(&self) -> StatusView {
        match self {
            Status::Complete => StatusView::Complete,
            Status::InProgress => StatusView::InProgress,
            Status::Failed(message) => StatusView::Failed(message@),
            Status::NotStarted => StatusView::NotStarted,
        }
    }
}

/// A map task: the input file it works on, its status, and when it started
/// and ended.
#[derive(Clone, Debug)]
pub struct TaskInfo {
    task_id: String,
    status: Status,
    start_time: Option<Timestamp>,
    end_time: Option<Timestamp>,
}

/// The mathematical value of a [`TaskInfo`].
pub struct TaskInfoView {
    pub task_id: Seq<char>,
    pub status: StatusView,
    pub start_time: Option<Timestamp>,
    pub end_time: Option<Timestamp>,
}

impl View for TaskInfo {
    type V = TaskInfoView;

    closed spec fn view(&self) -> TaskInfoView {
        TaskInfoView {
            task_id: self.task_id@,
            status: self.status@,
            start_time: self.start_time,
            end_time: self.end_time,
        }
    }
}

impl TaskInfo {
    /// A task that has not started yet.
    pub fn new(task_id: &str) -> (task: Self)
        ensures
            task@ == (TaskInfoView {
                task_id: task_id@,
                status: StatusView::NotStarted,
                start_time: None,
                end_time: None,
            }),
    {
        TaskInfo { task_id: task_id.to_owned(), status: Status::NotStarted, start_time: None, end_time: None }
    }

    /// The input file the task works on.
    pub fn task_id(&self) -> (id: &String)
        ensures
            id@ == self@.task_id,
    {
        &self.task_id
    }

    /// The task's status.
    pub fn status(&self) -> (status: &Status)
        ensures
            status@ == self@.status,
    {
        &self.status
    }

    /// When the task started, if it has.
    pub fn start_time(&self) -> (time: Option<Timestamp>)
        ensures
            time == self@.start_time,
    {
        self.start_time
    }

    /// When the task ended, if it has.
    pub fn end_time(&self) -> (time: Option<Timestamp>)
        ensures
            time == self@.end_time,
    {
        self.end_time
    }

    /// Marks the task as in progress since `at`.
    pub fn start_at(&mut self, at: Timestamp)
        ensures
            final(self)@ == (TaskInfoView {
                status: StatusView::InProgress,
                start_time: Some(at),
                ..old(self)@
            }),
    {
        self.status = Status::InProgress;
        self.start_time = Some(at);
    }

    /// Marks the task as complete since `at`.
    pub fn complete_at(&mut self, at: Timestamp)
        ensures
            final(self)@ == (TaskInfoView {
                status: StatusView::Complete,
                end_time: Some(at),
                ..old(self)@
            }),
    {
        self.status = Status::Complete;
        self.end_time = Some(at);
    }

    /// Marks the task as failed with `error_message`, ending at `at`.
    pub fn fail_at(&mut self, error_message: String, at: Timestamp)
        ensures
            final(self)@ == (TaskInfoView {
                status: StatusView::Failed(error_message@),
                end_time: Some(at),
                ..old(self)@
            }),
    {
        self.status = Status::Failed(error_message);
        self.end_time = Some(at);
    }

    /// Marks the task as in progress from the current time.
    pub fn start(&mut self)
        ensures
            exists|at: Timestamp|
                at.normalized() && final(self)@ == (TaskInfoView {
                    status: StatusView::InProgress,
                    start_time: Some(at),
                    ..old(self)@
                }),
    {
        self.start_at(now());
    }

    /// Marks the task as complete at the current time.
    pub fn complete(&mut self)
        ensures
            exists|at: Timestamp|
                at.normalized() && final(self)@ == (TaskInfoView {
                    status: StatusView::Complete,
                    end_time: Some(at),
                    ..old(self)@
                }),
    {
        self.complete_at(now());
    }

    /// Marks the task as failed with `error_message` at the current time.
    pub fn fail(&mut self, error_message: String)
        ensures
            exists|at: Timestamp|
                at.normalized() && final(self)@ == (TaskInfoView {
                    status: StatusView::Failed(error_message@),
                    end_time: Some(at),
                    ..old(self)@
                }),
    {
        self.fail_at(error_message, now());
    }
}

} // verus!
