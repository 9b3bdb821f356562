use vstd::prelude::*;

verus! {

/// What the worker's task loop does at its next tick.
#[derive(Clone, Debug)]
pub enum MapperAction {
    /// Ask the coordinator for a map task.
    RequestTask,
    /// Map the lines of this input file.
    ProcessFile(String),
    /// Nothing to do.
    Idle,
}

/// The mathematical value of a [`MapperAction`].
pub enum MapperActionView {
    RequestTask,
    ProcessFile(Seq<char>),
    Idle,
}

impl View for MapperAction {
    type V = MapperActionView;

    open spec fn view(&self) -> MapperActionView {
        match self {
            MapperAction::RequestTask => MapperActionView::RequestTask,
            MapperAction::ProcessFile(name) => MapperActionView::ProcessFile(name@),
            MapperAction::Idle => MapperActionView::Idle,
        }
    }
}

/// The worker's task loop between ticks: whether it holds a task, and the
/// input file of the task it was given.
pub struct MapperState {
    pub has_task: bool,
    pub file_name: Option<String>,
}

/// The mathematical value of a [`MapperState`].
pub struct MapperStateView {
    pub has_task: bool,
    pub file_name: Option<Seq<char>>,
}

impl View for MapperState {
    type V = MapperStateView;

    open spec fn view(&self) -> MapperStateView {
        MapperStateView {
            has_task: self.has_task,
            file_name: match self.file_name {
                Some(name) => Some(name@),
                None => None,
            },
        }
    }
}

/// The action the loop takes in state `state`.
pub open spec fn next_action_of(state: MapperStateView) -> MapperActionView {
    if !state.has_task {
        MapperActionView::RequestTask
    } else {
        match state.file_name {
            Some(name) => MapperActionView::ProcessFile(name),
            None => MapperActionView::Idle,
        }
    }
}

/// The state after the coordinator answered a request with `task_id` and
/// `file_path`: a task is held when both are given, and its file is kept;
/// otherwise the loop asks again at the next tick.
pub open spec fn after_response(
    state: MapperStateView,
    task_id: Option<Seq<char>>,
    file_path: Option<Seq<char>>,
) -> MapperStateView {
    if task_id is Some && file_path is Some {
        MapperStateView { has_task: true, file_name: file_path }
    } else {
        MapperStateView { has_task: false, ..state }
    }
}

impl MapperState {
    /// A loop that holds no task yet.
    pub fn new() -> (state: Self)
        ensures
            state@ == (MapperStateView { has_task: false, file_name: None }),
    {
        MapperState { has_task: false, file_name: None }
    }

    /// Decides what to do at the next tick.
    pub fn next_action(&self) -> (action: MapperAction)
        ensures
            action@ == next_action_of(self@),
    {
        if !self.has_task {
            MapperAction::RequestTask
        } else {
            match &self.file_name {
                Some(name) => MapperAction::ProcessFile(name.clone()),
                None => MapperAction::Idle,
            }
        }
    }

    /// Takes in the coordinator's answer to a request for a task.
    pub fn on_task_response(&mut self, task_id: Option<String>, file_path: Option<String>)
        ensures
            final(self)@ == after_response(
                old(self)@,
                match task_id { Some(id) => Some(id@), None => None },
                match file_path { Some(path) => Some(path@), None => None },
            ),
    {
        self.has_task = true;
        match (task_id, file_path) {
            (Some(_task_id), Some(file_path)) => {
                self.file_name = Some(file_path);
            },
            _ => {
                self.has_task = false;
            },
        }
    }
}

/// Once the loop holds a task with its file, it asks for no other task:
/// every tick works on that file.
pub proof fn lemma_task_kept(state: MapperStateView)
    requires
        state.has_task,
        state.file_name is Some,
    ensures
        next_action_of(state) == MapperActionView::ProcessFile(state.file_name->0),
{
}

} // verus!
