//! The projector window: the steps that open, close and update it, a runner
//! that performs them in order and stops at the first failure, and a model of
//! what the steps do to the window.

use vstd::prelude::*;
use crate::monitor::MonitorInfo;

verus! {

/// Milliseconds to wait after moving the window, before it is shown.
pub const SETTLE_MILLIS: u64 = 50;

/// One call on the platform's window.
#[derive(Clone, Debug)]
pub enum WindowStep {
    /// Create the hidden, undecorated projector window (see `projector_config`).
    Create,
    /// Move its top-left corner to a physical position.
    Move { x: i32, y: i32 },
    /// Give it a physical size.
    Resize { width: u32, height: u32 },
    /// Wait for the window manager to settle the move.
    Settle { millis: u64 },
    /// Make it visible.
    Show,
    /// Close it.
    Close,
    /// Send it the slide-update event with this payload.
    Emit { payload: String },
}

/// How the projector window is created.
#[derive(Clone, Debug)]
pub struct WindowConfig {
    pub label: String,
    pub url: String,
    pub title: String,
    pub decorations: bool,
    pub skip_taskbar: bool,
    pub fullscreen: bool,
    pub visible: bool,
}

/// The name that addresses the projector window.
pub open spec fn projector_label_text() -> Seq<char> {
    "projector"@
}

/// The name of the event that carries a slide update.
pub open spec fn slide_event_text() -> Seq<char> {
    "update-slide"@
}

pub fn projector_label() -> (r: &'static str)
    ensures
        r@ == projector_label_text(),
{
    "projector"
}

pub fn slide_event() -> (r: &'static str)
    ensures
        r@ == slide_event_text(),
{
    "update-slide"
}

/// The projector window is undecorated, kept off the taskbar, not fullscreen,
/// and starts hidden so that it can be placed before it is shown.
pub fn projector_config() -> (r: WindowConfig)
    ensures
        r.label@ == projector_label_text(),
        r.url@ == "/projector"@,
        r.title@ == "Church Presenter - Projector"@,
        !r.decorations,
        r.skip_taskbar,
        !r.fullscreen,
        !r.visible,
{
    WindowConfig {
        label: String::from_str(projector_label()),
        url: String::from_str("/projector"),
        title: String::from_str("Church Presenter - Projector"),
        decorations: false,
        skip_taskbar: true,
        fullscreen: false,
        visible: false,
    }
}

/// The monitor that an index chooses: none when it is absent or out of bounds.
pub open spec fn target_spec(monitors: Seq<MonitorInfo>, index: Option<usize>) -> Option<MonitorInfo> {
    match index {
        Some(i) => if (i as int) < monitors.len() { Some(monitors[i as int]) } else { None },
        None => None,
    }
}

pub fn target_monitor(monitors: &Vec<MonitorInfo>, index: Option<usize>) -> (r: Option<MonitorInfo>)
    ensures
        r == target_spec(monitors@, index),
{
    match index {
        Some(i) => if i < monitors.len() { Some(monitors[i]) } else { None },
        None => None,
    }
}

/// Opening: create hidden; on a chosen monitor, cover it exactly and let the
/// move settle; then show.
pub open spec fn open_steps(target: Option<MonitorInfo>) -> Seq<WindowStep> {
    match target {
        Some(m) => seq![
            WindowStep::Create,
            WindowStep::Move { x: m.x, y: m.y },
            WindowStep::Resize { width: m.width, height: m.height },
            WindowStep::Settle { millis: SETTLE_MILLIS },
            WindowStep::Show,
        ],
        None => seq![WindowStep::Create, WindowStep::Show],
    }
}

/// Closing: nothing to do when there is no window.
pub open spec fn close_steps(present: bool) -> Seq<WindowStep> {
    if present { seq![WindowStep::Close] } else { seq![] }
}

/// Updating: one event with the payload as given, or nothing when there is no window.
pub open spec fn update_steps(present: bool, payload: String) -> Seq<WindowStep> {
    if present { seq![WindowStep::Emit { payload }] } else { seq![] }
}

/// What a task has reached: its steps, how many were attempted, and the
/// platform's error if one failed.
pub struct TaskState {
    pub steps: Seq<WindowStep>,
    pub done: nat,
    pub failure: Option<String>,
}

impl TaskState {
    pub open spec fn wf(self) -> bool {
        &&& self.done <= self.steps.len()
        &&& (self.failure is Some ==> self.done > 0)
    }

    pub open spec fn finished(self) -> bool {
        self.failure is Some || self.done == self.steps.len()
    }

    pub open spec fn outcome(self) -> Result<(), String> {
        match self.failure {
            Some(e) => Err(e),
            None => Ok(()),
        }
    }

    /// A fresh task over these steps.
    pub open spec fn start(steps: Seq<WindowStep>) -> TaskState {
        TaskState { steps, done: 0, failure: None }
    }
}

/// A sequence of window steps, performed one at a time by the caller, that
/// stops at the first step the platform reports as failed.
pub struct WindowTask {
    steps: Vec<WindowStep>,
    done: usize,
    failure: Option<String>,
}

impl View for WindowTask {
    type V = TaskState;

    closed spec fn view(&self) -> TaskState {
        TaskState { steps: self.steps@, done: self.done as nat, failure: self.failure }
    }
}

impl WindowTask {
    fn start(steps: Vec<WindowStep>) -> (r: WindowTask)
        ensures
            r@ == TaskState::start(steps@),
    {
        WindowTask { steps, done: 0, failure: None }
    }

    /// The step to perform next, or `None` once the task is finished.
    pub fn current(&self) -> (r: Option<&WindowStep>)
        requires
            self@.wf(),
        ensures
            self@.finished() ==> r is None,
            !self@.finished() ==> r == Some(&self@.steps[self@.done as int]),
    {
        if self.failure.is_some() || self.done >= self.steps.len() {
            None
        } else {
            Some(&self.steps[self.done])
        }
    }

    pub fn is_finished(&self) -> (r: bool)
        requires
            self@.wf(),
        ensures
            r == self@.finished(),
    {
        self.failure.is_some() || self.done >= self.steps.len()
    }

    /// Records what the platform answered to the current step.
    pub fn record(&mut self, answer: Result<(), String>)
        requires
            old(self)@.wf(),
            !old(self)@.finished(),
        ensures
            final(self)@.wf(),
            final(self)@.steps == old(self)@.steps,
            final(self)@.done == old(self)@.done + 1,
            final(self)@.failure == (match answer {
                Ok(_) => None,
                Err(e) => Some(e),
            }),
    {
        let n = self.steps.len();
        assert(self.done < n);
        self.done = self.done + 1;
        match answer {
            Ok(_) => {},
            Err(e) => {
                self.failure = Some(e);
            },
        }
    }

    /// What the whole task returns: the first failure, or success.
    pub fn outcome(self) -> (r: Result<(), String>)
        requires
            self@.wf(),
            self@.finished(),
        ensures
            r == self@.outcome(),
    {
        match self.failure {
            Some(e) => Err(e),
            None => Ok(()),
        }
    }
}

/// The task that opens the projector window on the monitor that `index`
/// chooses among `monitors`, or at the default placement.
pub fn open_task(monitors: &Vec<MonitorInfo>, index: Option<usize>) -> (r: WindowTask)
    ensures
        r@ == TaskState::start(open_steps(target_spec(monitors@, index))),
        r@.wf(),
{
    let target = target_monitor(monitors, index);
    let mut steps: Vec<WindowStep> = Vec::new();
    steps.push(WindowStep::Create);
    match target {
        Some(m) => {
            steps.push(WindowStep::Move { x: m.x, y: m.y });
            steps.push(WindowStep::Resize { width: m.width, height: m.height });
            steps.push(WindowStep::Settle { millis: SETTLE_MILLIS });
        },
        None => {},
    }
    steps.push(WindowStep::Show);
    assert(steps@ =~= open_steps(target_spec(monitors@, index)));
    WindowTask::start(steps)
}

/// The task that closes the projector window, given whether it exists.
pub fn close_task(present: bool) -> (r: WindowTask)
    ensures
        r@ == TaskState::start(close_steps(present)),
        r@.wf(),
        !present ==> r@.finished() && r@.outcome() is Ok,
{
    let mut steps: Vec<WindowStep> = Vec::new();
    if present {
        steps.push(WindowStep::Close);
    }
    assert(steps@ =~= close_steps(present));
    WindowTask::start(steps)
}

/// The task that sends `payload` to the projector window, given whether it exists.
pub fn update_task(present: bool, payload: String) -> (r: WindowTask)
    ensures
        r@ == TaskState::start(update_steps(present, payload)),
        r@.wf(),
        !present ==> r@.finished() && r@.outcome() is Ok,
{
    let mut steps: Vec<WindowStep> = Vec::new();
    if present {
        steps.push(WindowStep::Emit { payload });
    }
    assert(steps@ =~= update_steps(present, payload));
    WindowTask::start(steps)
}

} // verus!
