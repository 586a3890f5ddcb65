//! What the window steps do to the projector window, and the properties of the
//! open, close and update tasks stated over that model.

use vstd::prelude::*;
use crate::monitor::MonitorInfo;
use crate::projector::{
    close_steps, open_steps, target_spec, update_steps, TaskState, WindowStep, SETTLE_MILLIS,
};

verus! {

/// The projector window as the user sees it. `position` and `size` are `None`
/// while the platform's default placement holds; `received` lists the slide
/// payloads delivered to it, oldest first.
pub struct ProjectorModel {
    pub open: bool,
    pub position: Option<(i32, i32)>,
    pub size: Option<(u32, u32)>,
    pub visible: bool,
    pub received: Seq<Seq<char>>,
}

/// No projector window.
pub open spec fn absent() -> ProjectorModel {
    ProjectorModel { open: false, position: None, size: None, visible: false, received: seq![] }
}

/// The effect of one successful step.
pub open spec fn apply_step(w: ProjectorModel, s: WindowStep) -> ProjectorModel {
    match s {
        WindowStep::Create => ProjectorModel {
            open: true,
            position: None,
            size: None,
            visible: false,
            received: seq![],
        },
        WindowStep::Move { x, y } => ProjectorModel { position: Some((x, y)), ..w },
        WindowStep::Resize { width, height } => ProjectorModel { size: Some((width, height)), ..w },
        WindowStep::Settle { .. } => w,
        WindowStep::Show => ProjectorModel { visible: true, ..w },
        WindowStep::Close => absent(),
        WindowStep::Emit { payload } => if w.open {
            ProjectorModel { received: w.received.push(payload@), ..w }
        } else {
            w
        },
    }
}

/// The effect of a sequence of successful steps, first to last.
pub open spec fn apply_steps(w: ProjectorModel, steps: Seq<WindowStep>) -> ProjectorModel
    decreases steps.len(),
{
    if steps.len() == 0 {
        w
    } else {
        apply_steps(apply_step(w, steps[0]), steps.subrange(1, steps.len() as int))
    }
}

/// Performing `s` after `a` is performing `a`, then `s`.
proof fn lemma_apply_cons(w: ProjectorModel, a: WindowStep, s: Seq<WindowStep>)
    ensures
        apply_steps(w, seq![a] + s) == apply_steps(apply_step(w, a), s),
{
    let full = seq![a] + s;
    assert(full.subrange(1, full.len() as int) =~= s);
    assert(full[0] == a);
}

proof fn lemma_apply_one(w: ProjectorModel, a: WindowStep)
    ensures
        apply_steps(w, seq![a]) == apply_step(w, a),
{
    lemma_apply_cons(w, a, seq![]);
    assert(seq![a] + Seq::<WindowStep>::empty() =~= seq![a]);
    assert(apply_steps(apply_step(w, a), seq![]) == apply_step(w, a));
}

proof fn lemma_apply_two(w: ProjectorModel, a: WindowStep, b: WindowStep)
    ensures
        apply_steps(w, seq![a, b]) == apply_step(apply_step(w, a), b),
{
    lemma_apply_cons(w, a, seq![b]);
    assert(seq![a] + seq![b] =~= seq![a, b]);
    lemma_apply_one(apply_step(w, a), b);
}

proof fn lemma_apply_five(w: ProjectorModel, a: WindowStep, b: WindowStep, c: WindowStep, d: WindowStep, e: WindowStep)
    ensures
        apply_steps(w, seq![a, b, c, d, e])
            == apply_step(apply_step(apply_step(apply_step(apply_step(w, a), b), c), d), e),
{
    let w1 = apply_step(w, a);
    let w2 = apply_step(w1, b);
    let w3 = apply_step(w2, c);
    lemma_apply_cons(w, a, seq![b, c, d, e]);
    assert(seq![a] + seq![b, c, d, e] =~= seq![a, b, c, d, e]);
    lemma_apply_cons(w1, b, seq![c, d, e]);
    assert(seq![b] + seq![c, d, e] =~= seq![b, c, d, e]);
    lemma_apply_cons(w2, c, seq![d, e]);
    assert(seq![c] + seq![d, e] =~= seq![c, d, e]);
    lemma_apply_two(w3, d, e);
}

/// Opening with no monitor chosen shows the window at the default placement,
/// whatever the monitors and whatever window there was before.
pub proof fn law_open_default(monitors: Seq<MonitorInfo>, w: ProjectorModel)
    ensures
        open_steps(target_spec(monitors, None)) == seq![WindowStep::Create, WindowStep::Show],
        ({
            let r = apply_steps(w, open_steps(target_spec(monitors, None)));
            r.open && r.visible && r.position is None && r.size is None
        }),
{
    lemma_apply_two(w, WindowStep::Create, WindowStep::Show);
}

/// Opening on monitor `i`, when it exists, makes the shown window cover exactly
/// that monitor's reported rectangle.
pub proof fn law_open_on_monitor(monitors: Seq<MonitorInfo>, i: usize, w: ProjectorModel)
    requires
        (i as int) < monitors.len(),
    ensures
        ({
            let m = monitors[i as int];
            let r = apply_steps(w, open_steps(target_spec(monitors, Some(i))));
            &&& r.open
            &&& r.visible
            &&& r.position == Some((m.x, m.y))
            &&& r.size == Some((m.width, m.height))
        }),
{
    let m = monitors[i as int];
    lemma_apply_five(
        w,
        WindowStep::Create,
        WindowStep::Move { x: m.x, y: m.y },
        WindowStep::Resize { width: m.width, height: m.height },
        WindowStep::Settle { millis: SETTLE_MILLIS },
        WindowStep::Show,
    );
}

/// An index past the last monitor opens the window exactly as no index does.
pub proof fn law_open_out_of_bounds(monitors: Seq<MonitorInfo>, i: usize)
    requires
        (i as int) >= monitors.len(),
    ensures
        open_steps(target_spec(monitors, Some(i))) == open_steps(target_spec(monitors, None)),
{
}

/// Closing when there is no window does nothing and succeeds.
pub proof fn law_close_absent()
    ensures
        close_steps(false).len() == 0,
        TaskState::start(close_steps(false)).finished(),
        TaskState::start(close_steps(false)).outcome() is Ok,
{
}

/// Updating when there is no window emits nothing and succeeds.
pub proof fn law_update_absent(payload: String)
    ensures
        update_steps(false, payload).len() == 0,
        TaskState::start(update_steps(false, payload)).finished(),
        TaskState::start(update_steps(false, payload)).outcome() is Ok,
{
}

/// Updating an open window emits exactly one event, and the window receives
/// the payload unchanged.
pub proof fn law_update_delivers(payload: String, w: ProjectorModel)
    requires
        w.open,
    ensures
        update_steps(true, payload) == seq![WindowStep::Emit { payload }],
        apply_steps(w, update_steps(true, payload)).received == w.received.push(payload@),
{
    lemma_apply_one(w, WindowStep::Emit { payload });
}

/// Closing an open window removes it.
pub proof fn law_close_present(w: ProjectorModel)
    ensures
        apply_steps(w, close_steps(true)) == absent(),
{
    lemma_apply_one(w, WindowStep::Close);
}

} // verus!
