//! Plans: the steps that carry out one decision.
//!
//! A plan's clicks are aimed in coordinates of the client's choosing; `C` is
//! whatever the platform uses for them.

use vstd::prelude::*;

use crate::events::Platform;

verus! {

/// One step of a plan.
#[derive(Debug)]
pub enum Step<C> {
    /// A click on the canvas.
    Click(C),
    /// A pause, in milliseconds.
    Sleep { duration_ms: u32 },
    /// A wait for the client to take input, in milliseconds at most.
    AwaitReady { timeout_ms: u32 },
    /// A press of the first button that one of the selectors finds.
    DomClick { selectors: Vec<String>, label: String },
    /// A call of the client's own discard handler.
    Discard { tile_index: u32 },
    /// A protocol frame to send.
    SendFrame(Vec<u8>),
}

/// The implementation that plans for a platform.
#[derive(Clone, Copy, Debug, PartialEq, Eq, Structural)]
pub enum Planner {
    Majsoul,
    Tenhou,
    RiichiCity,
}

/// Which implementation plans for a platform.
pub open spec fn planner_of(platform: Platform) -> Planner {
    match platform {
        Platform::Tenhou => Planner::Tenhou,
        Platform::RiichiCity => Planner::RiichiCity,
        _ => Planner::Majsoul,
    }
}

/// Which implementation plans for a platform.
pub fn planner_for(platform: Platform) -> (p: Planner)
    ensures
        p == planner_of(platform),
{
    match platform {
        Platform::Tenhou => Planner::Tenhou,
        Platform::RiichiCity => Planner::RiichiCity,
        _ => Planner::Majsoul,
    }
}

/// Whether a plan clicks on the canvas.
pub open spec fn clicks_canvas<C>(steps: Seq<Step<C>>) -> bool {
    exists|i: int| 0 <= i < steps.len() && #[trigger] steps[i] is Click
}

/// Whether a plan clicks on the canvas, so that it needs to know where it is.
pub fn needs_canvas<C>(steps: &Vec<Step<C>>) -> (res: bool)
    ensures
        res == clicks_canvas(steps@),
{
    let mut i: usize = 0;
    while i < steps.len()
        invariant
            i <= steps.len(),
            forall|j: int| 0 <= j < i ==> !(#[trigger] steps@[j] is Click),
        decreases steps.len() - i,
    {
        if let Step::Click(_) = &steps[i] {
            assert(steps@[i as int] is Click);
            return true;
        }
        i += 1;
    }
    false
}

/// The targets of a plan's clicks, in order.
pub open spec fn click_targets<C>(steps: Seq<Step<C>>) -> Seq<C>
    decreases steps.len(),
{
    if steps.len() == 0 {
        seq![]
    } else {
        match steps.last() {
            Step::Click(at) => click_targets(steps.drop_last()).push(at),
            _ => click_targets(steps.drop_last()),
        }
    }
}

/// The targets of a plan's clicks, in order.
pub fn plan_clicks<C: Copy>(steps: &Vec<Step<C>>) -> (clicks: Vec<C>)
    ensures
        clicks@ == click_targets(steps@),
{
    let mut clicks: Vec<C> = Vec::new();
    let mut i: usize = 0;
    while i < steps.len()
        invariant
            i <= steps.len(),
            clicks@ == click_targets(steps@.take(i as int)),
        decreases steps.len() - i,
    {
        assert(steps@.take(i + 1).drop_last() =~= steps@.take(i as int));
        if let Step::Click(at) = &steps[i] {
            clicks.push(*at);
        }
        i += 1;
    }
    assert(steps@.take(steps.len() as int) =~= steps@);
    clicks
}

/// The length of the last pause in a plan, zero if it has none.
pub open spec fn last_sleep<C>(steps: Seq<Step<C>>) -> u32
    decreases steps.len(),
{
    if steps.len() == 0 {
        0
    } else {
        match steps.last() {
            Step::Sleep { duration_ms } => duration_ms,
            _ => last_sleep(steps.drop_last()),
        }
    }
}

/// The position of the last frame in a plan, if it has one.
pub open spec fn last_frame<C>(steps: Seq<Step<C>>) -> Option<int>
    decreases steps.len(),
{
    if steps.len() == 0 {
        None
    } else {
        match steps.last() {
            Step::SendFrame(_) => Some(steps.len() - 1),
            _ => last_frame(steps.drop_last()),
        }
    }
}

/// A plan read as a pause and a frame: the length of the pause in milliseconds,
/// and the position of the frame among the steps.
pub fn frame_of_plan<C>(steps: &Vec<Step<C>>) -> (res: (u32, Option<usize>))
    ensures
        res.0 == last_sleep(steps@),
        res.1 is Some <==> last_frame(steps@) is Some,
        res.1 matches Some(i) ==> i < steps@.len() && i == last_frame(steps@)->0
            && steps@[i as int] is SendFrame,
{
    let mut sleep_ms: u32 = 0;
    let mut frame: Option<usize> = None;
    let mut i: usize = 0;
    while i < steps.len()
        invariant
            i <= steps.len(),
            sleep_ms == last_sleep(steps@.take(i as int)),
            frame is Some <==> last_frame(steps@.take(i as int)) is Some,
            frame matches Some(j) ==> j < i && j == last_frame(steps@.take(i as int))->0
                && steps@[j as int] is SendFrame,
        decreases steps.len() - i,
    {
        assert(steps@.take(i + 1).drop_last() =~= steps@.take(i as int));
        match &steps[i] {
            Step::Sleep { duration_ms } => {
                sleep_ms = *duration_ms;
            },
            Step::SendFrame(_) => {
                frame = Some(i);
            },
            _ => {},
        }
        i += 1;
    }
    assert(steps@.take(steps.len() as int) =~= steps@);
    (sleep_ms, frame)
}

/// Tenhou and Riichi City have planners of their own, and every other platform is
/// planned for as Mahjong Soul is.
pub proof fn platforms_have_their_planners(platform: Platform)
    ensures
        planner_of(platform) is Tenhou <==> platform is Tenhou,
        planner_of(platform) is RiichiCity <==> platform is RiichiCity,
        planner_of(platform) is Majsoul <==> platform is Majsoul || platform is Other,
{
}

/// The clicks of a plan are the clicks of its parts, one after the other: a step
/// that is a click adds its target, and any other step adds nothing.
pub proof fn clicks_come_in_order<C>(front: Seq<Step<C>>, back: Seq<Step<C>>, step: Step<C>)
    ensures
        click_targets(front + back) == click_targets(front) + click_targets(back),
        click_targets(seq![step]) == match step {
            Step::Click(at) => seq![at],
            _ => Seq::empty(),
        },
        click_targets(Seq::<Step<C>>::empty()) == Seq::<C>::empty(),
    decreases back.len(),
{
    reveal_with_fuel(click_targets, 2);
    assert(seq![step].drop_last() =~= Seq::empty());
    assert(seq![step].last() == step);
    if back.len() == 0 {
        assert(front + back =~= front);
        assert(click_targets(front) + click_targets(back) =~= click_targets(front));
    } else {
        clicks_come_in_order(front, back.drop_last(), step);
        assert((front + back).drop_last() =~= front + back.drop_last());
        assert((front + back).last() == back.last());
        if let Step::Click(at) = back.last() {
            assert(click_targets(front) + click_targets(back) =~= (click_targets(front)
                + click_targets(back.drop_last())).push(at));
        }
    }
}

/// A plan clicks on the canvas exactly if it has clicks.
pub proof fn a_canvas_is_for_clicks<C>(steps: Seq<Step<C>>)
    ensures
        clicks_canvas(steps) <==> click_targets(steps).len() > 0,
        clicks_canvas(steps) <==> exists|i: int|
            0 <= i < steps.len() && (#[trigger] steps[i]) matches Step::Click(_),
    decreases steps.len(),
{
    if steps.len() > 0 {
        let front = steps.drop_last();
        a_canvas_is_for_clicks(front);
        if clicks_canvas(front) {
            let i = choose|i: int| 0 <= i < front.len() && #[trigger] front[i] is Click;
            assert(steps[i] is Click);
        }
        if clicks_canvas(steps) && !(steps.last() is Click) {
            let i = choose|i: int| 0 <= i < steps.len() && #[trigger] steps[i] is Click;
            assert(front[i] is Click);
        }
        assert(steps[steps.len() - 1] == steps.last());
    }
}

/// The pause of a plan is the last one in it, and the frame of a plan is the last
/// one in it. A plan without a pause has one of no length, and a plan without a
/// frame has none.
pub proof fn the_last_of_each_counts<C>(steps: Seq<Step<C>>, i: int)
    ensures
        0 <= i < steps.len() && steps[i] is Sleep && (forall|j: int|
            i < j < steps.len() ==> !(#[trigger] steps[j] is Sleep)) ==> last_sleep(steps)
            == steps[i]->duration_ms,
        (forall|j: int| 0 <= j < steps.len() ==> !(#[trigger] steps[j] is Sleep)) ==> last_sleep(
            steps,
        ) == 0,
        0 <= i < steps.len() && steps[i] is SendFrame && (forall|j: int|
            i < j < steps.len() ==> !(#[trigger] steps[j] is SendFrame)) ==> last_frame(steps)
            == Some(i),
        (forall|j: int| 0 <= j < steps.len() ==> !(#[trigger] steps[j] is SendFrame))
            ==> last_frame(steps) is None,
    decreases steps.len(),
{
    if steps.len() > 0 {
        let front = steps.drop_last();
        the_last_of_each_counts(front, i);
        assert forall|j: int| 0 <= j < front.len() implies #[trigger] front[j] == steps[j] by {}
        assert(steps[steps.len() - 1] == steps.last());
    }
}

} // verus!
