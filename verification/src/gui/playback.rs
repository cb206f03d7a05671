//! What follows from the frame-by-frame behaviour of a message box when
//! frames are strung together.

use vstd::prelude::*;
use crate::fixed::clamp;
use crate::graphics::DrawOp;
use crate::gui::sequencer::{SequencerState, CHARACTER, REVEAL_RATE};
use crate::text::PageView;

verus! {

/// One frame as a message box lives it.
pub struct Frame {
    /// Whether the reader confirmed in this frame.
    pub confirm: bool,
    /// Milliseconds since the frame before.
    pub delta: int,
}

/// The state that `frames` lead to from `state`, first frame first.
pub open spec fn play(state: SequencerState, frames: Seq<Frame>) -> SequencerState
    decreases frames.len(),
{
    if frames.len() == 0 {
        state
    } else {
        play(state, frames.drop_last()).step(frames.last().confirm, frames.last().delta)
    }
}

/// Milliseconds that `frames` take together.
pub open spec fn elapsed(frames: Seq<Frame>) -> int
    decreases frames.len(),
{
    if frames.len() == 0 {
        0
    } else {
        elapsed(frames.drop_last()) + frames.last().delta
    }
}

/// No frame in `frames` carries a confirmation.
pub open spec fn unconfirmed(frames: Seq<Frame>) -> bool {
    forall|i: int| 0 <= i < frames.len() ==> !(#[trigger] frames[i]).confirm
}

/// Time does not run backwards in `frames`.
pub open spec fn forward(frames: Seq<Frame>) -> bool {
    forall|i: int| 0 <= i < frames.len() ==> (#[trigger] frames[i]).delta >= 0
}

/// A frame changes neither the message nor where and how it is written,
/// and never brings a box to life or puts it away.
pub proof fn lemma_step_keeps_setting(state: SequencerState, confirm: bool, delta: int)
    ensures
        state.step(confirm, delta).message == state.message,
        state.step(confirm, delta).origin == state.origin,
        state.step(confirm, delta).font == state.font,
        state.step(confirm, delta).alive == state.alive,
{
}

/// Frames change neither the message nor where and how it is written,
/// and never bring a box to life or put it away.
pub proof fn lemma_play_keeps_setting(state: SequencerState, frames: Seq<Frame>)
    ensures
        play(state, frames).message == state.message,
        play(state, frames).origin == state.origin,
        play(state, frames).font == state.font,
        play(state, frames).alive == state.alive,
    decreases frames.len(),
{
    if frames.len() > 0 {
        lemma_play_keeps_setting(state, frames.drop_last());
        lemma_step_keeps_setting(
            play(state, frames.drop_last()),
            frames.last().confirm,
            frames.last().delta,
        );
    }
}

/// A box that is not alive ignores frames.
pub proof fn lemma_dead_box_ignores_frames(state: SequencerState, frames: Seq<Frame>)
    requires
        !state.alive,
    ensures
        play(state, frames) == state,
        state.drawn() == Seq::<DrawOp>::empty(),
    decreases frames.len(),
{
    if frames.len() > 0 {
        lemma_dead_box_ignores_frames(state, frames.drop_last());
    }
}

/// A consistent box stays consistent through a frame.
pub proof fn lemma_step_keeps_consistent(state: SequencerState, confirm: bool, delta: int)
    requires
        state.consistent(),
    ensures
        state.step(confirm, delta).consistent(),
{
}

/// A consistent box stays consistent through any frames.
pub proof fn lemma_play_keeps_consistent(state: SequencerState, frames: Seq<Frame>)
    requires
        state.consistent(),
    ensures
        play(state, frames).consistent(),
    decreases frames.len(),
{
    if frames.len() > 0 {
        lemma_play_keeps_consistent(state, frames.drop_last());
        lemma_step_keeps_consistent(
            play(state, frames.drop_last()),
            frames.last().confirm,
            frames.last().delta,
        );
    }
}

/// Making, spawning and putting away each leave a consistent box,
/// whatever it was before, and so does a reset of a box that has not
/// finished.
pub proof fn lemma_lifecycle_is_consistent(state: SequencerState)
    ensures
        SequencerState::fresh(state.origin, state.font).consistent(),
        state.spawned().consistent(),
        state.despawned().consistent(),
        !state.finished ==> state.rewound().consistent(),
{
}

/// Whether `a` and `b` agree in everything but in having finished.
pub open spec fn alike(a: SequencerState, b: SequencerState) -> bool {
    a == (SequencerState { finished: a.finished, ..b })
}

/// That the last page was dismissed has no part in what a box does next
/// or shows: two boxes that differ in nothing else draw the same and are
/// led by the same frame to boxes that differ in nothing else.
pub proof fn lemma_step_ignores_finished(
    a: SequencerState,
    b: SequencerState,
    confirm: bool,
    delta: int,
)
    requires
        alike(a, b),
    ensures
        a.drawn() == b.drawn(),
        alike(a.step(confirm, delta), b.step(confirm, delta)),
{
}

/// Two boxes that differ only in having finished are led by the same
/// frames to boxes that differ only in that, and draw the same after them.
pub proof fn lemma_play_ignores_finished(a: SequencerState, b: SequencerState, frames: Seq<Frame>)
    requires
        alike(a, b),
    ensures
        alike(play(a, frames), play(b, frames)),
        play(a, frames).drawn() == play(b, frames).drawn(),
    decreases frames.len(),
{
    if frames.len() > 0 {
        lemma_play_ignores_finished(a, b, frames.drop_last());
        lemma_step_ignores_finished(
            play(a, frames.drop_last()),
            play(b, frames.drop_last()),
            frames.last().confirm,
            frames.last().delta,
        );
    }
    lemma_step_ignores_finished(play(a, frames), play(b, frames), false, 0);
}

/// A consistent box that is alive and has something left to show is on a
/// page of its message, and on a line of that page unless the page has none.
pub proof fn lemma_cursor_is_on_a_page(state: SequencerState)
    requires
        state.consistent(),
        state.alive,
        !state.is_finished(),
    ensures
        state.page < state.message.pages.len(),
        state.current_page() matches Some(page) && (page.lines.len() > 0 ==> state.line
            < page.lines.len()),
{
}

/// Once the last page has been dismissed, frames do not take that back.
pub proof fn lemma_finished_stays_finished(state: SequencerState, frames: Seq<Frame>)
    requires
        state.finished,
    ensures
        play(state, frames).finished,
        play(state, frames).is_finished(),
    decreases frames.len(),
{
    if frames.len() > 0 {
        lemma_finished_stays_finished(state, frames.drop_last());
    }
}

/// A box without pages has nothing left to show from the moment it is
/// spawned, stays so through any frames, and draws nothing.
pub proof fn lemma_empty_message_is_finished(state: SequencerState, frames: Seq<Frame>)
    requires
        state.is_empty(),
    ensures
        state.spawned().is_finished(),
        play(state.spawned(), frames).is_finished(),
        play(state.spawned(), frames).drawn() == Seq::<DrawOp>::empty(),
{
    lemma_play_keeps_setting(state.spawned(), frames);
}

/// Within a line the accumulator does not fall while time runs forwards,
/// and it is back at zero whenever the cursor moves to another line or page.
pub proof fn lemma_accumulator_within_line(state: SequencerState, confirm: bool, delta: int)
    ensures
        ({
            let next = state.step(confirm, delta);
            &&& delta >= 0 && next.page == state.page && next.line == state.line && next.waiting
                == state.waiting ==> next.accumulator >= state.accumulator
            &&& next.page != state.page || next.line != state.line ==> next.accumulator == 0
        }),
{
}

/// A line is revealed at the reveal rate: as long as the frames find it
/// incomplete, each millisecond adds the rate to the accumulator and
/// nothing else changes.
pub proof fn lemma_line_is_revealed_at_the_rate(
    state: SequencerState,
    page: PageView,
    frames: Seq<Frame>,
)
    requires
        state.alive,
        !state.waiting,
        state.current_page() == Some(page),
        0 <= state.accumulator,
        forward(frames),
        frames.len() > 0 ==> state.accumulator + REVEAL_RATE * elapsed(frames.drop_last())
            < CHARACTER * state.line_length(page),
    ensures
        play(state, frames) == (SequencerState {
            accumulator: clamp(state.accumulator + REVEAL_RATE * elapsed(frames)) as i64,
            ..state
        }),
    decreases frames.len(),
{
    if frames.len() > 0 {
        let before = frames.drop_last();
        assert forall|i: int| 0 <= i < before.len() implies (#[trigger] before[i]).delta >= 0 by {
            assert(before[i] == frames[i]);
        }
        assert(frames[frames.len() - 1].delta >= 0);
        lemma_elapsed_is_not_negative(before);
        if before.len() > 0 {
            lemma_elapsed_is_not_negative(before.drop_last());
            assert(before.last().delta >= 0);
        }
        lemma_line_is_revealed_at_the_rate(state, page, before);
    }
}

/// A box that reveals a line begins to wait in exactly those frames that
/// find the last line of the page revealed in full.
pub proof fn lemma_waiting_begins_when_page_is_revealed(
    state: SequencerState,
    page: PageView,
    confirm: bool,
    delta: int,
)
    requires
        state.alive,
        !state.waiting,
        state.current_page() == Some(page),
    ensures
        state.step(confirm, delta).waiting <==> state.line + 1 >= page.lines.len()
            && state.revealed() >= state.line_length(page),
        state.step(confirm, delta).page == state.page,
{
}

/// A page without a delay is held through every frame without a
/// confirmation: only the idle marker moves.
pub proof fn lemma_page_waits_for_confirmation(
    state: SequencerState,
    page: PageView,
    frames: Seq<Frame>,
)
    requires
        state.alive,
        state.waiting,
        state.current_page() == Some(page),
        page.wait is None,
        unconfirmed(frames),
    ensures
        play(state, frames) == (SequencerState { button: play(state, frames).button, ..state }),
        play(state, frames).waiting,
    decreases frames.len(),
{
    if frames.len() > 0 {
        let before = frames.drop_last();
        assert forall|i: int| 0 <= i < before.len() implies !(#[trigger] before[i]).confirm by {
            assert(before[i] == frames[i]);
        }
        lemma_page_waits_for_confirmation(state, page, before);
        assert(!frames[frames.len() - 1].confirm);
    }
}

/// The first frame with a confirmation ends the wait of a page without a
/// delay: the next page follows, or, behind the last page, the box is
/// finished.
pub proof fn lemma_confirmation_ends_the_wait(
    state: SequencerState,
    page: PageView,
    frames: Seq<Frame>,
    delta: int,
)
    requires
        state.alive,
        state.waiting,
        state.current_page() == Some(page),
        page.wait is None,
        unconfirmed(frames),
    ensures
        !play(state, frames.push(Frame { confirm: true, delta })).waiting,
        play(state, frames.push(Frame { confirm: true, delta })) == play(
            state,
            frames,
        ).finish_waiting(),
        state.page + 1 < state.message.pages.len() ==> play(
            state,
            frames.push(Frame { confirm: true, delta }),
        ).page == state.page + 1,
        state.page + 1 >= state.message.pages.len() ==> play(
            state,
            frames.push(Frame { confirm: true, delta }),
        ).finished,
{
    lemma_page_waits_for_confirmation(state, page, frames);
    let all = frames.push(Frame { confirm: true, delta });
    assert(all.drop_last() =~= frames);
    assert(all.last() == Frame { confirm: true, delta });
}

/// A page with a delay is held as long as the frames since it began to
/// wait take less than the delay, whatever the reader does.
pub proof fn lemma_page_waits_for_its_delay(
    state: SequencerState,
    page: PageView,
    delay: i64,
    frames: Seq<Frame>,
)
    requires
        state.alive,
        state.waiting,
        state.current_page() == Some(page),
        page.wait == Some(delay),
        0 <= state.accumulator,
        forward(frames),
        state.accumulator + elapsed(frames) < delay,
    ensures
        play(state, frames) == (SequencerState {
            accumulator: (state.accumulator + elapsed(frames)) as i64,
            ..state
        }),
        play(state, frames).waiting,
    decreases frames.len(),
{
    if frames.len() > 0 {
        let before = frames.drop_last();
        assert forall|i: int| 0 <= i < before.len() implies (#[trigger] before[i]).delta >= 0 by {
            assert(before[i] == frames[i]);
        }
        assert(frames[frames.len() - 1].delta >= 0);
        lemma_elapsed_is_not_negative(before);
        lemma_page_waits_for_its_delay(state, page, delay, before);
    }
}

/// The frame in which the time waited reaches the delay ends the wait: the
/// next page follows, or, behind the last page, the box is finished.
pub proof fn lemma_delay_ends_the_wait(
    state: SequencerState,
    page: PageView,
    delay: i64,
    frames: Seq<Frame>,
    last: Frame,
)
    requires
        state.alive,
        state.waiting,
        state.current_page() == Some(page),
        page.wait == Some(delay),
        0 <= state.accumulator,
        forward(frames),
        last.delta >= 0,
        state.accumulator + elapsed(frames) < delay <= state.accumulator + elapsed(frames)
            + last.delta,
    ensures
        !play(state, frames.push(last)).waiting,
        state.page + 1 < state.message.pages.len() ==> play(state, frames.push(last)).page
            == state.page + 1,
        state.page + 1 >= state.message.pages.len() ==> play(state, frames.push(last)).finished,
{
    lemma_elapsed_is_not_negative(frames);
    lemma_page_waits_for_its_delay(state, page, delay, frames);
    let all = frames.push(last);
    assert(all.drop_last() =~= frames);
    assert(all.last() == last);
}

/// Frames in which time runs forwards take no negative time together.
pub proof fn lemma_elapsed_is_not_negative(frames: Seq<Frame>)
    requires
        forward(frames),
    ensures
        elapsed(frames) >= 0,
    decreases frames.len(),
{
    if frames.len() > 0 {
        let before = frames.drop_last();
        assert forall|i: int| 0 <= i < before.len() implies (#[trigger] before[i]).delta >= 0 by {
            assert(before[i] == frames[i]);
        }
        assert(frames[frames.len() - 1].delta >= 0);
        lemma_elapsed_is_not_negative(before);
    }
}

/// A consistent box that waits shows every line of its page in full: the
/// last line first, then the lines above it from the top.
pub proof fn lemma_waiting_page_is_shown_in_full(state: SequencerState, page: PageView)
    requires
        state.consistent(),
        state.alive,
        state.waiting,
        state.current_page() == Some(page),
        page.lines.len() > 0,
    ensures
        state.line == page.lines.len() - 1,
        state.drawn().len() >= page.lines.len(),
        state.drawn()[0] == state.row_text(page.lines[state.line as int], state.line as int),
        forall|row: int|
            0 <= row < state.line ==> #[trigger] state.drawn()[1 + row] == state.row_text(
                page.lines[row],
                row,
            ),
{
}

/// Putting a box away discards its progress at once: what is left is a
/// new box but for the colour, with nothing to show and nothing drawn.
pub proof fn lemma_despawn_discards_progress(state: SequencerState)
    ensures
        state.despawned() == SequencerState::fresh(state.origin, state.font).with_color(
            state.message.color,
        ),
        state.despawned().is_finished(),
        state.despawned().drawn() == Seq::<DrawOp>::empty(),
{
}

/// Spawning twice is spawning once, and putting away twice is putting
/// away once.
pub proof fn lemma_spawn_and_despawn_are_idempotent(state: SequencerState)
    ensures
        state.spawned().spawned() == state.spawned(),
        state.despawned().despawned() == state.despawned(),
{
}

/// A new box with the message of `state`, spawned.
pub open spec fn fresh_spawn(state: SequencerState) -> SequencerState {
    SequencerState::fresh(state.origin, state.font).with_pages(state.message.pages).with_color(
        state.message.color,
    ).spawned()
}

/// A reset takes a box that is alive to where a new box with the same
/// message is spawned, but that a box which had finished still has: the
/// same frames then lead both through the same pictures.
pub proof fn lemma_reset_replays_like_a_fresh_spawn(state: SequencerState, frames: Seq<Frame>)
    requires
        state.alive,
    ensures
        alike(state.rewound(), fresh_spawn(state)),
        !state.finished ==> state.rewound() == fresh_spawn(state),
        alike(play(state.rewound(), frames), play(fresh_spawn(state), frames)),
        play(state.rewound(), frames).drawn() == play(fresh_spawn(state), frames).drawn(),
{
    lemma_play_ignores_finished(state.rewound(), fresh_spawn(state), frames);
}

} // verus!
