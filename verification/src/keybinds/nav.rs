//! The navigation engine: moving the highlight inside the active list,
//! scrolling the viewport, and switching between the list and the form.

use super::{repeat_of, Mode, UserInput, UserInputView};
use crate::app::{App, AppView, DataView, Screen};
use crate::bounds::{
    clamp_move, clamp_move_spec, max_index, max_index_spec, signed_delta, window_extend,
    window_extend_spec, Direction,
};
use crate::user::create_series::{new_series_form, series_form};
use vstd::prelude::*;

verus! {

/// The state after a move of `amount` steps in `direction`: the highlight has
/// moved as far as the active list allows.
pub open spec fn moved(v: AppView, direction: Direction, amount: nat) -> AppView {
    v.with_hovered(
        clamp_move_spec(
            v.active_hovered(),
            signed_delta(direction, amount),
            max_index_spec(v.active_len()),
        ),
    )
}

/// The state with the first item of the active list highlighted.
pub open spec fn at_start(v: AppView) -> AppView {
    v.with_hovered(0)
}

/// The state with the last item of the active list highlighted.
pub open spec fn at_end(v: AppView) -> AppView {
    v.with_hovered(max_index_spec(v.active_len()))
}

/// The index that a jump command names: its trailing count, 1 if there is
/// none.
pub open spec fn jump_target(input: UserInputView) -> nat {
    match input.digits_subfix {
        Some(n) => n as nat,
        None => 1,
    }
}

/// The state after a jump to `target`: the highlight is on `target`, or on
/// the last item if the list ends before it. A jump to 0 is ignored.
pub open spec fn jumped(v: AppView, target: nat) -> AppView {
    if target == 0 {
        v
    } else if target <= max_index_spec(v.active_len()) {
        v.with_hovered(target)
    } else {
        v.with_hovered(max_index_spec(v.active_len()))
    }
}

/// Whether the viewport of `v` can move by `amount` in `direction`.
pub open spec fn can_scroll(v: AppView, direction: Direction, amount: nat) -> bool {
    window_extend_spec(v.data.skip, v.data.take, direction, amount, v.data.total) is Some
}

/// The state after a scroll by `amount` in `direction`: where the window can
/// move it has moved and the loaded page is stale; where it cannot, nothing
/// has changed.
pub open spec fn scrolled(v: AppView, direction: Direction, amount: nat) -> AppView {
    match window_extend_spec(v.data.skip, v.data.take, direction, amount, v.data.total) {
        Some(skip) => AppView { data: DataView { skip, cache_valid: false, ..v.data }, ..v },
        None => v,
    }
}

/// The state back on the list of records: the form is gone, lines are
/// commands, and the first record is highlighted.
pub open spec fn listing(v: AppView) -> AppView {
    AppView {
        screen: Screen::Listing,
        mode: Mode::Navigation,
        create_data: Seq::empty(),
        create_hovered_idx: 0,
        data: DataView { hovered: 0, ..v.data },
        ..v
    }
}

/// The state at the start of a creation: a blank form with its first field
/// highlighted.
pub open spec fn inserting(v: AppView) -> AppView {
    AppView { screen: Screen::Creating, create_data: series_form(), create_hovered_idx: 0, ..v }
}

/// A relative move leaves the highlight inside the active list, wherever it
/// started and however far the move goes; in an empty list it ends at 0.
pub proof fn lemma_moved_stays_in_list(v: AppView, direction: Direction, amount: nat)
    ensures
        moved(v, direction, amount).active_len() == v.active_len(),
        moved(v, direction, amount).active_hovered() <= max_index_spec(v.active_len()),
        v.active_len() > 0 ==> moved(v, direction, amount).active_hovered() < v.active_len(),
        v.active_len() == 0 ==> moved(v, direction, amount).active_hovered() == 0,
{
}

/// Scrolling up changes nothing when the window starts at the first record.
pub proof fn lemma_scroll_up_at_start_is_noop(v: AppView, amount: nat)
    requires
        v.data.skip == 0,
    ensures
        !can_scroll(v, Direction::Up, amount),
        scrolled(v, Direction::Up, amount) == v,
{
}

/// Scrolling down changes nothing when the page size and the amount
/// together exceed the number of records in the store.
pub proof fn lemma_scroll_down_past_total_is_noop(v: AppView, amount: nat)
    requires
        v.data.take + amount > v.data.total,
    ensures
        !can_scroll(v, Direction::Down, amount),
        scrolled(v, Direction::Down, amount) == v,
{
}

/// Highlights `idx` in the active list.
fn hover(app: &mut App, idx: usize)
    ensures
        final(app)@ == old(app)@.with_hovered(idx as nat),
{
    match app.screen {
        Screen::Listing => {
            app.data.hovered_series_idx = idx;
        },
        Screen::Creating => {
            app.create_hovered_idx = idx;
        },
    }
}

/// Moves the highlight down by the repeat count of `input`, stopping at the
/// last item. In an empty list the highlight stays at 0.
pub fn move_down(app: &mut App, input: &UserInput)
    ensures
        final(app)@ == moved(old(app)@, Direction::Down, repeat_of(input@)),
        final(app)@.active_hovered() <= max_index_spec(final(app)@.active_len()),
        old(app).wf() ==> final(app).wf(),
{
    let repeat: usize = input.digits_prefix.unwrap_or(1);
    let last: usize = max_index(app.active_len());
    let target: usize = clamp_move(app.hovered_index(), Direction::Down, repeat, last);
    hover(app, target);
}

/// Moves the highlight up by the repeat count of `input`, stopping at the
/// first item.
pub fn move_up(app: &mut App, input: &UserInput)
    ensures
        final(app)@ == moved(old(app)@, Direction::Up, repeat_of(input@)),
        final(app)@.active_hovered() <= max_index_spec(final(app)@.active_len()),
        old(app).wf() ==> final(app).wf(),
{
    let repeat: usize = input.digits_prefix.unwrap_or(1);
    let last: usize = max_index(app.active_len());
    let target: usize = clamp_move(app.hovered_index(), Direction::Up, repeat, last);
    hover(app, target);
}

/// Highlights the first item.
pub fn move_min(app: &mut App)
    ensures
        final(app)@ == at_start(old(app)@),
        old(app).wf() ==> final(app).wf(),
{
    hover(app, 0);
}

/// Highlights the last item; in an empty list, index 0.
pub fn move_max(app: &mut App)
    ensures
        final(app)@ == at_end(old(app)@),
        old(app).wf() ==> final(app).wf(),
{
    let last: usize = max_index(app.active_len());
    hover(app, last);
}

/// Jumps to the index that `input` names, or to the last item if the list
/// ends before it. Index 0 cannot be named: such a jump changes nothing.
pub fn move_to(app: &mut App, input: &UserInput)
    ensures
        final(app)@ == jumped(old(app)@, jump_target(input@)),
        jump_target(input@) > 0 ==> final(app)@.active_hovered() <= max_index_spec(
            final(app)@.active_len(),
        ),
        old(app).wf() ==> final(app).wf(),
{
    let target: usize = input.digits_subfix.unwrap_or(1);
    if target != 0 {
        let last: usize = max_index(app.active_len());
        if target <= last {
            hover(app, target);
        } else {
            hover(app, last);
        }
    }
}

/// Moves the viewport by `amount` records in `direction` and marks the loaded
/// page stale, or changes nothing where the window cannot move that far.
/// Returns whether the window moved.
pub fn scroll(app: &mut App, direction: Direction, amount: usize) -> (applied: bool)
    ensures
        applied == can_scroll(old(app)@, direction, amount as nat),
        final(app)@ == scrolled(old(app)@, direction, amount as nat),
        !applied ==> *final(app) == *old(app),
        old(app).wf() ==> final(app).wf(),
{
    match window_extend(app.data.skip, app.data.take, direction, amount, app.data.total_series) {
        Some(skip) => {
            app.data.skip = skip;
            app.data.ignore_cached_series = true;
            true
        },
        None => false,
    }
}

/// Scrolls towards the start of the store by the repeat count of `input`.
/// Nothing changes when the window is at the start already, or would pass
/// it.
pub fn scroll_up(app: &mut App, input: &UserInput) -> (applied: bool)
    ensures
        applied == can_scroll(old(app)@, Direction::Up, repeat_of(input@)),
        final(app)@ == scrolled(old(app)@, Direction::Up, repeat_of(input@)),
        old(app)@.data.skip == 0 ==> !applied && *final(app) == *old(app),
        !applied ==> *final(app) == *old(app),
        old(app).wf() ==> final(app).wf(),
{
    let repeat: usize = input.digits_prefix.unwrap_or(1);
    scroll(app, Direction::Up, repeat)
}

/// Scrolls towards the end of the store by the repeat count of `input`.
/// Nothing changes when the page size and the count together exceed the
/// number of records in the store.
pub fn scroll_down(app: &mut App, input: &UserInput) -> (applied: bool)
    ensures
        applied == can_scroll(old(app)@, Direction::Down, repeat_of(input@)),
        final(app)@ == scrolled(old(app)@, Direction::Down, repeat_of(input@)),
        old(app)@.data.take + repeat_of(input@) > old(app)@.data.total ==> !applied,
        !applied ==> *final(app) == *old(app),
        old(app).wf() ==> final(app).wf(),
{
    let repeat: usize = input.digits_prefix.unwrap_or(1);
    scroll(app, Direction::Down, repeat)
}

/// Leaves the form for the list of records and highlights the first record.
pub fn start_listing(app: &mut App)
    ensures
        final(app)@ == listing(old(app)@),
        old(app)@.data.wf() ==> final(app).wf(),
{
    app.screen = Screen::Listing;
    app.mode = Mode::Navigation;
    app.create_data = Vec::new();
    app.create_hovered_idx = 0;
    move_min(app);
    assert(app@.create_data =~= Seq::empty());
}

/// Opens a blank creation form and highlights its first field.
pub fn start_inserting(app: &mut App)
    ensures
        final(app)@ == inserting(old(app)@),
        old(app).wf() ==> final(app).wf(),
{
    app.create_data = new_series_form();
    app.screen = Screen::Creating;
    move_min(app);
}

} // verus!
