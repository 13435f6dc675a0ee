//! The creation form of a series: its fields, the record it stands for, and
//! the commands of the form screen.

use super::create_input::{initial_raw_value, CreateInput, CreateInputView};
use super::InputType;
use crate::app::{Action, ActionView, App, AppView, FORM_FIELDS};
use crate::keybinds::nav::{
    at_end, at_start, jumped, listing, move_down, move_max, move_min, move_to, move_up, moved,
    start_listing,
};
use crate::keybinds::{
    decode_key, key_of, parse_chars, parse_spec, repeat_of, Key, Mode, UserInput, UserInputView,
};
use crate::bounds::Direction;
use crate::scan::{chars_of, trim, trimmed};
use crate::series::{new_series, Series, SeriesView};
use vstd::prelude::*;

verus! {

/// Position of the name in the form.
pub const NAME_FIELD: usize = 0;

/// Position of the flag that says whether the series was watched to the end.
pub const FINISHED_FIELD: usize = 1;

/// Position of the flag that says whether the series has stopped airing.
pub const AIRING_FINISHED_FIELD: usize = 2;

/// Position of the number of the episode last watched.
pub const CURRENT_EPISODE_FIELD: usize = 3;

/// Position of the number of episodes.
pub const TOTAL_EPISODES_FIELD: usize = 4;

/// A field as it is when the form opens.
pub open spec fn blank_field(label: Seq<char>, input_type: InputType) -> CreateInputView {
    CreateInputView { label, input_type, raw_value: initial_raw_value(input_type) }
}

/// The form as it is when a creation begins.
pub open spec fn series_form() -> Seq<CreateInputView> {
    seq![
        blank_field("Name"@, InputType::String),
        blank_field("Finished?"@, InputType::Boolean),
        blank_field("Airing Finished?"@, InputType::Boolean),
        blank_field("Current Episode"@, InputType::Number),
        blank_field("Total Episodes"@, InputType::Number),
    ]
}

/// The record that a form stands for. The name is taken as typed; each other
/// field is read through its typed accessor, and a field that gives no value
/// is filled in as [`new_series`] says.
pub open spec fn record_of(form: Seq<CreateInputView>) -> SeriesView {
    new_series(
        form[NAME_FIELD as int].raw_value,
        form[FINISHED_FIELD as int].bool_value(),
        form[AIRING_FINISHED_FIELD as int].bool_value(),
        form[TOTAL_EPISODES_FIELD as int].i32_value(),
        form[CURRENT_EPISODE_FIELD as int].i32_value(),
    )
}

/// Builds the form as it is when a creation begins.
pub fn new_series_form() -> (form: Vec<CreateInput>)
    ensures
        crate::app::field_views(form@) == series_form(),
        form.len() == FORM_FIELDS,
{
    let mut form: Vec<CreateInput> = Vec::new();
    form.push(CreateInput::new("Name", InputType::String));
    form.push(CreateInput::new("Finished?", InputType::Boolean));
    form.push(CreateInput::new("Airing Finished?", InputType::Boolean));
    form.push(CreateInput::new("Current Episode", InputType::Number));
    form.push(CreateInput::new("Total Episodes", InputType::Number));
    assert(crate::app::field_views(form@) =~= series_form());
    form
}

/// Builds the record that `form` stands for.
pub fn build_series(form: &Vec<CreateInput>) -> (r: Series)
    requires
        form.len() == FORM_FIELDS,
    ensures
        r@ == record_of(crate::app::field_views(form@)),
{
    Series::new(
        form[NAME_FIELD].raw_value.clone(),
        form[FINISHED_FIELD].get_bool(),
        form[AIRING_FINISHED_FIELD].get_bool(),
        form[TOTAL_EPISODES_FIELD].get_i32(),
        form[CURRENT_EPISODE_FIELD].get_i32(),
    )
}

/// The state after `text` was submitted for the highlighted field: the field
/// holds the text as it came, and lines are commands again.
pub open spec fn submitted(v: AppView, text: Seq<char>) -> AppView {
    AppView {
        create_data: v.create_data.update(
            v.create_hovered_idx as int,
            CreateInputView { raw_value: text, ..v.create_data[v.create_hovered_idx as int] },
        ),
        mode: Mode::Navigation,
        ..v
    }.dirty()
}

/// What a command does on the form screen: the next state, and what is left
/// for the caller to do.
///
/// While a field is edited no line is a command, so nothing happens. A jump
/// needs a count, and a count of 0 is ignored. Committing changes nothing by
/// itself: the record goes to the caller, who hands it to the store.
pub open spec fn create_step(v: AppView, input: UserInputView) -> (AppView, ActionView) {
    if v.mode is Edit {
        (v, ActionView::Nothing)
    } else {
        match key_of(input.actions) {
            Key::Quit => (listing(v).dirty(), ActionView::Nothing),
            Key::Up => (moved(v, Direction::Up, repeat_of(input)).dirty(), ActionView::Nothing),
            Key::Down => (
                moved(v, Direction::Down, repeat_of(input)).dirty(),
                ActionView::Nothing,
            ),
            Key::End => (at_end(v).dirty(), ActionView::Nothing),
            Key::Start => (at_start(v).dirty(), ActionView::Nothing),
            Key::Bare => match input.digits_subfix {
                Some(target) => if target > 0 {
                    (jumped(v, target as nat).dirty(), ActionView::Nothing)
                } else {
                    (v, ActionView::Nothing)
                },
                None => (v, ActionView::Nothing),
            },
            Key::Edit => (AppView { mode: Mode::Edit, ..v }.dirty(), ActionView::Nothing),
            Key::Insert => (v, ActionView::Insert(record_of(v.create_data))),
            _ => (v, ActionView::Nothing),
        }
    }
}

/// What a line does on the form screen: while a field is edited the line is
/// its new text; otherwise the line, without the whitespace around it, is a
/// command.
pub open spec fn create_line_step(v: AppView, line: Seq<char>) -> (AppView, ActionView) {
    if v.mode is Edit {
        (submitted(v, line), ActionView::Nothing)
    } else {
        create_step(v, parse_spec(trimmed(line)))
    }
}

/// Carries out one command on the form screen.
pub fn create_dispatch(app: &mut App, input: &UserInput) -> (action: Action)
    requires
        old(app).wf(),
        old(app)@.screen is Creating,
    ensures
        (final(app)@, action@) == create_step(old(app)@, input@),
        final(app).wf(),
{
    match app.mode {
        Mode::Edit => {
            return Action::Nothing;
        },
        Mode::Navigation => {},
    }
    match decode_key(&input.actions) {
        Key::Quit => {
            start_listing(app);
        },
        Key::Up => {
            move_up(app, input);
        },
        Key::Down => {
            move_down(app, input);
        },
        Key::End => {
            move_max(app);
        },
        Key::Start => {
            move_min(app);
        },
        Key::Bare => {
            match input.digits_subfix {
                Some(target) => {
                    if target == 0 {
                        return Action::Nothing;
                    }
                    move_to(app, input);
                },
                None => {
                    return Action::Nothing;
                },
            }
        },
        Key::Edit => {
            app.mode = Mode::Edit;
        },
        Key::Insert => {
            return Action::Insert(build_series(&app.create_data));
        },
        _ => {
            return Action::Nothing;
        },
    }
    app.should_render = true;
    Action::Nothing
}

/// Handles one line typed on the form screen.
pub fn create_key_handler(app: &mut App, line: &str) -> (action: Action)
    requires
        old(app).wf(),
        old(app)@.screen is Creating,
    ensures
        (final(app)@, action@) == create_line_step(old(app)@, line@),
        final(app).wf(),
{
    match app.mode {
        Mode::Edit => {
            let idx: usize = app.create_hovered_idx;
            app.create_data[idx].raw_value = line.to_owned();
            app.mode = Mode::Navigation;
            app.should_render = true;
            assert(app@.create_data =~= old(app)@.create_data.update(
                idx as int,
                CreateInputView { raw_value: line@, ..old(app)@.create_data[idx as int] },
            ));
            Action::Nothing
        },
        Mode::Navigation => {
            let chars = chars_of(line);
            let input = parse_chars(&trim(&chars));
            create_dispatch(app, &input)
        },
    }
}

} // verus!
