use watchlist::app::{Action, App, Frame, Screen};
use watchlist::keybinds::{parse_input, Mode};
use watchlist::series::Series;
use watchlist::user::create_input::CreateInput;
use watchlist::user::create_series::{
    build_series, create_dispatch, create_key_handler, new_series_form, AIRING_FINISHED_FIELD,
    CURRENT_EPISODE_FIELD, FINISHED_FIELD, NAME_FIELD, TOTAL_EPISODES_FIELD,
};
use watchlist::user::InputType;

fn records(count: usize) -> Vec<Series> {
    let mut page = Vec::new();
    for i in 0..count {
        page.push(Series::new(format!("Series {}", i), None, None, None, None));
    }
    page
}

fn creating() -> App {
    let mut app = App::new(40);
    app.data.ensure_fresh(|_, _| records(16));
    app.handle_line("i");
    app.mark_rendered();
    app
}

fn edit(app: &mut App, field: usize, text: &str) {
    app.handle_line("gg");
    app.handle_line(&format!("{}j", field));
    app.handle_line("e");
    app.handle_line(text);
}

fn committed(app: &mut App) -> Series {
    match app.handle_line("i") {
        Action::Insert(series) => series,
        Action::Nothing => panic!("the form was not committed"),
    }
}

#[test]
fn end_to_end_creation_with_defaults() {
    let mut app = App::new(0);
    app.handle_line("i");
    assert_eq!(app.screen, Screen::Creating);
    assert_eq!(app.hovered_index(), 0);
    assert_eq!(app.create_data[0].label, "Name");

    app.handle_line("e");
    assert_eq!(app.mode, Mode::Edit);
    app.handle_line("Cowboy Bebop");
    assert_eq!(app.create_data[0].raw_value, "Cowboy Bebop");
    assert_eq!(app.mode, Mode::Navigation);

    let record = committed(&mut app);
    assert_eq!(record.name, "Cowboy Bebop");
    assert_eq!(record.current_episode, 0);
    assert_eq!(record.total_episodes, 0);
    assert!(!record.is_airing_finished);
    assert!(!record.is_finished);
    assert_eq!(record.guid, "");
}

#[test]
fn new_field_starts_with_the_text_of_its_kind() {
    let number = CreateInput::new("Current Episode", InputType::Number);
    assert_eq!(number.label, "Current Episode");
    assert_eq!(number.input_type, InputType::Number);
    assert_eq!(number.raw_value, "0");
    let text = CreateInput::new("Name", InputType::String);
    assert_eq!(text.raw_value, "");
    assert_eq!(text.input_type, InputType::String);
    let flag = CreateInput::new("Finished?", InputType::Boolean);
    assert_eq!(flag.raw_value, "false");
    assert_eq!(flag.input_type, InputType::Boolean);
}

#[test]
fn get_i32_reads_numbers_of_number_fields_only() {
    let mut field = CreateInput::new("Total Episodes", InputType::Number);
    assert_eq!(field.get_i32(), Some(0));
    field.raw_value = String::from("26");
    assert_eq!(field.get_i32(), Some(26));
    field.raw_value = String::from("-3");
    assert_eq!(field.get_i32(), Some(-3));
    field.raw_value = String::from("+12");
    assert_eq!(field.get_i32(), Some(12));
    field.raw_value = String::from("2147483647");
    assert_eq!(field.get_i32(), Some(i32::MAX));
    for text in ["", "twelve", "12 ", " 12", "1.5", "2147483648", "-2147483649", "12\n"] {
        field.raw_value = String::from(text);
        assert_eq!(field.get_i32(), None);
    }
    let mut name = CreateInput::new("Name", InputType::String);
    name.raw_value = String::from("26");
    assert_eq!(name.get_i32(), None);
    let mut flag = CreateInput::new("Finished?", InputType::Boolean);
    flag.raw_value = String::from("1");
    assert_eq!(flag.get_i32(), None);
}

#[test]
fn get_bool_reads_yes_of_boolean_fields_only() {
    let mut field = CreateInput::new("Finished?", InputType::Boolean);
    assert_eq!(field.get_bool(), Some(false));
    for text in ["yes", "YES", "Yes", "yEs", "yeS"] {
        field.raw_value = String::from(text);
        assert_eq!(field.get_bool(), Some(true));
    }
    for text in ["", "y", "ye", "yess", "no", "true", "1", " yes", "yes ", "yes\n", "y\u{00E9}s"] {
        field.raw_value = String::from(text);
        assert_eq!(field.get_bool(), Some(false));
        assert_eq!(field.get_bool(), Some(text.to_ascii_lowercase() == "yes"));
    }
    let mut name = CreateInput::new("Name", InputType::String);
    name.raw_value = String::from("yes");
    assert_eq!(name.get_bool(), None);
    let mut number = CreateInput::new("Total Episodes", InputType::Number);
    number.raw_value = String::from("yes");
    assert_eq!(number.get_bool(), None);
}

#[test]
fn new_series_fills_in_what_is_absent() {
    let series = Series::new(String::from("Monster"), None, None, None, None);
    assert_eq!(series.guid, "");
    assert_eq!(series.name, "Monster");
    assert!(!series.is_finished);
    assert!(!series.is_airing_finished);
    assert_eq!(series.total_episodes, 0);
    assert_eq!(series.current_episode, 0);
}

#[test]
fn new_series_keeps_what_is_given() {
    let series = Series::new(String::from("Monster"), Some(false), Some(true), Some(74), Some(74));
    assert_eq!(series.name, "Monster");
    assert!(!series.is_finished);
    assert!(series.is_airing_finished);
    assert_eq!(series.total_episodes, 74);
    assert_eq!(series.current_episode, 74);
    let early = Series::new(String::from("Monster"), Some(true), Some(false), Some(74), Some(2));
    assert!(early.is_finished);
    assert!(!early.is_airing_finished);
    assert_eq!(early.current_episode, 2);
}

#[test]
fn absent_is_finished_follows_airing_and_episodes() {
    let done = Series::new(String::from("Monster"), None, Some(true), Some(74), Some(74));
    assert!(done.is_finished);
    let behind = Series::new(String::from("Monster"), None, Some(true), Some(74), Some(73));
    assert!(!behind.is_finished);
    let airing = Series::new(String::from("Monster"), None, Some(false), Some(74), Some(74));
    assert!(!airing.is_finished);
    let unknown = Series::new(String::from("Monster"), None, None, Some(12), Some(12));
    assert!(!unknown.is_finished);
    let nothing_yet = Series::new(String::from("Monster"), None, Some(true), None, None);
    assert!(nothing_yet.is_finished);
}

#[test]
fn the_form_has_five_fields_in_their_places() {
    let form = new_series_form();
    assert_eq!(form.len(), 5);
    assert_eq!(form[NAME_FIELD].label, "Name");
    assert_eq!(form[FINISHED_FIELD].label, "Finished?");
    assert_eq!(form[AIRING_FINISHED_FIELD].label, "Airing Finished?");
    assert_eq!(form[CURRENT_EPISODE_FIELD].label, "Current Episode");
    assert_eq!(form[TOTAL_EPISODES_FIELD].label, "Total Episodes");
    assert_eq!(form[NAME_FIELD].input_type, InputType::String);
    assert_eq!(form[FINISHED_FIELD].input_type, InputType::Boolean);
    assert_eq!(form[AIRING_FINISHED_FIELD].input_type, InputType::Boolean);
    assert_eq!(form[CURRENT_EPISODE_FIELD].input_type, InputType::Number);
    assert_eq!(form[TOTAL_EPISODES_FIELD].input_type, InputType::Number);
}

#[test]
fn build_series_reads_each_field_into_its_attribute() {
    let mut form = new_series_form();
    form[NAME_FIELD].raw_value = String::from("Mushishi");
    form[FINISHED_FIELD].raw_value = String::from("no");
    form[AIRING_FINISHED_FIELD].raw_value = String::from("yes");
    form[CURRENT_EPISODE_FIELD].raw_value = String::from("7");
    form[TOTAL_EPISODES_FIELD].raw_value = String::from("26");
    let series = build_series(&form);
    assert_eq!(series.guid, "");
    assert_eq!(series.name, "Mushishi");
    assert!(!series.is_finished);
    assert!(series.is_airing_finished);
    assert_eq!(series.current_episode, 7);
    assert_eq!(series.total_episodes, 26);
}

#[test]
fn build_series_takes_zero_for_text_that_is_no_number() {
    let mut form = new_series_form();
    form[NAME_FIELD].raw_value = String::from("Mushishi");
    form[CURRENT_EPISODE_FIELD].raw_value = String::from("seven");
    form[TOTAL_EPISODES_FIELD].raw_value = String::from("");
    form[FINISHED_FIELD].raw_value = String::from("Yes");
    let series = build_series(&form);
    assert_eq!(series.current_episode, 0);
    assert_eq!(series.total_episodes, 0);
    assert!(series.is_finished);
    assert!(!series.is_airing_finished);
}

#[test]
fn commit_hands_out_the_record_and_leaves_the_form() {
    let mut app = creating();
    edit(&mut app, NAME_FIELD, "Planetes");
    edit(&mut app, AIRING_FINISHED_FIELD, "YES");
    edit(&mut app, CURRENT_EPISODE_FIELD, "3");
    edit(&mut app, TOTAL_EPISODES_FIELD, "26");
    app.mark_rendered();
    let record = committed(&mut app);
    assert_eq!(record.name, "Planetes");
    assert!(record.is_airing_finished);
    assert!(!record.is_finished);
    assert_eq!(record.current_episode, 3);
    assert_eq!(record.total_episodes, 26);
    assert_eq!(app.screen, Screen::Creating);
    assert_eq!(app.create_data[NAME_FIELD].raw_value, "Planetes");
    assert_eq!(app.toast, None);
    assert!(!app.needs_render());
    assert!(app.is_wf());
}

#[test]
fn store_failure_leaves_the_form_to_try_again() {
    let mut app = creating();
    edit(&mut app, NAME_FIELD, "Planetes");
    app.mark_rendered();
    let _ = committed(&mut app);
    app.insert_finished(Err(String::from("no such table: series")));
    assert_eq!(app.toast, Some(String::from("no such table: series")));
    assert!(app.needs_render());
    assert_eq!(app.screen, Screen::Creating);
    assert_eq!(app.frame(), Frame::Form);
    assert_eq!(app.create_data.len(), 5);
    assert_eq!(app.create_data[NAME_FIELD].raw_value, "Planetes");
    assert_eq!(app.data.hovered_series_idx, 0);
    assert!(app.is_wf());

    app.mark_rendered();
    assert_eq!(app.toast, None);
    let again = committed(&mut app);
    assert_eq!(again.name, "Planetes");
}

#[test]
fn store_success_ends_the_creation() {
    let mut app = creating();
    app.data.hovered_series_idx = 5;
    edit(&mut app, NAME_FIELD, "Planetes");
    let _ = committed(&mut app);
    app.mark_rendered();
    app.insert_finished(Ok(()));
    assert_eq!(app.toast, Some(String::from("Series created!")));
    assert!(app.needs_render());
    assert_eq!(app.screen, Screen::Listing);
    assert_eq!(app.mode, Mode::Navigation);
    assert!(app.create_data.is_empty());
    assert!(app.pending_form().is_none());
    assert_eq!(app.data.hovered_series_idx, 0);
    assert_eq!(app.data.available_series.len(), 16);
    assert!(app.is_wf());
    app.mark_rendered();
    assert_eq!(app.toast, None);
}

#[test]
fn submitted_text_is_kept_as_it_came() {
    let mut app = creating();
    app.handle_line("e");
    app.handle_line("  3j \t");
    assert_eq!(app.create_data[NAME_FIELD].raw_value, "  3j \t");
    assert_eq!(app.mode, Mode::Navigation);
    assert_eq!(app.create_hovered_idx, 0);
    assert!(app.needs_render());
    app.handle_line("e");
    app.handle_line("");
    assert_eq!(app.create_data[NAME_FIELD].raw_value, "");
    app.handle_line("e");
    app.handle_line("q");
    assert_eq!(app.create_data[NAME_FIELD].raw_value, "q");
    assert_eq!(app.screen, Screen::Creating);
}

#[test]
fn submitted_text_changes_the_highlighted_field_only() {
    let mut app = creating();
    edit(&mut app, CURRENT_EPISODE_FIELD, "11");
    let values: Vec<&str> = app.create_data.iter().map(|f| f.raw_value.as_str()).collect();
    assert_eq!(values, vec!["", "false", "false", "11", "0"]);
    let labels: Vec<&str> = app.create_data.iter().map(|f| f.label.as_str()).collect();
    assert_eq!(
        labels,
        vec!["Name", "Finished?", "Airing Finished?", "Current Episode", "Total Episodes"]
    );
    assert_eq!(app.create_data[CURRENT_EPISODE_FIELD].input_type, InputType::Number);
    assert_eq!(app.create_hovered_idx, CURRENT_EPISODE_FIELD);
}

#[test]
fn moves_on_the_form_stay_inside_its_five_fields() {
    let mut app = creating();
    app.data.hovered_series_idx = 7;
    app.handle_line("j");
    assert_eq!(app.create_hovered_idx, 1);
    app.handle_line("10j");
    assert_eq!(app.create_hovered_idx, 4);
    app.handle_line("k");
    assert_eq!(app.create_hovered_idx, 3);
    app.handle_line("gg");
    assert_eq!(app.create_hovered_idx, 0);
    app.handle_line("G");
    assert_eq!(app.create_hovered_idx, 4);
    app.handle_line("2");
    assert_eq!(app.create_hovered_idx, 2);
    app.handle_line("9");
    assert_eq!(app.create_hovered_idx, 4);
    app.handle_line("0");
    assert_eq!(app.create_hovered_idx, 4);
    app.handle_line("100k");
    assert_eq!(app.create_hovered_idx, 0);
    assert_eq!(app.data.hovered_series_idx, 7);
    assert!(app.is_wf());
}

#[test]
fn quit_on_the_form_goes_back_to_the_list() {
    let mut app = creating();
    app.data.hovered_series_idx = 7;
    edit(&mut app, NAME_FIELD, "Planetes");
    app.handle_line("q");
    assert_eq!(app.screen, Screen::Listing);
    assert!(!app.should_exit);
    assert!(app.create_data.is_empty());
    assert_eq!(app.data.hovered_series_idx, 0);
    assert!(app.needs_render());
    app.handle_line("i");
    assert_eq!(app.create_data[NAME_FIELD].raw_value, "");
}

#[test]
fn list_commands_do_nothing_on_the_form() {
    for line in ["h", "m", "r", "+", "-", "x", "", "0"] {
        let mut app = creating();
        let skip = app.data.skip;
        let action = create_key_handler(&mut app, line);
        assert!(matches!(action, Action::Nothing));
        assert_eq!(app.screen, Screen::Creating);
        assert_eq!(app.mode, Mode::Navigation);
        assert!(!app.should_show_help);
        assert!(app.should_show_help_msg);
        assert!(app.data.cache_valid());
        assert_eq!(app.data.skip, skip);
        assert_eq!(app.create_hovered_idx, 0);
        assert!(!app.needs_render());
    }
}

#[test]
fn commands_are_ignored_while_a_field_is_edited() {
    let mut app = creating();
    app.handle_line("e");
    app.mark_rendered();
    for line in ["q", "j", "G", "i", "e", "3"] {
        let action = create_dispatch(&mut app, &parse_input(line));
        assert!(matches!(action, Action::Nothing));
        let action = app.dispatch(&parse_input(line));
        assert!(matches!(action, Action::Nothing));
        assert_eq!(app.mode, Mode::Edit);
        assert_eq!(app.screen, Screen::Creating);
        assert_eq!(app.create_hovered_idx, 0);
        assert!(!app.needs_render());
    }
}

#[test]
fn only_the_edited_field_is_shown_while_editing() {
    let mut app = creating();
    app.handle_line("2j");
    for i in 0..5 {
        assert!(app.shows_field(i));
    }
    assert!(!app.shows_field(5));
    app.handle_line("e");
    for i in 0..7 {
        assert_eq!(app.shows_field(i), i == 2);
    }
    assert_eq!(app.frame(), Frame::Form);
    assert_eq!(app.pending_form().map(|form| form.len()), Some(5));
}
