//! The mode state machine: what one line of input does to a session.

use crate::app::{Action, ActionView, App, AppView, Screen};
use crate::bounds::Direction;
use crate::keybinds::nav::{
    at_end, at_start, can_scroll, inserting, jumped, listing, move_down, move_max, move_min,
    move_to, move_up, moved, scroll_down, scroll_up, scrolled, start_inserting, start_listing,
};
use crate::keybinds::{
    decode_key, key_of, parse_chars, parse_spec, repeat_of, Key, UserInput, UserInputView,
};
use crate::scan::{chars_of, trim, trimmed};
use crate::user::create_series::{
    create_dispatch, create_key_handler, create_line_step, create_step,
};
use vstd::prelude::*;

verus! {

/// What a command does on the list of records.
///
/// Every command of the table asks for a new drawing. Nothing at all
/// changes where the action letters name no command of this screen, where a
/// scroll is rejected, and where a line without action letters has no count
/// or the count 0.
pub open spec fn main_step(v: AppView, input: UserInputView) -> AppView {
    match key_of(input.actions) {
        Key::Quit => AppView { should_exit: true, ..v }.dirty(),
        Key::Help => AppView { should_show_help: !v.should_show_help, ..v }.dirty(),
        Key::HelpMessage => AppView { should_show_help_msg: !v.should_show_help_msg, ..v }.dirty(),
        Key::Refresh => AppView { data: v.data.invalidated(), ..v }.dirty(),
        Key::Insert => inserting(v).dirty(),
        Key::Up => moved(v, Direction::Up, repeat_of(input)).dirty(),
        Key::Down => moved(v, Direction::Down, repeat_of(input)).dirty(),
        Key::End => at_end(v).dirty(),
        Key::Start => at_start(v).dirty(),
        Key::ScrollUp => if can_scroll(v, Direction::Up, repeat_of(input)) {
            scrolled(v, Direction::Up, repeat_of(input)).dirty()
        } else {
            v
        },
        Key::ScrollDown => if can_scroll(v, Direction::Down, repeat_of(input)) {
            scrolled(v, Direction::Down, repeat_of(input)).dirty()
        } else {
            v
        },
        Key::Bare => match input.digits_subfix {
            Some(target) => if target > 0 {
                jumped(v, target as nat).dirty()
            } else {
                v
            },
            None => v,
        },
        _ => v,
    }
}

/// What a command does to a session: the next state, and what is left for
/// the caller to do.
pub open spec fn dispatch_step(v: AppView, input: UserInputView) -> (AppView, ActionView) {
    match v.screen {
        Screen::Listing => (main_step(v, input), ActionView::Nothing),
        Screen::Creating => create_step(v, input),
    }
}

/// What a line of input does to a session. On the list of records the line,
/// without the whitespace around it, is a command.
pub open spec fn line_step(v: AppView, line: Seq<char>) -> (AppView, ActionView) {
    match v.screen {
        Screen::Listing => (main_step(v, parse_spec(trimmed(line))), ActionView::Nothing),
        Screen::Creating => create_line_step(v, line),
    }
}

/// The state after the store has answered an insertion. A record that was
/// taken in ends the creation; a failure leaves the form as it is, to be
/// corrected or sent again. Either way the answer is shown once.
pub open spec fn insert_reported(v: AppView, outcome: Result<(), Seq<char>>) -> AppView {
    match outcome {
        Ok(_) => AppView { toast: Some("Series created!"@), ..listing(v) }.dirty(),
        Err(message) => AppView { toast: Some(message), ..v }.dirty(),
    }
}

/// Carries out one command on the list of records.
pub fn main_dispatch(app: &mut App, input: &UserInput)
    ensures
        final(app)@ == main_step(old(app)@, input@),
        old(app).wf() ==> final(app).wf(),
{
    match decode_key(&input.actions) {
        Key::Quit => {
            app.should_exit = true;
        },
        Key::Help => {
            app.should_show_help = !app.should_show_help;
        },
        Key::HelpMessage => {
            app.should_show_help_msg = !app.should_show_help_msg;
        },
        Key::Refresh => {
            app.data.invalidate();
        },
        Key::Insert => {
            start_inserting(app);
        },
        Key::Up => {
            move_up(app, input);
        },
        Key::Down => {
            move_down(app, input);
        },
        Key::End => {
            move_max(app);
        },
        Key::Start => {
            move_min(app);
        },
        Key::ScrollUp => {
            if !scroll_up(app, input) {
                return ;
            }
        },
        Key::ScrollDown => {
            if !scroll_down(app, input) {
                return ;
            }
        },
        Key::Bare => {
            match input.digits_subfix {
                Some(target) => {
                    if target == 0 {
                        return ;
                    }
                    move_to(app, input);
                },
                None => {
                    return ;
                },
            }
        },
        _ => {
            return ;
        },
    }
    app.should_render = true;
}

/// Handles one line typed on the list of records.
pub fn main_key_handler(app: &mut App, line: &str)
    ensures
        final(app)@ == main_step(old(app)@, parse_spec(trimmed(line@))),
        old(app).wf() ==> final(app).wf(),
{
    let chars = chars_of(line);
    let input = parse_chars(&trim(&chars));
    main_dispatch(app, &input);
}

impl App {
    /// Carries out one command on the screen that is open.
    pub fn dispatch(&mut self, input: &UserInput) -> (action: Action)
        requires
            old(self).wf(),
        ensures
            (final(self)@, action@) == dispatch_step(old(self)@, input@),
            final(self).wf(),
    {
        match self.screen {
            Screen::Listing => {
                main_dispatch(self, input);
                Action::Nothing
            },
            Screen::Creating => create_dispatch(self, input),
        }
    }

    /// Handles one line of input on the screen that is open.
    pub fn handle_line(&mut self, line: &str) -> (action: Action)
        requires
            old(self).wf(),
        ensures
            (final(self)@, action@) == line_step(old(self)@, line@),
            final(self).wf(),
    {
        match self.screen {
            Screen::Listing => {
                main_key_handler(self, line);
                Action::Nothing
            },
            Screen::Creating => create_key_handler(self, line),
        }
    }

    /// Takes note of how the store answered an insertion: `Ok` when it took
    /// the record in, `Err` with its message when it did not.
    pub fn insert_finished(&mut self, outcome: Result<(), String>)
        ensures
            final(self)@ == insert_reported(
                old(self)@,
                match outcome {
                    Ok(_) => Ok(()),
                    Err(message) => Err(message@),
                },
            ),
            old(self).wf() ==> final(self).wf(),
    {
        match outcome {
            Ok(_) => {
                start_listing(self);
                self.toast = Some("Series created!".to_owned());
            },
            Err(message) => {
                self.toast = Some(message);
            },
        }
        self.should_render = true;
    }
}

} // verus!
