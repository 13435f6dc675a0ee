//! Commands: the structured form of one input line, and the parser that
//! produces it.

pub mod nav;

use crate::decimal::{count_of, count_of_run};
use crate::scan::{all_in_class, chars_of, run_end, run_len, slice_of, CharClass};
use vstd::prelude::*;

verus! {

/// How input lines are read at the moment.
#[derive(Clone, Copy, Debug, PartialEq, Eq, Structural)]
pub enum Mode {
    /// A line is a command.
    Navigation,
    /// A line is the new text of the form field under the cursor.
    Edit,
}

/// One parsed command line.
pub struct UserInput {
    /// The count written before the actions; absent means "once".
    pub digits_prefix: Option<usize>,
    /// The run of non-digit characters that names the command; may be empty.
    pub actions: Vec<char>,
    /// The count written after the actions, or, for a line made of digits
    /// only, the number of the record to go to.
    pub digits_subfix: Option<usize>,
}

/// The mathematical value of a [`UserInput`].
pub struct UserInputView {
    pub digits_prefix: Option<usize>,
    pub actions: Seq<char>,
    pub digits_subfix: Option<usize>,
}

impl View for UserInput {
    type V = UserInputView;

    open spec fn view(&self) -> UserInputView {
        UserInputView {
            digits_prefix: self.digits_prefix,
            actions: self.actions@,
            digits_subfix: self.digits_subfix,
        }
    }
}

impl UserInputView {
    /// The actions hold no digit, and a command without actions has no
    /// repeat count: its digits, if any, name a record.
    pub open spec fn wf(self) -> bool {
        &&& all_in_class(self.actions, CharClass::NonDigit)
        &&& (self.actions.len() == 0 ==> self.digits_prefix is None)
    }
}

/// The command that `line` denotes.
///
/// The line is read as three maximal runs in this order: digits, then
/// non-digits, then digits again; whatever follows the third run is ignored.
/// Where the run of non-digits is empty the leading digits are the number of a
/// record and go to `digits_subfix`; otherwise they are a repeat count and go
/// to `digits_prefix`. A run of digits that is empty, or whose value does not
/// fit in a `usize`, gives no count.
pub open spec fn parse_spec(line: Seq<char>) -> UserInputView {
    let leading = run_len(line, CharClass::Digit) as int;
    let after_leading = line.skip(leading);
    let named = run_len(after_leading, CharClass::NonDigit) as int;
    let after_named = after_leading.skip(named);
    let trailing = run_len(after_named, CharClass::Digit) as int;
    if named == 0 {
        UserInputView {
            digits_prefix: None,
            actions: Seq::empty(),
            digits_subfix: count_of(line.take(leading)),
        }
    } else {
        UserInputView {
            digits_prefix: count_of(line.take(leading)),
            actions: after_leading.take(named),
            digits_subfix: count_of(after_named.take(trailing)),
        }
    }
}

/// The commands that the action letters of a line can name.
#[derive(Clone, Copy, Debug, PartialEq, Eq, Structural)]
pub enum Key {
    /// `q`: leave the session, or leave the form.
    Quit,
    /// `h`: show or hide the key bindings.
    Help,
    /// `m`: show or hide the hint about the help key.
    HelpMessage,
    /// `r`: fetch the page again.
    Refresh,
    /// `i`: begin a creation, or commit the form.
    Insert,
    /// `e`: edit the highlighted field.
    Edit,
    /// `k`: move up.
    Up,
    /// `j`: move down.
    Down,
    /// `G`: go to the last item.
    End,
    /// `gg`: go to the first item.
    Start,
    /// `-`: scroll towards the start of the store.
    ScrollUp,
    /// `+`: scroll towards the end of the store.
    ScrollDown,
    /// No action letters at all.
    Bare,
    /// Action letters that name no command.
    Unknown,
}

/// The action letters that name `key`. `Unknown` has none; the empty
/// sequence given for it names `Bare`.
pub open spec fn binding(key: Key) -> Seq<char> {
    match key {
        Key::Quit => seq!['q'],
        Key::Help => seq!['h'],
        Key::HelpMessage => seq!['m'],
        Key::Refresh => seq!['r'],
        Key::Insert => seq!['i'],
        Key::Edit => seq!['e'],
        Key::Up => seq!['k'],
        Key::Down => seq!['j'],
        Key::End => seq!['G'],
        Key::Start => seq!['g', 'g'],
        Key::ScrollUp => seq!['-'],
        Key::ScrollDown => seq!['+'],
        Key::Bare => Seq::empty(),
        Key::Unknown => Seq::empty(),
    }
}

/// The command that `actions` names: the one whose binding it is, letter for
/// letter.
pub open spec fn key_of(actions: Seq<char>) -> Key {
    if actions.len() == 0 {
        Key::Bare
    } else if actions.len() == 1 {
        let c = actions[0];
        if c == 'q' {
            Key::Quit
        } else if c == 'h' {
            Key::Help
        } else if c == 'm' {
            Key::HelpMessage
        } else if c == 'r' {
            Key::Refresh
        } else if c == 'i' {
            Key::Insert
        } else if c == 'e' {
            Key::Edit
        } else if c == 'k' {
            Key::Up
        } else if c == 'j' {
            Key::Down
        } else if c == 'G' {
            Key::End
        } else if c == '-' {
            Key::ScrollUp
        } else if c == '+' {
            Key::ScrollDown
        } else {
            Key::Unknown
        }
    } else if actions.len() == 2 && actions[0] == 'g' && actions[1] == 'g' {
        Key::Start
    } else {
        Key::Unknown
    }
}

/// A sequence of action letters names a command exactly when it is that
/// command's binding.
pub proof fn lemma_key_of_is_exact_match(actions: Seq<char>, key: Key)
    requires
        key != Key::Unknown,
    ensures
        key_of(actions) == key <==> actions == binding(key),
{
    if actions == binding(key) {
        assert(key_of(binding(key)) == key);
    }
    if key_of(actions) == key {
        assert(actions =~= binding(key));
    }
}

/// The repeat count of a command: the count before the actions, once if
/// there is none.
pub open spec fn repeat_of(input: UserInputView) -> nat {
    match input.digits_prefix {
        Some(n) => n as nat,
        None => 1,
    }
}

/// Every line parses to a well-formed command.
pub proof fn lemma_parse_is_well_formed(line: Seq<char>)
    ensures
        parse_spec(line).wf(),
{
    let leading = run_len(line, CharClass::Digit) as int;
    let after_leading = line.skip(leading);
    crate::scan::lemma_run_len_is_leading_run(after_leading, CharClass::NonDigit);
    let named = run_len(after_leading, CharClass::NonDigit) as int;
    let actions = parse_spec(line).actions;
    if named > 0 {
        assert forall|i: int| 0 <= i < actions.len() implies crate::scan::in_class(
            #[trigger] actions[i],
            CharClass::NonDigit,
        ) by {
            assert(actions[i] == after_leading[i]);
        }
    }
}

/// A line of digits alone names a record: the digits are the trailing count,
/// there is no repeat count and there are no actions.
pub proof fn lemma_parse_digits_only(line: Seq<char>)
    requires
        all_in_class(line, CharClass::Digit),
    ensures
        parse_spec(line) == (UserInputView {
            digits_prefix: None,
            actions: Seq::empty(),
            digits_subfix: count_of(line),
        }),
        line.len() > 0 && crate::decimal::decimal_value(line) <= usize::MAX ==> parse_spec(
            line,
        ).digits_subfix == Some(crate::decimal::decimal_value(line) as usize),
{
    crate::scan::lemma_leading_run_unique(line, CharClass::Digit, line.len());
    assert(line.take(line.len() as int) =~= line);
    assert(line.skip(line.len() as int).len() == 0);
}

/// In a line made of digits followed by non-digits, the digits are the repeat
/// count and the non-digits are the actions. Left out is the line of digits
/// alone, whose digits name a record instead.
pub proof fn lemma_parse_count_then_actions(digits: Seq<char>, actions: Seq<char>)
    requires
        all_in_class(digits, CharClass::Digit),
        all_in_class(actions, CharClass::NonDigit),
        actions.len() > 0 || count_of(digits) is None,
    ensures
        parse_spec(digits + actions).digits_prefix == count_of(digits),
        parse_spec(digits + actions).actions == actions,
        actions.len() > 0 ==> parse_spec(digits + actions).digits_subfix is None,
{
    let line = digits + actions;
    assert forall|i: int| 0 <= i < digits.len() implies crate::scan::in_class(
        #[trigger] line[i],
        CharClass::Digit,
    ) by {
        assert(line[i] == digits[i]);
    }
    if actions.len() > 0 {
        assert(line[digits.len() as int] == actions[0]);
    }
    crate::scan::lemma_leading_run_unique(line, CharClass::Digit, digits.len());
    assert(line.take(digits.len() as int) =~= digits);
    assert(line.skip(digits.len() as int) =~= actions);
    crate::scan::lemma_leading_run_unique(actions, CharClass::NonDigit, actions.len());
    assert(actions.take(actions.len() as int) =~= actions);
    assert(actions.skip(actions.len() as int).len() == 0);
    assert(actions.skip(actions.len() as int).take(0) =~= Seq::<char>::empty());
}

/// Finds the command that the action letters name.
pub fn decode_key(actions: &Vec<char>) -> (key: Key)
    ensures
        key == key_of(actions@),
{
    if actions.len() == 0 {
        Key::Bare
    } else if actions.len() == 1 {
        let c: char = actions[0];
        if c == 'q' {
            Key::Quit
        } else if c == 'h' {
            Key::Help
        } else if c == 'm' {
            Key::HelpMessage
        } else if c == 'r' {
            Key::Refresh
        } else if c == 'i' {
            Key::Insert
        } else if c == 'e' {
            Key::Edit
        } else if c == 'k' {
            Key::Up
        } else if c == 'j' {
            Key::Down
        } else if c == 'G' {
            Key::End
        } else if c == '-' {
            Key::ScrollUp
        } else if c == '+' {
            Key::ScrollDown
        } else {
            Key::Unknown
        }
    } else if actions.len() == 2 && actions[0] == 'g' && actions[1] == 'g' {
        Key::Start
    } else {
        Key::Unknown
    }
}

/// Parses the characters of one line into a command.
pub fn parse_chars(chars: &Vec<char>) -> (r: UserInput)
    ensures
        r@ == parse_spec(chars@),
        r@.wf(),
{
    proof {
        lemma_parse_is_well_formed(chars@);
    }
    let leading_end: usize = run_end(chars, 0, CharClass::Digit);
    let named_end: usize = run_end(chars, leading_end, CharClass::NonDigit);
    let trailing_end: usize = run_end(chars, named_end, CharClass::Digit);
    proof {
        let line = chars@;
        assert(line.skip(0) =~= line);
        assert(line.skip(leading_end as int).skip(named_end - leading_end) =~= line.skip(
            named_end as int,
        ));
        assert(line.take(leading_end as int) =~= line.subrange(0, leading_end as int));
        assert(line.skip(leading_end as int).take(named_end - leading_end) =~= line.subrange(
            leading_end as int,
            named_end as int,
        ));
        assert(line.skip(named_end as int).take(trailing_end - named_end) =~= line.subrange(
            named_end as int,
            trailing_end as int,
        ));
    }
    if named_end == leading_end {
        UserInput {
            digits_prefix: None,
            actions: Vec::new(),
            digits_subfix: count_of_run(chars, 0, leading_end),
        }
    } else {
        UserInput {
            digits_prefix: count_of_run(chars, 0, leading_end),
            actions: slice_of(chars, leading_end, named_end),
            digits_subfix: count_of_run(chars, named_end, trailing_end),
        }
    }
}

/// Parses one line of input into a command. Every line has a parse.
pub fn parse_input(input: &str) -> (r: UserInput)
    ensures
        r@ == parse_spec(input@),
        r@.wf(),
{
    let chars = chars_of(input);
    parse_chars(&chars)
}

} // verus!
