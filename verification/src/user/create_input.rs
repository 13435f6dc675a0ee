//! One labelled field of a form, stored as text and read as a typed value on
//! demand.

use super::InputType;
use crate::decimal::{parse_i32, parse_i32_spec};
use crate::scan::chars_of;
use vstd::prelude::*;

verus! {

/// One labelled input of a form.
pub struct CreateInput {
    pub label: String,
    pub input_type: InputType,
    /// What the user typed, kept as it came.
    pub raw_value: String,
}

/// The mathematical value of a [`CreateInput`].
pub struct CreateInputView {
    pub label: Seq<char>,
    pub input_type: InputType,
    pub raw_value: Seq<char>,
}

impl View for CreateInput {
    type V = CreateInputView;

    open spec fn view(&self) -> CreateInputView {
        CreateInputView {
            label: self.label@,
            input_type: self.input_type,
            raw_value: self.raw_value@,
        }
    }
}

/// The text that a new field of kind `input_type` starts with.
pub open spec fn initial_raw_value(input_type: InputType) -> Seq<char> {
    match input_type {
        InputType::Number => seq!['0'],
        InputType::String => Seq::empty(),
        InputType::Boolean => seq!['f', 'a', 'l', 's', 'e'],
    }
}

/// `c` with an ASCII capital letter turned into its small letter.
pub open spec fn ascii_lower(c: char) -> char {
    if 'A' <= c && c <= 'Z' {
        (c as int + 32) as char
    } else {
        c
    }
}

/// `s` says yes: it is the word `yes`, in capital or small ASCII letters.
pub open spec fn says_yes(s: Seq<char>) -> bool {
    s.map_values(|c: char| ascii_lower(c)) == seq!['y', 'e', 's']
}

impl CreateInputView {
    /// The field read as a number: absent unless the field is a number field
    /// whose text is an `i32` in decimal notation.
    pub open spec fn i32_value(self) -> Option<i32> {
        if self.input_type == InputType::Number {
            parse_i32_spec(self.raw_value)
        } else {
            None
        }
    }

    /// The field read as a truth value: absent unless the field is a yes/no
    /// field; then true exactly when the text says yes.
    pub open spec fn bool_value(self) -> Option<bool> {
        if self.input_type == InputType::Boolean {
            Some(says_yes(self.raw_value))
        } else {
            None
        }
    }
}

impl CreateInput {
    /// A field with the given label and kind, holding the kind's initial text.
    pub fn new(label: &str, input_type: InputType) -> (r: Self)
        ensures
            r@ == (CreateInputView {
                label: label@,
                input_type,
                raw_value: initial_raw_value(input_type),
            }),
    {
        let value: &str = match input_type {
            InputType::Number => "0",
            InputType::String => "",
            InputType::Boolean => "false",
        };
        proof {
            reveal_strlit("0");
            reveal_strlit("");
            reveal_strlit("false");
            assert(value@ =~= initial_raw_value(input_type));
        }
        CreateInput { label: label.to_owned(), input_type, raw_value: value.to_owned() }
    }

    /// Reads the field as a number. Never fails: text that is no number gives
    /// no value.
    pub fn get_i32(&self) -> (r: Option<i32>)
        ensures
            r == self@.i32_value(),
    {
        match self.input_type {
            InputType::Number => {
                let chars = chars_of(self.raw_value.as_str());
                parse_i32(&chars)
            },
            _ => None,
        }
    }

    /// Reads the field as a truth value.
    pub fn get_bool(&self) -> (r: Option<bool>)
        ensures
            r == self@.bool_value(),
    {
        match self.input_type {
            InputType::Boolean => {
                let chars = chars_of(self.raw_value.as_str());
                let yes: bool = chars.len() == 3 && (chars[0] == 'y' || chars[0] == 'Y') && (
                chars[1] == 'e' || chars[1] == 'E') && (chars[2] == 's' || chars[2] == 'S');
                proof {
                    let lowered = chars@.map_values(|c: char| ascii_lower(c));
                    let word = seq!['y', 'e', 's'];
                    if yes {
                        assert(lowered =~= word);
                    } else if chars.len() == 3 {
                        assert(lowered[0] == ascii_lower(chars@[0]));
                        assert(lowered[1] == ascii_lower(chars@[1]));
                        assert(lowered[2] == ascii_lower(chars@[2]));
                        assert(word[0] == 'y' && word[1] == 'e' && word[2] == 's');
                    } else {
                        assert(lowered.len() != word.len());
                    }
                }
                Some(yes)
            },
            _ => None,
        }
    }
}

} // verus!
