use vstd::prelude::*;
use crate::parse_error_type_id::{ParseErrorTypeId, default_text};
use crate::parse_state::push_char;

verus! {

/// Error returned by a parse when the input cannot be parsed.
#[derive(Debug)]
pub struct ParseError {
    /// The kind of error.
    pub type_id: ParseErrorTypeId,
    /// Index of the character where the error was detected. When environment arguments are
    /// parsed, this is an approximate index in the line they stand for.
    pub line_char_index: usize,
    /// Index of the argument in which, or after which, the error occurred.
    pub arg_index: usize,
    /// Index of the option argument in which the error occurred, if it occurred in an option.
    pub option_index: Option<usize>,
    /// Code of the option in which the error occurred, if it occurred in an option.
    pub option_code: Option<String>,
    /// Index of the parameter argument in which the error occurred, if it occurred in a parameter.
    pub param_index: Option<usize>,
    /// Parameter text, or option value text, parsed so far.
    pub param_value_text: String,
}

/// Mathematical model of a [`ParseError`].
pub struct ParseErrorView {
    pub type_id: ParseErrorTypeId,
    pub line_char_index: nat,
    pub arg_index: nat,
    pub option_index: Option<nat>,
    pub option_code: Option<Seq<char>>,
    pub param_index: Option<nat>,
    pub param_value_text: Seq<char>,
}

pub open spec fn opt_nat(o: Option<usize>) -> Option<nat> {
    match o {
        Some(v) => Some(v as nat),
        None => None,
    }
}

pub open spec fn opt_text(o: Option<String>) -> Option<Seq<char>> {
    match o {
        Some(v) => Some(v@),
        None => None,
    }
}

impl View for ParseError {
    type V = ParseErrorView;

    open spec fn view(&self) -> ParseErrorView {
        ParseErrorView {
            type_id: self.type_id,
            line_char_index: self.line_char_index as nat,
            arg_index: self.arg_index as nat,
            option_index: opt_nat(self.option_index),
            option_code: opt_text(self.option_code),
            param_index: opt_nat(self.param_index),
            param_value_text: self.param_value_text@,
        }
    }
}

/// An error raised while an option argument was being parsed.
pub open spec fn option_error_view(
    type_id: ParseErrorTypeId,
    line_char_idx: nat,
    arg_idx: nat,
    option_idx: nat,
    option_code: Seq<char>,
    value_text: Seq<char>,
) -> ParseErrorView {
    ParseErrorView {
        type_id,
        line_char_index: line_char_idx,
        arg_index: arg_idx,
        option_index: Some(option_idx),
        option_code: Some(option_code),
        param_index: None,
        param_value_text: value_text,
    }
}

/// An error raised while a parameter argument was being parsed.
pub open spec fn param_error_view(
    type_id: ParseErrorTypeId,
    line_char_idx: nat,
    arg_idx: nat,
    param_idx: nat,
    value_text: Seq<char>,
) -> ParseErrorView {
    ParseErrorView {
        type_id,
        line_char_index: line_char_idx,
        arg_index: arg_idx,
        option_index: None,
        option_code: None,
        param_index: Some(param_idx),
        param_value_text: value_text,
    }
}

impl ParseError {
    pub fn new_option(
        type_id: ParseErrorTypeId,
        line_char_idx: usize,
        arg_idx: usize,
        option_idx: usize,
        option_code: &str,
        param_value_text: &str,
    ) -> (r: Self)
        ensures
            r@ == option_error_view(
                type_id,
                line_char_idx as nat,
                arg_idx as nat,
                option_idx as nat,
                option_code@,
                param_value_text@,
            ),
    {
        ParseError {
            type_id,
            line_char_index: line_char_idx,
            arg_index: arg_idx,
            option_index: Some(option_idx),
            option_code: Some(option_code.to_string()),
            param_index: None,
            param_value_text: param_value_text.to_string(),
        }
    }

    pub fn new_param(
        type_id: ParseErrorTypeId,
        line_char_idx: usize,
        arg_idx: usize,
        param_idx: usize,
        param_value_text: &str,
    ) -> (r: Self)
        ensures
            r@ == param_error_view(
                type_id,
                line_char_idx as nat,
                arg_idx as nat,
                param_idx as nat,
                param_value_text@,
            ),
    {
        ParseError {
            type_id,
            line_char_index: line_char_idx,
            arg_index: arg_idx,
            option_index: None,
            option_code: None,
            param_index: Some(param_idx),
            param_value_text: param_value_text.to_string(),
        }
    }
}


/// The decimal digit for `d` (below 10).
pub open spec fn digit_char(d: nat) -> char {
    if d == 0 { '0' } else if d == 1 { '1' } else if d == 2 { '2' } else if d == 3 { '3' }
    else if d == 4 { '4' } else if d == 5 { '5' } else if d == 6 { '6' } else if d == 7 { '7' }
    else if d == 8 { '8' } else { '9' }
}

/// The decimal form of `n`, without leading zeros.
pub open spec fn decimal(n: nat) -> Seq<char>
    decreases n,
{
    if n < 10 {
        seq![digit_char(n)]
    } else {
        decimal(n / 10).push(digit_char(n % 10))
    }
}

/// The display form of an error: `(message) [l:<line char> a:<arg>` then ` o:<option>
/// c:"<code>"` for an option error or ` p:<param> t:"<text>"` for a parameter error, then `]`.
pub open spec fn display_text(e: ParseErrorView) -> Seq<char> {
    let head = "("@ + default_text(e.type_id) + ") [l:"@ + decimal(e.line_char_index) + " a:"@
        + decimal(e.arg_index);
    let detail = match e.option_index {
        Some(o) => " o:"@ + decimal(o) + match e.option_code {
            Some(c) => " c:\""@ + c + "\""@,
            None => Seq::empty(),
        },
        None => match e.param_index {
            Some(p) => " p:"@ + decimal(p) + " t:\""@ + e.param_value_text + "\""@,
            None => Seq::empty(),
        },
    };
    head + detail + "]"@
}

fn digit(d: usize) -> (r: char)
    requires
        d < 10,
    ensures
        r == digit_char(d as nat),
{
    if d == 0 { '0' } else if d == 1 { '1' } else if d == 2 { '2' } else if d == 3 { '3' }
    else if d == 4 { '4' } else if d == 5 { '5' } else if d == 6 { '6' } else if d == 7 { '7' }
    else if d == 8 { '8' } else { '9' }
}

/// Append the decimal form of `n` to `s`.
fn push_decimal(s: &mut String, n: usize)
    ensures
        final(s)@ == old(s)@ + decimal(n as nat),
    decreases n,
{
    if n < 10 {
        push_char(s, digit(n));
        proof {
            assert(old(s)@.push(digit_char(n as nat)) =~= old(s)@ + decimal(n as nat));
        }
    } else {
        push_decimal(s, n / 10);
        push_char(s, digit(n % 10));
        proof {
            assert(old(s)@ + decimal(n as nat) =~= old(s)@ + decimal((n / 10) as nat) + seq![digit_char((n % 10) as nat)]);
        }
    }
}

impl ParseError {
    /// The display form of this error: its message, where it happened and what was parsed.
    pub fn to_display_string(&self) -> (r: String)
        ensures
            r@ == display_text(self@),
    {
        let mut text = String::new();
        text.append("(");
        text.append(self.type_id.get_default_text());
        text.append(") [l:");
        push_decimal(&mut text, self.line_char_index);
        text.append(" a:");
        push_decimal(&mut text, self.arg_index);
        match self.option_index {
            Some(o) => {
                text.append(" o:");
                push_decimal(&mut text, o);
                match &self.option_code {
                    Some(c) => {
                        text.append(" c:\"");
                        text.append(c.as_str());
                        text.append("\"");
                    },
                    None => {},
                }
            },
            None => match self.param_index {
                Some(p) => {
                    text.append(" p:");
                    push_decimal(&mut text, p);
                    text.append(" t:\"");
                    text.append(self.param_value_text.as_str());
                    text.append("\"");
                },
                None => {},
            },
        }
        text.append("]");
        proof {
            reveal_strlit("(");
            reveal_strlit(") [l:");
            reveal_strlit(" a:");
            reveal_strlit(" o:");
            reveal_strlit(" c:\"");
            reveal_strlit("\"");
            reveal_strlit(" p:");
            reveal_strlit(" t:\"");
            reveal_strlit("]");
            assert(text@ =~= display_text(self@));
        }
        text
    }
}
} // verus!
