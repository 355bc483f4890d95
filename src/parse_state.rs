use vstd::prelude::*;
use crate::parse_error::{ParseError, ParseErrorView, option_error_view, param_error_view};
use crate::parse_error_type_id::ParseErrorTypeId;

verus! {

/// Relies on `String::push`: appends `c` to the end of `s`.
#[verifier::external_body]
pub(crate) fn push_char(s: &mut String, c: char)
    ensures
        final(s)@ == old(s)@.push(c),
{
    s.push(c)
}

/// Outer state of the parse: where the parser stands between and within arguments.
#[derive(Clone, Copy, Debug, PartialEq, Eq, Structural)]
pub enum ArgParseState {
    WaitBinary,
    WaitOptionOrParam,
    InParam,
    InParamPossibleEndQuote,
    InParamEscaped,
    InOption,
}

/// Inner state of the parse, meaningful while the outer state is `InOption`.
#[derive(Clone, Copy, Debug, PartialEq, Eq, Structural)]
pub enum OptionParseState {
    InCode,
    WaitOptionValue,
    InValue,
    InValuePossibleEndQuote,
    InValueEscaped,
}

/// The state of one parse, created afresh for each parse call.
#[derive(Debug)]
pub struct ParseState {
    pub multi_char_option_code_requires_double_announcer: bool,
    pub arg_parse_state: ArgParseState,
    pub option_parse_state: OptionParseState,
    /// Approximate index in the line of the character being parsed (exact for a line).
    pub env_line_approximate_char_idx: usize,
    /// Index of the environment argument being parsed (0 for a line).
    pub env_arg_idx: usize,
    /// Index of the character being parsed, in the line or the environment argument.
    pub line_or_env_arg_char_idx: usize,
    pub arg_start_char_idx: usize,
    pub arg_start_env_line_approximate_char_idx: usize,
    pub arg_start_env_arg_idx: usize,
    pub value_start_char_idx: usize,
    pub value_start_env_line_approximate_char_idx: usize,
    pub value_start_env_arg_idx: usize,
    pub arg_quote_char: char,
    pub option_announcer_char: char,
    /// The option code: the characters after the announcer while the code is read, then the
    /// code itself once it is complete.
    pub option_code: String,
    pub option_value_announcer_is_ambiguous: bool,
    pub current_option_value_may_be_param: bool,
    pub value_quoted: bool,
    pub value_bldr: String,
    pub arg_count: usize,
    pub option_count: usize,
    pub param_count: usize,
    pub current_param_is_binary: bool,
}

/// Model of a [`ParseState`].
pub struct ParseStateView {
    pub multi_double: bool,
    pub arg_state: ArgParseState,
    pub option_state: OptionParseState,
    pub approx_idx: nat,
    pub env_arg_idx: nat,
    pub char_idx: nat,
    pub arg_start_char: nat,
    pub arg_start_approx: nat,
    pub arg_start_env_arg: nat,
    pub value_start_char: nat,
    pub value_start_approx: nat,
    pub value_start_env_arg: nat,
    pub quote_char: char,
    pub announcer_char: char,
    pub option_code: Seq<char>,
    pub ambiguous: bool,
    pub may_be_param: bool,
    pub quoted: bool,
    pub value: Seq<char>,
    pub arg_count: nat,
    pub option_count: nat,
    pub param_count: nat,
    pub is_binary: bool,
}

impl View for ParseState {
    type V = ParseStateView;

    open spec fn view(&self) -> ParseStateView {
        ParseStateView {
            multi_double: self.multi_char_option_code_requires_double_announcer,
            arg_state: self.arg_parse_state,
            option_state: self.option_parse_state,
            approx_idx: self.env_line_approximate_char_idx as nat,
            env_arg_idx: self.env_arg_idx as nat,
            char_idx: self.line_or_env_arg_char_idx as nat,
            arg_start_char: self.arg_start_char_idx as nat,
            arg_start_approx: self.arg_start_env_line_approximate_char_idx as nat,
            arg_start_env_arg: self.arg_start_env_arg_idx as nat,
            value_start_char: self.value_start_char_idx as nat,
            value_start_approx: self.value_start_env_line_approximate_char_idx as nat,
            value_start_env_arg: self.value_start_env_arg_idx as nat,
            quote_char: self.arg_quote_char,
            announcer_char: self.option_announcer_char,
            option_code: self.option_code@,
            ambiguous: self.option_value_announcer_is_ambiguous,
            may_be_param: self.current_option_value_may_be_param,
            quoted: self.value_quoted,
            value: self.value_bldr@,
            arg_count: self.arg_count as nat,
            option_count: self.option_count as nat,
            param_count: self.param_count as nat,
            is_binary: self.current_param_is_binary,
        }
    }
}

/// The state in which every parse starts.
pub open spec fn initial_state(first_arg_is_binary: bool, multi_double: bool) -> ParseStateView {
    ParseStateView {
        multi_double,
        arg_state: if first_arg_is_binary {
            ArgParseState::WaitBinary
        } else {
            ArgParseState::WaitOptionOrParam
        },
        option_state: OptionParseState::InCode,
        approx_idx: 0,
        env_arg_idx: 0,
        char_idx: 0,
        arg_start_char: 0,
        arg_start_approx: 0,
        arg_start_env_arg: 0,
        value_start_char: 0,
        value_start_approx: 0,
        value_start_env_arg: 0,
        quote_char: '\0',
        announcer_char: '\0',
        option_code: Seq::empty(),
        ambiguous: false,
        may_be_param: false,
        quoted: false,
        value: Seq::empty(),
        arg_count: 0,
        option_count: 0,
        param_count: 0,
        is_binary: false,
    }
}

/// An option error raised in state `s`.
pub open spec fn option_error(s: ParseStateView, kind: ParseErrorTypeId) -> ParseErrorView {
    option_error_view(kind, s.approx_idx, s.arg_count, s.option_count, s.option_code, s.value)
}

/// A parameter error raised in state `s`.
pub open spec fn param_error(s: ParseStateView, kind: ParseErrorTypeId) -> ParseErrorView {
    param_error_view(kind, s.approx_idx, s.arg_count, s.param_count, s.value)
}

/// The option code once it is complete, from the characters read after the announcer.
/// Where a code longer than one character must be introduced by a double announcer: a code of
/// at most one character is kept as read (so `--` gives the code `-`); a longer one that starts
/// with the announcer loses that second announcer (`--abc` gives `abc`); any other longer one
/// is an error (`-abc`).
pub open spec fn completed_code(s: ParseStateView) -> Result<ParseStateView, ParseErrorView> {
    let raw = s.option_code;
    if !s.multi_double || raw.len() <= 1 {
        Ok(s)
    } else if raw[0] == s.announcer_char {
        Ok(ParseStateView { option_code: raw.drop_first(), ..s })
    } else {
        Err(option_error(s, ParseErrorTypeId::OptionCodeMissingDoubleAnnouncer))
    }
}

impl ParseState {
    pub fn new(first_arg_is_binary: bool, multi_char_option_code_requires_double_announcer: bool) -> (r: Self)
        ensures
            r@ == initial_state(first_arg_is_binary, multi_char_option_code_requires_double_announcer),
    {
        ParseState {
            multi_char_option_code_requires_double_announcer,
            arg_parse_state: if first_arg_is_binary {
                ArgParseState::WaitBinary
            } else {
                ArgParseState::WaitOptionOrParam
            },
            option_parse_state: OptionParseState::InCode,
            env_line_approximate_char_idx: 0,
            env_arg_idx: 0,
            line_or_env_arg_char_idx: 0,
            arg_start_char_idx: 0,
            arg_start_env_line_approximate_char_idx: 0,
            arg_start_env_arg_idx: 0,
            value_start_char_idx: 0,
            value_start_env_line_approximate_char_idx: 0,
            value_start_env_arg_idx: 0,
            arg_quote_char: '\0',
            option_announcer_char: '\0',
            option_code: String::new(),
            option_value_announcer_is_ambiguous: false,
            current_option_value_may_be_param: false,
            value_quoted: false,
            value_bldr: String::new(),
            arg_count: 0,
            option_count: 0,
            param_count: 0,
            current_param_is_binary: false,
        }
    }

    /// Turn the characters read after the announcer into the option code, as
    /// `completed_code` says: under the double-announcer rule `--` gives the code `-`,
    /// `--abc` gives `abc` and `-abc` is an error.
    pub fn set_option_code(&mut self) -> (r: Result<(), ParseError>)
        ensures
            match completed_code(old(self)@) {
                Ok(s) => r is Ok && final(self)@ == s,
                Err(e) => r matches Err(x) && x@ == e && final(self)@ == old(self)@,
            },
    {
        let n = self.option_code.as_str().unicode_len();
        if !self.multi_char_option_code_requires_double_announcer || n <= 1 {
            Ok(())
        } else if self.option_code.as_str().get_char(0) == self.option_announcer_char {
            let code = self.option_code.as_str().substring_char(1, n).to_string();
            self.option_code = code;
            proof {
                assert(self.option_code@ =~= old(self).option_code@.drop_first());
            }
            Ok(())
        } else {
            Err(self.create_option_error(ParseErrorTypeId::OptionCodeMissingDoubleAnnouncer))
        }
    }

    pub fn increment_env_line_approximate_char_idx(&mut self)
        requires
            old(self).env_line_approximate_char_idx < usize::MAX,
        ensures
            final(self)@ == (ParseStateView { approx_idx: old(self)@.approx_idx + 1, ..old(self)@ }),
    {
        self.env_line_approximate_char_idx = self.env_line_approximate_char_idx + 1;
    }

    pub fn increment_env_arg_char_idx(&mut self)
        requires
            old(self).line_or_env_arg_char_idx < usize::MAX,
        ensures
            final(self)@ == (ParseStateView { char_idx: old(self)@.char_idx + 1, ..old(self)@ }),
    {
        self.line_or_env_arg_char_idx = self.line_or_env_arg_char_idx + 1;
    }

    pub fn create_option_error(&self, error_id: ParseErrorTypeId) -> (r: ParseError)
        ensures
            r@ == option_error(self@, error_id),
    {
        ParseError::new_option(
            error_id,
            self.env_line_approximate_char_idx,
            self.arg_count,
            self.option_count,
            self.option_code.as_str(),
            self.value_bldr.as_str(),
        )
    }

    pub fn create_param_error(&self, error_id: ParseErrorTypeId) -> (r: ParseError)
        ensures
            r@ == param_error(self@, error_id),
    {
        ParseError::new_param(
            error_id,
            self.env_line_approximate_char_idx,
            self.arg_count,
            self.param_count,
            self.value_bldr.as_str(),
        )
    }
}

} // verus!
