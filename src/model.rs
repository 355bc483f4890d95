use vstd::prelude::*;
use crate::arg::{ArgPosView, ArgView};
use crate::env_char::{EnvChar, is_white_space};
use crate::matcher::{MatchArgTypeId, MatcherView, OptionHasValue};
use crate::parse_error::ParseErrorView;
use crate::parse_error_type_id::ParseErrorTypeId;
use crate::parse_state::{
    ArgParseState, OptionParseState, ParseStateView, completed_code, option_error, param_error,
    initial_state,
};
use crate::regex_or_text::{RegexOrTextView, rot_matches};

verus! {

/// The logical characters that can be named as escapable.
#[derive(Clone, Copy, Debug, PartialEq, Eq, Structural)]
pub enum EscapeableLogicalChar {
    /// The escape character itself.
    Escape,
    /// The quote character that opened the current quoted text.
    Quote,
    /// Any whitespace character.
    Whitespace,
    /// Any option announcer character.
    OptionAnnouncer,
    /// Any option value announcer character.
    OptionValueAnnouncer,
    /// Every character.
    All,
}

/// Model of a parser: its configuration and its matchers.
pub struct ParserView<O, P> {
    pub quote_chars: Seq<char>,
    pub option_announcer_chars: Seq<char>,
    pub option_codes_case_sensitive: bool,
    pub option_code_can_be_empty: bool,
    pub multi_char_option_code_requires_double_announcer: bool,
    pub option_value_announcer_chars: Seq<char>,
    pub option_values_case_sensitive: bool,
    pub params_case_sensitive: bool,
    pub embed_quote_char_with_double: bool,
    pub escape_char: Option<char>,
    pub escapeable_logical_chars: Seq<EscapeableLogicalChar>,
    pub escapeable_chars: Seq<char>,
    pub first_arg_is_binary: bool,
    pub parse_terminate_chars: Seq<char>,
    pub matchers: Seq<MatcherView<O, P>>,
}

// ---------------------------------------------------------------------------------------------
// Matcher filters

/// Whether `list` holds `idx`.
pub open spec fn holds_index(list: Seq<usize>, idx: nat) -> bool {
    exists|k: int| 0 <= k < list.len() && list[k] as nat == idx
}

/// An index filter: unset, or a list that holds `idx`.
pub open spec fn index_ok(idx: nat, filter: Option<Seq<usize>>) -> bool {
    match filter {
        Some(list) => holds_index(list, idx),
        None => true,
    }
}

pub open spec fn arg_type_ok(t: MatchArgTypeId, filter: Option<MatchArgTypeId>) -> bool {
    match filter {
        Some(f) => f == t,
        None => true,
    }
}

/// Whether an entry of `list` accepts `code`.
pub open spec fn some_code_accepts(list: Seq<RegexOrTextView>, code: Seq<char>, cs: bool) -> bool {
    exists|k: int| 0 <= k < list.len() && rot_matches(list[k], code, cs)
}

/// An option code filter: unset, or a list with an entry that accepts `code`.
pub open spec fn code_ok(code: Seq<char>, filter: Option<Seq<RegexOrTextView>>, cs: bool) -> bool {
    match filter {
        Some(list) => some_code_accepts(list, code, cs),
        None => true,
    }
}

pub open spec fn text_ok(value: Seq<char>, filter: Option<RegexOrTextView>, cs: bool) -> bool {
    match filter {
        Some(r) => rot_matches(r, value, cs),
        None => true,
    }
}

/// Whether `m` accepts the option being parsed, leaving its value aside.
pub open spec fn option_excl_value_ok<O, P>(p: ParserView<O, P>, m: MatcherView<O, P>, s: ParseStateView) -> bool {
    &&& index_ok(s.arg_count, m.arg_indices)
    &&& arg_type_ok(MatchArgTypeId::Option, m.arg_type)
    &&& index_ok(s.option_count, m.option_indices)
    &&& code_ok(s.option_code, m.option_codes, p.option_codes_case_sensitive)
}

/// Whether `m` accepts the option being parsed, with (`has_value`) or without a value.
pub open spec fn option_ok<O, P>(p: ParserView<O, P>, m: MatcherView<O, P>, s: ParseStateView, has_value: bool) -> bool {
    &&& option_excl_value_ok(p, m, s)
    &&& match m.option_has_value {
        OptionHasValue::Always => has_value && text_ok(s.value, m.value_text, p.option_values_case_sensitive),
        OptionHasValue::IfPossible => !has_value || text_ok(s.value, m.value_text, p.option_values_case_sensitive),
        OptionHasValue::Never => !has_value,
    }
}

/// Whether `m` accepts the parameter being parsed.
pub open spec fn param_ok<O, P>(p: ParserView<O, P>, m: MatcherView<O, P>, s: ParseStateView) -> bool {
    &&& index_ok(s.arg_count, m.arg_indices)
    &&& arg_type_ok(MatchArgTypeId::Param, m.arg_type)
    &&& index_ok(s.param_count, m.param_indices)
    &&& text_ok(s.value, m.value_text, p.params_case_sensitive)
}

/// The first of the first `n` matchers that accepts the option being parsed.
pub open spec fn first_option_match<O, P>(p: ParserView<O, P>, s: ParseStateView, has_value: bool, n: nat) -> Option<nat>
    decreases n,
{
    if n == 0 {
        None
    } else {
        match first_option_match(p, s, has_value, (n - 1) as nat) {
            Some(i) => Some(i),
            None => if option_ok(p, p.matchers[n - 1], s, has_value) {
                Some((n - 1) as nat)
            } else {
                None
            },
        }
    }
}

/// The first of the first `n` matchers that accepts the parameter being parsed.
pub open spec fn first_param_match<O, P>(p: ParserView<O, P>, s: ParseStateView, n: nat) -> Option<nat>
    decreases n,
{
    if n == 0 {
        None
    } else {
        match first_param_match(p, s, (n - 1) as nat) {
            Some(i) => Some(i),
            None => if param_ok(p, p.matchers[n - 1], s) {
                Some((n - 1) as nat)
            } else {
                None
            },
        }
    }
}

/// The matcher that accepts the option being parsed: `Some(None)` when the parser has no
/// matchers (everything is accepted), `None` when no matcher accepts it.
pub open spec fn find_option_matcher<O, P>(p: ParserView<O, P>, s: ParseStateView, has_value: bool) -> Option<Option<nat>> {
    if p.matchers.len() == 0 {
        Some(None)
    } else {
        match first_option_match(p, s, has_value, p.matchers.len()) {
            Some(i) => Some(Some(i)),
            None => None,
        }
    }
}

/// The matcher that accepts the parameter being parsed, as for options.
pub open spec fn find_param_matcher<O, P>(p: ParserView<O, P>, s: ParseStateView) -> Option<Option<nat>> {
    if p.matchers.len() == 0 {
        Some(None)
    } else {
        match first_param_match(p, s, p.matchers.len()) {
            Some(i) => Some(Some(i)),
            None => None,
        }
    }
}

/// Whether one of the first `n` matchers accepts the option code and allows a value.
pub open spec fn some_code_with_value<O, P>(p: ParserView<O, P>, s: ParseStateView, n: nat) -> bool
    decreases n,
{
    if n == 0 {
        false
    } else {
        some_code_with_value(p, s, (n - 1) as nat) || (option_excl_value_ok(p, p.matchers[n - 1], s)
            && p.matchers[n - 1].option_has_value != OptionHasValue::Never)
    }
}

/// Whether the option code being parsed can have a value.
pub open spec fn can_option_code_have_value<O, P>(p: ParserView<O, P>, s: ParseStateView) -> bool {
    some_code_with_value(p, s, p.matchers.len())
}

// ---------------------------------------------------------------------------------------------
// Ambiguity resolution

/// Whether the token after an option code is the option's value.
#[derive(Clone, Copy, Debug, PartialEq, Eq, Structural)]
pub enum ValueVerdict {
    Must,
    Possibly,
    MustNot,
    /// The value would begin with an option announcer, which the matcher does not allow.
    Refused,
}

/// What matcher `m` says of the token after the option code, given whether the token's first
/// character is an option announcer.
pub open spec fn matcher_verdict<O, P>(p: ParserView<O, P>, m: MatcherView<O, P>, s: ParseStateView, first_is_announcer: bool) -> ValueVerdict {
    if !option_excl_value_ok(p, m, s) {
        ValueVerdict::MustNot
    } else {
        match m.option_has_value {
            OptionHasValue::Always => if first_is_announcer && !m.option_value_can_start_with_option_announcer {
                ValueVerdict::Refused
            } else {
                ValueVerdict::Must
            },
            OptionHasValue::IfPossible => if s.ambiguous {
                if first_is_announcer {
                    ValueVerdict::MustNot
                } else {
                    ValueVerdict::Possibly
                }
            } else if first_is_announcer {
                ValueVerdict::Refused
            } else {
                ValueVerdict::Must
            },
            OptionHasValue::Never => ValueVerdict::MustNot,
        }
    }
}

/// The verdicts of the first `n` matchers together: the first `Must` or `Refused` decides;
/// otherwise any `Possibly`; otherwise `MustNot`.
pub open spec fn combined_verdict<O, P>(p: ParserView<O, P>, s: ParseStateView, first_is_announcer: bool, n: nat) -> ValueVerdict
    decreases n,
{
    if n == 0 {
        ValueVerdict::MustNot
    } else {
        let before = combined_verdict(p, s, first_is_announcer, (n - 1) as nat);
        if before == ValueVerdict::Must || before == ValueVerdict::Refused {
            before
        } else {
            let v = matcher_verdict(p, p.matchers[n - 1], s, first_is_announcer);
            if v == ValueVerdict::MustNot {
                before
            } else {
                v
            }
        }
    }
}

pub open spec fn value_verdict<O, P>(p: ParserView<O, P>, s: ParseStateView, first_is_announcer: bool) -> ValueVerdict {
    combined_verdict(p, s, first_is_announcer, p.matchers.len())
}

// ---------------------------------------------------------------------------------------------
// Building arguments

pub open spec fn arg_pos(s: ParseStateView) -> ArgPosView {
    ArgPosView {
        char_index: s.arg_start_char,
        env_line_approximate_char_index: s.arg_start_approx,
        arg_index: s.arg_count,
        env_arg_index: s.arg_start_env_arg,
    }
}

pub open spec fn option_arg(s: ParseStateView, has_value: bool, mi: Option<nat>) -> ArgView {
    ArgView::Option {
        pos: arg_pos(s),
        matcher_index: mi,
        option_index: s.option_count,
        code: s.option_code,
        value_text: if has_value { Some(s.value) } else { None },
    }
}

pub open spec fn after_option(s: ParseStateView) -> ParseStateView {
    ParseStateView { arg_count: s.arg_count + 1, option_count: s.option_count + 1, ..s }
}

pub open spec fn param_arg(s: ParseStateView, mi: Option<nat>) -> ArgView {
    ArgView::Param { pos: arg_pos(s), matcher_index: mi, param_index: s.param_count, value_text: s.value }
}

pub open spec fn after_param(s: ParseStateView) -> ParseStateView {
    ParseStateView { arg_count: s.arg_count + 1, param_count: s.param_count + 1, ..s }
}

pub open spec fn binary_arg(s: ParseStateView) -> ArgView {
    ArgView::Binary { pos: arg_pos(s), value_text: s.value }
}

pub open spec fn after_binary(s: ParseStateView) -> ParseStateView {
    ParseStateView { arg_count: s.arg_count + 1, ..s }
}

/// Classify the completed parameter token (or binary token).
pub open spec fn match_param<O, P>(p: ParserView<O, P>, s: ParseStateView) -> Result<(ParseStateView, Seq<ArgView>), ParseErrorView> {
    if s.is_binary {
        Ok((after_binary(s), seq![binary_arg(s)]))
    } else {
        match find_param_matcher(p, s) {
            Some(mi) => Ok((after_param(s), seq![param_arg(s, mi)])),
            None => Err(param_error(s, ParseErrorTypeId::UnmatchedParam)),
        }
    }
}

/// The state in which the text taken as an option's value is classified afresh as a
/// parameter that starts where the value started.
pub open spec fn value_as_param(s: ParseStateView) -> ParseStateView {
    ParseStateView {
        arg_start_char: s.value_start_char,
        arg_start_approx: s.value_start_approx,
        arg_start_env_arg: s.value_start_env_arg,
        is_binary: false,
        ..s
    }
}

/// Classify the completed option, with or without its value. When a value that may have been a
/// parameter is not accepted, the option is tried without it and the value text is classified
/// afresh as a parameter.
pub open spec fn match_option<O, P>(p: ParserView<O, P>, s: ParseStateView, has_value: bool) -> Result<(ParseStateView, Seq<ArgView>), ParseErrorView> {
    match find_option_matcher(p, s, has_value) {
        Some(mi) => Ok((after_option(s), seq![option_arg(s, has_value, mi)])),
        None => if has_value && s.may_be_param {
            match find_option_matcher(p, s, false) {
                Some(mi) => match match_param(p, value_as_param(after_option(s))) {
                    Ok((s2, out)) => Ok((s2, seq![option_arg(s, false, mi)] + out)),
                    Err(e) => Err(e),
                },
                None => Err(option_error(s, ParseErrorTypeId::UnmatchedOption)),
            }
        } else {
            Err(option_error(s, ParseErrorTypeId::UnmatchedOption))
        },
    }
}

// ---------------------------------------------------------------------------------------------
// The state machine

/// Outcome of one step: the next state, the arguments completed, and whether parsing goes on;
/// or the error that ends the parse.
pub enum StepOut {
    Go(ParseStateView, Seq<ArgView>, bool),
    Fail(ParseErrorView),
}

pub open spec fn go(s: ParseStateView) -> StepOut {
    StepOut::Go(s, Seq::empty(), true)
}

/// Turn the result of classifying a token into a step that waits for the next token.
pub open spec fn then_wait(r: Result<(ParseStateView, Seq<ArgView>), ParseErrorView>) -> StepOut {
    match r {
        Ok((s, out)) => StepOut::Go(
            ParseStateView { arg_state: ArgParseState::WaitOptionOrParam, ..s },
            out,
            true,
        ),
        Err(e) => StepOut::Fail(e),
    }
}

pub open spec fn with_value_char(s: ParseStateView, c: char) -> ParseStateView {
    ParseStateView { value: s.value.push(c), ..s }
}

/// Start a parameter (or the binary) with its first character.
pub open spec fn init_param<O, P>(p: ParserView<O, P>, s: ParseStateView, c: char, is_binary: bool) -> ParseStateView {
    let quoted = p.quote_chars.contains(c);
    ParseStateView {
        arg_state: ArgParseState::InParam,
        value: if quoted { Seq::empty() } else { seq![c] },
        arg_start_char: s.char_idx,
        arg_start_approx: s.approx_idx,
        arg_start_env_arg: s.env_arg_idx,
        quoted,
        quote_char: if quoted { c } else { s.quote_char },
        is_binary,
        ..s
    }
}

/// Start an option with its announcer.
pub open spec fn init_option(s: ParseStateView, c: char) -> ParseStateView {
    ParseStateView {
        arg_state: ArgParseState::InOption,
        option_state: OptionParseState::InCode,
        announcer_char: c,
        arg_start_char: s.char_idx,
        arg_start_approx: s.approx_idx,
        arg_start_env_arg: s.env_arg_idx,
        option_code: Seq::empty(),
        value: Seq::empty(),
        ..s
    }
}

/// Start an option value with its first character.
pub open spec fn init_value<O, P>(p: ParserView<O, P>, s: ParseStateView, c: char, may_be_param: bool) -> ParseStateView {
    let quoted = p.quote_chars.contains(c);
    ParseStateView {
        option_state: OptionParseState::InValue,
        value: if quoted { Seq::empty() } else { seq![c] },
        value_start_char: s.char_idx,
        value_start_approx: s.approx_idx,
        value_start_env_arg: s.env_arg_idx,
        quoted,
        quote_char: if quoted { c } else { s.quote_char },
        may_be_param,
        ..s
    }
}

/// Whether `c` may follow the escape character.
pub open spec fn logical_escapable<O, P>(p: ParserView<O, P>, s: ParseStateView, l: EscapeableLogicalChar, c: char) -> bool {
    match l {
        EscapeableLogicalChar::Escape => p.escape_char == Some(c),
        EscapeableLogicalChar::Quote => s.quoted && c == s.quote_char,
        EscapeableLogicalChar::Whitespace => is_white_space(c),
        EscapeableLogicalChar::OptionAnnouncer => p.option_announcer_chars.contains(c),
        EscapeableLogicalChar::OptionValueAnnouncer => p.option_value_announcer_chars.contains(c),
        EscapeableLogicalChar::All => true,
    }
}

pub open spec fn can_char_be_escaped<O, P>(p: ParserView<O, P>, s: ParseStateView, c: char) -> bool {
    (exists|k: int| 0 <= k < p.escapeable_logical_chars.len()
        && logical_escapable(p, s, #[trigger] p.escapeable_logical_chars[k], c))
    || p.escapeable_chars.contains(c)
}

/// How an option code ended.
#[derive(Clone, Copy, Debug, PartialEq, Eq, Structural)]
pub enum ValueAnnounced {
    /// By a value announcer that is not whitespace.
    Definitely,
    /// By whitespace that is a value announcer, or by the end of an environment argument.
    Ambiguous,
    /// By whitespace that is no value announcer, or by a parse terminate character.
    Not,
}

/// Complete the option code and decide whether a value may follow.
pub open spec fn finalise_option_code<O, P>(p: ParserView<O, P>, s: ParseStateView, announced: ValueAnnounced) -> Result<(ParseStateView, Seq<ArgView>), ParseErrorView> {
    match completed_code(s) {
        Err(e) => Err(e),
        Ok(s1) => {
            let s2 = ParseStateView { ambiguous: announced == ValueAnnounced::Ambiguous, ..s1 };
            match announced {
                ValueAnnounced::Definitely => if can_option_code_have_value(p, s2) {
                    Ok((ParseStateView { option_state: OptionParseState::WaitOptionValue, ..s2 }, Seq::empty()))
                } else {
                    Err(option_error(s2, ParseErrorTypeId::NoMatchForOptionWithValue))
                },
                ValueAnnounced::Ambiguous => if can_option_code_have_value(p, s2) {
                    Ok((ParseStateView { option_state: OptionParseState::WaitOptionValue, ..s2 }, Seq::empty()))
                } else {
                    wait_after(match_option(p, ParseStateView { may_be_param: false, ..s2 }, false))
                },
                ValueAnnounced::Not => wait_after(match_option(p, ParseStateView { may_be_param: false, ..s2 }, false)),
            }
        },
    }
}

/// Set the outer state to wait for the next token after a classification.
pub open spec fn wait_after(r: Result<(ParseStateView, Seq<ArgView>), ParseErrorView>) -> Result<(ParseStateView, Seq<ArgView>), ParseErrorView> {
    match r {
        Ok((s, out)) => Ok((ParseStateView { arg_state: ArgParseState::WaitOptionOrParam, ..s }, out)),
        Err(e) => Err(e),
    }
}

pub open spec fn code_step(r: Result<(ParseStateView, Seq<ArgView>), ParseErrorView>, more: bool) -> StepOut {
    match r {
        Ok((s, out)) => StepOut::Go(s, out, more),
        Err(e) => StepOut::Fail(e),
    }
}

/// Step while waiting for the binary argument.
pub open spec fn step_wait_binary<O, P>(p: ParserView<O, P>, s: ParseStateView, c: EnvChar) -> StepOut {
    match c {
        EnvChar::Separator => go(s),
        EnvChar::Unicode(ch) => if p.parse_terminate_chars.contains(ch) {
            StepOut::Go(s, Seq::empty(), false)
        } else if is_white_space(ch) {
            go(s)
        } else {
            go(init_param(p, s, ch, true))
        },
    }
}

/// Step while waiting for an option or a parameter.
pub open spec fn step_idle<O, P>(p: ParserView<O, P>, s: ParseStateView, c: EnvChar) -> StepOut {
    match c {
        EnvChar::Separator => go(s),
        EnvChar::Unicode(ch) => if p.parse_terminate_chars.contains(ch) {
            StepOut::Go(s, Seq::empty(), false)
        } else if is_white_space(ch) {
            go(s)
        } else if p.option_announcer_chars.contains(ch) {
            go(init_option(s, ch))
        } else {
            go(init_param(p, s, ch, false))
        },
    }
}

pub open spec fn step_in_param<O, P>(p: ParserView<O, P>, s: ParseStateView, c: EnvChar) -> StepOut {
    match c {
        EnvChar::Separator => if s.quoted {
            StepOut::Fail(param_error(s, ParseErrorTypeId::ParamMissingClosingQuoteCharacter))
        } else {
            then_wait(match_param(p, s))
        },
        EnvChar::Unicode(ch) => if p.escape_char == Some(ch) {
            go(ParseStateView { arg_state: ArgParseState::InParamEscaped, ..s })
        } else if s.quoted {
            if ch == s.quote_char {
                go(ParseStateView { arg_state: ArgParseState::InParamPossibleEndQuote, ..s })
            } else {
                go(with_value_char(s, ch))
            }
        } else if !is_white_space(ch) {
            go(with_value_char(s, ch))
        } else {
            then_wait(match_param(p, s))
        },
    }
}

pub open spec fn step_param_end_quote<O, P>(p: ParserView<O, P>, s: ParseStateView, c: EnvChar) -> StepOut {
    match c {
        EnvChar::Separator => then_wait(match_param(p, s)),
        EnvChar::Unicode(ch) => if ch == s.quote_char && p.embed_quote_char_with_double {
            go(ParseStateView { arg_state: ArgParseState::InParam, ..with_value_char(s, ch) })
        } else if is_white_space(ch) {
            then_wait(match_param(p, s))
        } else {
            StepOut::Fail(param_error(s, ParseErrorTypeId::QuotedParamNotFollowedByWhitespaceChar))
        },
    }
}

pub open spec fn step_param_escaped<O, P>(p: ParserView<O, P>, s: ParseStateView, c: EnvChar) -> StepOut {
    match c {
        EnvChar::Separator => StepOut::Fail(param_error(s, ParseErrorTypeId::EscapeCharacterAtEndOfParam)),
        EnvChar::Unicode(ch) => if can_char_be_escaped(p, s, ch) {
            go(ParseStateView { arg_state: ArgParseState::InParam, ..with_value_char(s, ch) })
        } else {
            StepOut::Fail(param_error(s, ParseErrorTypeId::EscapedCharacterInParamCannotBeEscaped))
        },
    }
}

pub open spec fn step_in_code<O, P>(p: ParserView<O, P>, s: ParseStateView, c: EnvChar) -> StepOut {
    match c {
        EnvChar::Separator => code_step(finalise_option_code(p, s, ValueAnnounced::Ambiguous), true),
        EnvChar::Unicode(ch) => if p.parse_terminate_chars.contains(ch) {
            code_step(finalise_option_code(p, s, ValueAnnounced::Not), false)
        } else if p.option_value_announcer_chars.contains(ch) {
            let announced = if is_white_space(ch) {
                ValueAnnounced::Ambiguous
            } else {
                ValueAnnounced::Definitely
            };
            code_step(finalise_option_code(p, s, announced), true)
        } else if is_white_space(ch) {
            code_step(finalise_option_code(p, s, ValueAnnounced::Not), true)
        } else if p.quote_chars.contains(ch) {
            StepOut::Fail(option_error(s, ParseErrorTypeId::OptionCodeCannotContainQuoteChar))
        } else if p.escape_char == Some(ch) {
            StepOut::Fail(option_error(s, ParseErrorTypeId::OptionCodeCannotContainEscapeChar))
        } else {
            go(ParseStateView { option_code: s.option_code.push(ch), ..s })
        },
    }
}

pub open spec fn step_wait_value<O, P>(p: ParserView<O, P>, s: ParseStateView, c: EnvChar) -> StepOut {
    match c.non_whitespace() {
        None => go(s),
        Some(ch) => {
            let first_is_announcer = p.option_announcer_chars.contains(ch);
            match value_verdict(p, s, first_is_announcer) {
                ValueVerdict::Refused => StepOut::Fail(
                    option_error(s, ParseErrorTypeId::OptionValueCannotStartWithOptionAnnouncer),
                ),
                ValueVerdict::Must => go(init_value(p, s, ch, false)),
                ValueVerdict::Possibly => go(init_value(p, s, ch, true)),
                ValueVerdict::MustNot => match match_option(p, ParseStateView { may_be_param: false, ..s }, false) {
                    Err(e) => StepOut::Fail(e),
                    Ok((s1, out)) => match step_idle(p, ParseStateView { arg_state: ArgParseState::WaitOptionOrParam, ..s1 }, c) {
                        StepOut::Go(s2, out2, more) => StepOut::Go(s2, out + out2, more),
                        StepOut::Fail(e) => StepOut::Fail(e),
                    },
                },
            }
        },
    }
}

pub open spec fn step_in_value<O, P>(p: ParserView<O, P>, s: ParseStateView, c: EnvChar) -> StepOut {
    match c {
        EnvChar::Separator => if s.quoted {
            StepOut::Fail(option_error(s, ParseErrorTypeId::OptionValueMissingClosingQuoteCharacter))
        } else {
            then_wait(match_option(p, s, true))
        },
        EnvChar::Unicode(ch) => if p.escape_char == Some(ch) {
            go(ParseStateView { option_state: OptionParseState::InValueEscaped, ..s })
        } else if s.quoted {
            if ch == s.quote_char {
                go(ParseStateView { option_state: OptionParseState::InValuePossibleEndQuote, ..s })
            } else {
                go(with_value_char(s, ch))
            }
        } else if !is_white_space(ch) {
            go(with_value_char(s, ch))
        } else {
            then_wait(match_option(p, s, true))
        },
    }
}

pub open spec fn step_value_end_quote<O, P>(p: ParserView<O, P>, s: ParseStateView, c: EnvChar) -> StepOut {
    match c {
        EnvChar::Separator => then_wait(match_option(p, s, true)),
        EnvChar::Unicode(ch) => if ch == s.quote_char && p.embed_quote_char_with_double {
            go(ParseStateView { option_state: OptionParseState::InValue, ..with_value_char(s, ch) })
        } else if is_white_space(ch) {
            then_wait(match_option(p, s, true))
        } else {
            StepOut::Fail(option_error(s, ParseErrorTypeId::QuotedOptionValueNotFollowedByWhitespaceChar))
        },
    }
}

pub open spec fn step_value_escaped<O, P>(p: ParserView<O, P>, s: ParseStateView, c: EnvChar) -> StepOut {
    match c {
        EnvChar::Separator => StepOut::Fail(option_error(s, ParseErrorTypeId::EscapeCharacterAtEndOfOptionValue)),
        EnvChar::Unicode(ch) => if can_char_be_escaped(p, s, ch) {
            go(ParseStateView { option_state: OptionParseState::InValue, ..with_value_char(s, ch) })
        } else {
            StepOut::Fail(option_error(s, ParseErrorTypeId::EscapedCharacterInOptionValueCannotBeEscaped))
        },
    }
}

/// One step of the state machine: consume one character (or separator) in state `s`.
pub open spec fn step<O, P>(p: ParserView<O, P>, s: ParseStateView, c: EnvChar) -> StepOut {
    match s.arg_state {
        ArgParseState::WaitBinary => step_wait_binary(p, s, c),
        ArgParseState::WaitOptionOrParam => step_idle(p, s, c),
        ArgParseState::InParam => step_in_param(p, s, c),
        ArgParseState::InParamPossibleEndQuote => step_param_end_quote(p, s, c),
        ArgParseState::InParamEscaped => step_param_escaped(p, s, c),
        ArgParseState::InOption => match s.option_state {
            OptionParseState::InCode => step_in_code(p, s, c),
            OptionParseState::WaitOptionValue => step_wait_value(p, s, c),
            OptionParseState::InValue => step_in_value(p, s, c),
            OptionParseState::InValuePossibleEndQuote => step_value_end_quote(p, s, c),
            OptionParseState::InValueEscaped => step_value_escaped(p, s, c),
        },
    }
}

pub open spec fn just_out(r: Result<(ParseStateView, Seq<ArgView>), ParseErrorView>) -> Result<Seq<ArgView>, ParseErrorView> {
    match r {
        Ok((_, out)) => Ok(out),
        Err(e) => Err(e),
    }
}

/// Complete the argument in flight when the input ends.
pub open spec fn finish<O, P>(p: ParserView<O, P>, s: ParseStateView) -> Result<Seq<ArgView>, ParseErrorView> {
    match s.arg_state {
        ArgParseState::WaitBinary | ArgParseState::WaitOptionOrParam => Ok(Seq::empty()),
        ArgParseState::InParam => if s.quoted {
            Err(param_error(s, ParseErrorTypeId::ParamMissingClosingQuoteCharacter))
        } else {
            just_out(match_param(p, s))
        },
        ArgParseState::InParamPossibleEndQuote => just_out(match_param(p, s)),
        ArgParseState::InParamEscaped => Err(param_error(s, ParseErrorTypeId::EscapeCharacterAtEndOfParam)),
        ArgParseState::InOption => match s.option_state {
            OptionParseState::InCode => match completed_code(s) {
                Err(e) => Err(e),
                Ok(s1) => just_out(match_option(p, ParseStateView { may_be_param: false, ..s1 }, false)),
            },
            OptionParseState::WaitOptionValue => match value_verdict(p, s, false) {
                ValueVerdict::Must => Err(option_error(s, ParseErrorTypeId::OptionMissingValue)),
                ValueVerdict::Refused => Err(option_error(s, ParseErrorTypeId::OptionValueCannotStartWithOptionAnnouncer)),
                _ => just_out(match_option(p, ParseStateView { may_be_param: false, ..s }, false)),
            },
            OptionParseState::InValue => if s.quoted {
                Err(option_error(s, ParseErrorTypeId::OptionValueMissingClosingQuoteCharacter))
            } else {
                just_out(match_option(p, s, true))
            },
            OptionParseState::InValuePossibleEndQuote => just_out(match_option(p, s, true)),
            OptionParseState::InValueEscaped => Err(option_error(s, ParseErrorTypeId::EscapeCharacterAtEndOfOptionValue)),
        },
    }
}

/// Number of arguments in flight in state `s`: started, not yet classified.
pub open spec fn pending(s: ParseStateView) -> nat {
    match s.arg_state {
        ArgParseState::WaitBinary | ArgParseState::WaitOptionOrParam => 0,
        ArgParseState::InOption => match s.option_state {
            OptionParseState::InCode | OptionParseState::WaitOptionValue => 1,
            _ => 2,
        },
        _ => 1,
    }
}

/// The arguments classified and in flight number at most `limit`.
pub open spec fn counts_within(s: ParseStateView, limit: nat) -> bool {
    &&& s.arg_count + pending(s) <= limit
    &&& s.option_count <= s.arg_count
    &&& s.param_count <= s.arg_count
}

/// `n` more arguments can be counted.
pub open spec fn room(s: ParseStateView, n: nat) -> bool {
    &&& s.arg_count + n <= usize::MAX
    &&& s.option_count <= s.arg_count
    &&& s.param_count <= s.arg_count
}

// ---------------------------------------------------------------------------------------------
// Whole parses

/// Outcome of running the state machine over some input.
pub enum RunOut {
    /// All the input was consumed.
    Running(ParseStateView, Seq<ArgView>),
    /// A parse terminate character ended the parse.
    Stopped(ParseStateView, Seq<ArgView>),
    Failed(ParseErrorView),
}

/// The state after a character was consumed and parsing goes on.
pub open spec fn advance(s: ParseStateView) -> ParseStateView {
    ParseStateView { char_idx: s.char_idx + 1, approx_idx: s.approx_idx + 1, ..s }
}

/// Run the state machine over `chars[i..]` from state `s`, with `out` completed so far.
pub open spec fn run_chars<O, P>(p: ParserView<O, P>, s: ParseStateView, out: Seq<ArgView>, chars: Seq<char>, i: nat) -> RunOut
    decreases chars.len() - i,
{
    if i >= chars.len() {
        RunOut::Running(s, out)
    } else {
        match step(p, s, EnvChar::Unicode(chars[i as int])) {
            StepOut::Fail(e) => RunOut::Failed(e),
            StepOut::Go(s2, o2, more) => if more {
                run_chars(p, advance(s2), out + o2, chars, i + 1)
            } else {
                RunOut::Stopped(s2, out + o2)
            },
        }
    }
}

/// Run the state machine over the environment arguments `args[k..]`: a separator between two
/// arguments, then the characters of each.
pub open spec fn run_args<O, P>(p: ParserView<O, P>, s: ParseStateView, out: Seq<ArgView>, args: Seq<Seq<char>>, k: nat) -> RunOut
    decreases args.len() - k,
{
    if k >= args.len() {
        RunOut::Running(s, out)
    } else {
        let pre = if k == 0 {
            StepOut::Go(s, out, true)
        } else {
            match step(p, s, EnvChar::Separator) {
                StepOut::Go(s2, o2, more) => StepOut::Go(
                    if more { ParseStateView { approx_idx: s2.approx_idx + 1, ..s2 } } else { s2 },
                    out + o2,
                    more,
                ),
                StepOut::Fail(e) => StepOut::Fail(e),
            }
        };
        match pre {
            StepOut::Fail(e) => RunOut::Failed(e),
            StepOut::Go(s1, out1, more) => if !more {
                RunOut::Stopped(s1, out1)
            } else {
                match run_chars(p, ParseStateView { env_arg_idx: k, char_idx: 0, ..s1 }, out1, args[k as int], 0) {
                    RunOut::Running(s2, out2) => run_args(p, s2, out2, args, k + 1),
                    other => other,
                }
            },
        }
    }
}

/// Complete a run: classify what is still in flight.
pub open spec fn complete_run<O, P>(p: ParserView<O, P>, r: RunOut) -> Result<Seq<ArgView>, ParseErrorView> {
    match r {
        RunOut::Failed(e) => Err(e),
        RunOut::Running(s, out) | RunOut::Stopped(s, out) => match finish(p, s) {
            Ok(o) => Ok(out + o),
            Err(e) => Err(e),
        },
    }
}

pub open spec fn start_state<O, P>(p: ParserView<O, P>) -> ParseStateView {
    initial_state(p.first_arg_is_binary, p.multi_char_option_code_requires_double_announcer)
}

/// The result of parsing a whole line.
pub open spec fn parse_line_result<O, P>(p: ParserView<O, P>, line: Seq<char>) -> Result<Seq<ArgView>, ParseErrorView> {
    complete_run(p, run_chars(p, start_state(p), Seq::empty(), line, 0))
}

/// The result of parsing environment arguments.
pub open spec fn parse_env_args_result<O, P>(p: ParserView<O, P>, args: Seq<Seq<char>>) -> Result<Seq<ArgView>, ParseErrorView> {
    complete_run(p, run_args(p, start_state(p), Seq::empty(), args, 0))
}

} // verus!
