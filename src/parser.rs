use vstd::prelude::*;
use crate::arg::{
    Arg, Args, ArgView, BinaryProperties, OptionProperties, ParamProperties, args_view,
};
use crate::env_char::{EnvChar, char_is_whitespace};
use crate::matcher::{
    fresh_matcher, DefaultTagType, MatchArgTypeId, Matcher, MatcherView, OptionHasValue,
    codes_view, opt_codes, opt_rot, opt_seq,
};
use crate::model::{
    EscapeableLogicalChar, ParserView, ValueAnnounced, ValueVerdict, StepOut, RunOut, index_ok,
    arg_type_ok, code_ok, text_ok, option_excl_value_ok, option_ok, param_ok,
    first_option_match, first_param_match, find_option_matcher, find_param_matcher,
    some_code_with_value, can_option_code_have_value, matcher_verdict, combined_verdict,
    value_verdict, option_arg, after_option, param_arg, after_param, binary_arg, after_binary,
    match_param, value_as_param, match_option, then_wait, init_param, init_option, init_value,
    logical_escapable, can_char_be_escaped, finalise_option_code, step_wait_binary, step_idle,
    step_in_param, step_param_end_quote, step_param_escaped, step_in_code, step_wait_value,
    step_in_value, step_value_end_quote, step_value_escaped, step, finish, run_chars, run_args,
    start_state, parse_line_result, parse_env_args_result, counts_within, room,
};
use crate::parse_error::{ParseError, ParseErrorView};
use crate::parse_error_type_id::ParseErrorTypeId;
use crate::parse_state::{
    ArgParseState, OptionParseState, ParseState, ParseStateView, completed_code, push_char,
};
use crate::regex_or_text::RegexOrText;

verus! {

/// Default for [`Parser::option_codes_case_sensitive`].
pub const DEFAULT_LINE_OPTION_CODES_CASE_SENSITIVE: bool = false;
/// Default for [`Parser::option_code_can_be_empty`].
pub const DEFAULT_LINE_OPTION_CODE_CAN_BE_EMPTY: bool = false;
/// Default for [`Parser::multi_char_option_code_requires_double_announcer`].
pub const DEFAULT_LINE_MULTI_CHAR_OPTION_CODE_REQUIRES_DOUBLE_ANNOUNCER: bool = false;
/// Default for [`Parser::option_values_case_sensitive`].
pub const DEFAULT_LINE_OPTION_VALUES_CASE_SENSITIVE: bool = false;
/// Default for [`Parser::params_case_sensitive`].
pub const DEFAULT_LINE_PARAMS_CASE_SENSITIVE: bool = false;
/// Default for [`Parser::embed_quote_char_with_double`].
pub const DEFAULT_LINE_EMBED_QUOTE_CHAR_WITH_DOUBLE: bool = true;
/// Default for [`Parser::escape_char`].
pub const DEFAULT_LINE_ESCAPE_CHAR: Option<char> = None;
/// Default for [`Parser::first_arg_is_binary`].
pub const DEFAULT_LINE_FIRST_ARG_IS_BINARY: bool = true;

/// Default for [`Parser::option_codes_case_sensitive`] when parsing environment arguments.
pub const DEFAULT_ENV_ARGS_OPTION_CODES_CASE_SENSITIVE: bool = false;
/// Default for [`Parser::option_code_can_be_empty`] when parsing environment arguments.
pub const DEFAULT_ENV_ARGS_OPTION_CODE_CAN_BE_EMPTY: bool = false;
/// Default for [`Parser::multi_char_option_code_requires_double_announcer`] when parsing
/// environment arguments.
pub const DEFAULT_ENV_ARGS_MULTI_CHAR_OPTION_CODE_REQUIRES_DOUBLE_ANNOUNCER: bool = false;
/// Default for [`Parser::option_values_case_sensitive`] when parsing environment arguments.
pub const DEFAULT_ENV_ARGS_OPTION_VALUES_CASE_SENSITIVE: bool = false;
/// Default for [`Parser::params_case_sensitive`] when parsing environment arguments.
pub const DEFAULT_ENV_ARGS_PARAMS_CASE_SENSITIVE: bool = false;
/// Default for [`Parser::embed_quote_char_with_double`] when parsing environment arguments.
pub const DEFAULT_ENV_ARGS_EMBED_QUOTE_CHAR_WITH_DOUBLE: bool = false;
/// Default for [`Parser::escape_char`] when parsing environment arguments.
pub const DEFAULT_ENV_ARGS_ESCAPE_CHAR: Option<char> = None;
/// Default for [`Parser::first_arg_is_binary`] when parsing environment arguments.
pub const DEFAULT_ENV_ARGS_FIRST_ARG_IS_BINARY: bool = true;

/// The configuration for parsing a line: `"` quotes, `-` announces an option, a space
/// announces its value, quotes are embedded by doubling, the first argument names the binary.
pub open spec fn line_defaults<O, P>(matchers: Seq<MatcherView<O, P>>) -> ParserView<O, P> {
    ParserView {
        quote_chars: seq!['"'],
        option_announcer_chars: seq!['-'],
        option_codes_case_sensitive: false,
        option_code_can_be_empty: false,
        multi_char_option_code_requires_double_announcer: false,
        option_value_announcer_chars: seq![' '],
        option_values_case_sensitive: false,
        params_case_sensitive: false,
        embed_quote_char_with_double: true,
        escape_char: None,
        escapeable_logical_chars: seq![EscapeableLogicalChar::Escape, EscapeableLogicalChar::Quote],
        escapeable_chars: Seq::empty(),
        first_arg_is_binary: true,
        parse_terminate_chars: Seq::empty(),
        matchers,
    }
}

/// The configuration for parsing environment arguments: as for a line, but with no quote
/// characters and no embedding of quotes.
pub open spec fn env_args_defaults<O, P>(matchers: Seq<MatcherView<O, P>>) -> ParserView<O, P> {
    ParserView {
        quote_chars: Seq::empty(),
        embed_quote_char_with_double: false,
        ..line_defaults(matchers)
    }
}

pub open spec fn matchers_view<O: Default, P: Default>(ms: Seq<Matcher<O, P>>) -> Seq<MatcherView<O, P>> {
    ms.map_values(|m: Matcher<O, P>| m@)
}

/// Parses a command line, or environment arguments, into options and parameters, as its
/// configuration and matchers say.
pub struct Parser<O: Default = DefaultTagType, P: Default = DefaultTagType> {
    quote_chars: Vec<char>,
    option_announcer_chars: Vec<char>,
    option_codes_case_sensitive: bool,
    option_code_can_be_empty: bool,
    multi_char_option_code_requires_double_announcer: bool,
    option_value_announcer_chars: Vec<char>,
    option_values_case_sensitive: bool,
    params_case_sensitive: bool,
    embed_quote_char_with_double: bool,
    escape_char: Option<char>,
    escapeable_logical_chars: Vec<EscapeableLogicalChar>,
    escapeable_chars: Vec<char>,
    first_arg_is_binary: bool,
    parse_terminate_chars: Vec<char>,
    matchers: Vec<Matcher<O, P>>,
}

impl<O: Default, P: Default> View for Parser<O, P> {
    type V = ParserView<O, P>;

    closed spec fn view(&self) -> ParserView<O, P> {
        ParserView {
            quote_chars: self.quote_chars@,
            option_announcer_chars: self.option_announcer_chars@,
            option_codes_case_sensitive: self.option_codes_case_sensitive,
            option_code_can_be_empty: self.option_code_can_be_empty,
            multi_char_option_code_requires_double_announcer: self.multi_char_option_code_requires_double_announcer,
            option_value_announcer_chars: self.option_value_announcer_chars@,
            option_values_case_sensitive: self.option_values_case_sensitive,
            params_case_sensitive: self.params_case_sensitive,
            embed_quote_char_with_double: self.embed_quote_char_with_double,
            escape_char: self.escape_char,
            escapeable_logical_chars: self.escapeable_logical_chars@,
            escapeable_chars: self.escapeable_chars@,
            first_arg_is_binary: self.first_arg_is_binary,
            parse_terminate_chars: self.parse_terminate_chars@,
            matchers: matchers_view(self.matchers@),
        }
    }
}

/// Whether `c` is in `v`.
fn char_in(v: &Vec<char>, c: char) -> (r: bool)
    ensures
        r == v@.contains(c),
{
    let mut i: usize = 0;
    while i < v.len()
        invariant
            i <= v.len(),
            forall|k: int| 0 <= k < i ==> v@[k] != c,
        decreases v.len() - i,
    {
        if v[i] == c {
            assert(v@[i as int] == c);
            return true;
        }
        i = i + 1;
    }
    false
}

impl<O: Default, P: Default> Parser<O, P> {
    /// A parser with the line defaults and no matchers.
    pub fn new() -> (r: Self)
        ensures
            r@ == line_defaults::<O, P>(Seq::empty()),
    {
        let r = Parser {
            quote_chars: vec!['"'],
            option_announcer_chars: vec!['-'],
            option_codes_case_sensitive: DEFAULT_LINE_OPTION_CODES_CASE_SENSITIVE,
            option_code_can_be_empty: DEFAULT_LINE_OPTION_CODE_CAN_BE_EMPTY,
            multi_char_option_code_requires_double_announcer: DEFAULT_LINE_MULTI_CHAR_OPTION_CODE_REQUIRES_DOUBLE_ANNOUNCER,
            option_value_announcer_chars: vec![' '],
            option_values_case_sensitive: DEFAULT_LINE_OPTION_VALUES_CASE_SENSITIVE,
            params_case_sensitive: DEFAULT_LINE_PARAMS_CASE_SENSITIVE,
            embed_quote_char_with_double: DEFAULT_LINE_EMBED_QUOTE_CHAR_WITH_DOUBLE,
            escape_char: DEFAULT_LINE_ESCAPE_CHAR,
            escapeable_logical_chars: vec![EscapeableLogicalChar::Escape, EscapeableLogicalChar::Quote],
            escapeable_chars: Vec::new(),
            first_arg_is_binary: DEFAULT_LINE_FIRST_ARG_IS_BINARY,
            parse_terminate_chars: Vec::new(),
            matchers: Vec::new(),
        };
        proof {
            assert(r@.quote_chars =~= seq!['"']);
            assert(r@.option_announcer_chars =~= seq!['-']);
            assert(r@.option_value_announcer_chars =~= seq![' ']);
            assert(r@.escapeable_logical_chars =~= seq![EscapeableLogicalChar::Escape, EscapeableLogicalChar::Quote]);
            assert(r@.matchers =~= Seq::<MatcherView<O, P>>::empty());
        }
        r
    }

    /// A parser with the line defaults and no matchers.
    pub fn with_line_defaults() -> (r: Self)
        ensures
            r@ == line_defaults::<O, P>(Seq::empty()),
    {
        Self::new()
    }

    /// A parser with the environment argument defaults and no matchers.
    pub fn with_env_args_defaults() -> (r: Self)
        ensures
            r@ == env_args_defaults::<O, P>(Seq::empty()),
    {
        let mut parser = Self::new();
        parser.set_env_args_defaults();
        parser
    }

    /// Set the configuration to the line defaults; the matchers stay.
    pub fn set_line_defaults(&mut self)
        ensures
            final(self)@ == line_defaults(old(self)@.matchers),
    {
        self.quote_chars = vec!['"'];
        self.option_announcer_chars = vec!['-'];
        self.option_codes_case_sensitive = DEFAULT_LINE_OPTION_CODES_CASE_SENSITIVE;
        self.option_code_can_be_empty = DEFAULT_LINE_OPTION_CODE_CAN_BE_EMPTY;
        self.multi_char_option_code_requires_double_announcer = DEFAULT_LINE_MULTI_CHAR_OPTION_CODE_REQUIRES_DOUBLE_ANNOUNCER;
        self.option_value_announcer_chars = vec![' '];
        self.option_values_case_sensitive = DEFAULT_LINE_OPTION_VALUES_CASE_SENSITIVE;
        self.params_case_sensitive = DEFAULT_LINE_PARAMS_CASE_SENSITIVE;
        self.embed_quote_char_with_double = DEFAULT_LINE_EMBED_QUOTE_CHAR_WITH_DOUBLE;
        self.escape_char = DEFAULT_LINE_ESCAPE_CHAR;
        self.escapeable_logical_chars = vec![EscapeableLogicalChar::Escape, EscapeableLogicalChar::Quote];
        self.escapeable_chars = Vec::new();
        self.first_arg_is_binary = DEFAULT_LINE_FIRST_ARG_IS_BINARY;
        self.parse_terminate_chars = Vec::new();
        proof {
            assert(self@.quote_chars =~= seq!['"']);
            assert(self@.option_announcer_chars =~= seq!['-']);
            assert(self@.option_value_announcer_chars =~= seq![' ']);
            assert(self@.escapeable_logical_chars =~= seq![EscapeableLogicalChar::Escape, EscapeableLogicalChar::Quote]);
            assert(self@.escapeable_chars =~= Seq::<char>::empty());
            assert(self@.parse_terminate_chars =~= Seq::<char>::empty());
        }
    }

    /// Set the configuration to the environment argument defaults; the matchers stay.
    pub fn set_env_args_defaults(&mut self)
        ensures
            final(self)@ == env_args_defaults(old(self)@.matchers),
    {
        self.set_line_defaults();
        self.quote_chars = Vec::new();
        self.option_codes_case_sensitive = DEFAULT_ENV_ARGS_OPTION_CODES_CASE_SENSITIVE;
        self.option_code_can_be_empty = DEFAULT_ENV_ARGS_OPTION_CODE_CAN_BE_EMPTY;
        self.multi_char_option_code_requires_double_announcer = DEFAULT_ENV_ARGS_MULTI_CHAR_OPTION_CODE_REQUIRES_DOUBLE_ANNOUNCER;
        self.option_values_case_sensitive = DEFAULT_ENV_ARGS_OPTION_VALUES_CASE_SENSITIVE;
        self.params_case_sensitive = DEFAULT_ENV_ARGS_PARAMS_CASE_SENSITIVE;
        self.embed_quote_char_with_double = DEFAULT_ENV_ARGS_EMBED_QUOTE_CHAR_WITH_DOUBLE;
        self.escape_char = DEFAULT_ENV_ARGS_ESCAPE_CHAR;
        self.first_arg_is_binary = DEFAULT_ENV_ARGS_FIRST_ARG_IS_BINARY;
        proof {
            assert(self@.quote_chars =~= Seq::<char>::empty());
        }
    }

    /// Characters that open and close quoted text.
    pub fn quote_chars(&self) -> (r: &[char])
        ensures
            r@ == self@.quote_chars,
    {
        self.quote_chars.as_slice()
    }

    pub fn set_quote_chars(&mut self, value: &[char]) -> (r: &mut Self)
        ensures
            r@ == (ParserView { quote_chars: value@, ..old(self)@ }),
            *final(self) == *final(r),
    {
        self.quote_chars = vstd::slice::slice_to_vec(value);
        self
    }

    /// Characters that start an option.
    pub fn option_announcer_chars(&self) -> (r: &[char])
        ensures
            r@ == self@.option_announcer_chars,
    {
        self.option_announcer_chars.as_slice()
    }

    pub fn set_option_announcer_chars(&mut self, value: &[char]) -> (r: &mut Self)
        ensures
            r@ == (ParserView { option_announcer_chars: value@, ..old(self)@ }),
            *final(self) == *final(r),
    {
        self.option_announcer_chars = vstd::slice::slice_to_vec(value);
        self
    }

    /// Whether option codes are matched case-sensitively.
    pub fn option_codes_case_sensitive(&self) -> (r: bool)
        ensures
            r == self@.option_codes_case_sensitive,
    {
        self.option_codes_case_sensitive
    }

    pub fn set_option_codes_case_sensitive(&mut self, value: bool) -> (r: &mut Self)
        ensures
            r@ == (ParserView { option_codes_case_sensitive: value, ..old(self)@ }),
            *final(self) == *final(r),
    {
        self.option_codes_case_sensitive = value;
        self
    }

    /// Whether an option code may be empty. Recorded only: an empty code is accepted either way,
    /// and a matcher's code filter decides.
    pub fn option_code_can_be_empty(&self) -> (r: bool)
        ensures
            r == self@.option_code_can_be_empty,
    {
        self.option_code_can_be_empty
    }

    pub fn set_option_code_can_be_empty(&mut self, value: bool) -> (r: &mut Self)
        ensures
            r@ == (ParserView { option_code_can_be_empty: value, ..old(self)@ }),
            *final(self) == *final(r),
    {
        self.option_code_can_be_empty = value;
        self
    }

    /// Whether a code longer than one character must be introduced by two announcers.
    pub fn multi_char_option_code_requires_double_announcer(&self) -> (r: bool)
        ensures
            r == self@.multi_char_option_code_requires_double_announcer,
    {
        self.multi_char_option_code_requires_double_announcer
    }

    pub fn set_multi_char_option_code_requires_double_announcer(&mut self, value: bool) -> (r: &mut Self)
        ensures
            r@ == (ParserView { multi_char_option_code_requires_double_announcer: value, ..old(self)@ }),
            *final(self) == *final(r),
    {
        self.multi_char_option_code_requires_double_announcer = value;
        self
    }

    /// Characters that end an option code and announce its value.
    pub fn option_value_announcer_chars(&self) -> (r: &[char])
        ensures
            r@ == self@.option_value_announcer_chars,
    {
        self.option_value_announcer_chars.as_slice()
    }

    pub fn set_option_value_announcer_chars(&mut self, value: &[char]) -> (r: &mut Self)
        ensures
            r@ == (ParserView { option_value_announcer_chars: value@, ..old(self)@ }),
            *final(self) == *final(r),
    {
        self.option_value_announcer_chars = vstd::slice::slice_to_vec(value);
        self
    }

    /// Whether option values are matched case-sensitively.
    pub fn option_values_case_sensitive(&self) -> (r: bool)
        ensures
            r == self@.option_values_case_sensitive,
    {
        self.option_values_case_sensitive
    }

    pub fn set_option_values_case_sensitive(&mut self, value: bool) -> (r: &mut Self)
        ensures
            r@ == (ParserView { option_values_case_sensitive: value, ..old(self)@ }),
            *final(self) == *final(r),
    {
        self.option_values_case_sensitive = value;
        self
    }

    /// Whether parameters are matched case-sensitively.
    pub fn params_case_sensitive(&self) -> (r: bool)
        ensures
            r == self@.params_case_sensitive,
    {
        self.params_case_sensitive
    }

    pub fn set_params_case_sensitive(&mut self, value: bool) -> (r: &mut Self)
        ensures
            r@ == (ParserView { params_case_sensitive: value, ..old(self)@ }),
            *final(self) == *final(r),
    {
        self.params_case_sensitive = value;
        self
    }

    /// Whether a doubled quote character in quoted text stands for one quote character.
    pub fn embed_quote_char_with_double(&self) -> (r: bool)
        ensures
            r == self@.embed_quote_char_with_double,
    {
        self.embed_quote_char_with_double
    }

    pub fn set_embed_quote_char_with_double(&mut self, value: bool) -> (r: &mut Self)
        ensures
            r@ == (ParserView { embed_quote_char_with_double: value, ..old(self)@ }),
            *final(self) == *final(r),
    {
        self.embed_quote_char_with_double = value;
        self
    }

    /// The escape character, if any.
    pub fn escape_char(&self) -> (r: &Option<char>)
        ensures
            *r == self@.escape_char,
    {
        &self.escape_char
    }

    pub fn set_escape_char(&mut self, value: Option<char>) -> (r: &mut Self)
        ensures
            r@ == (ParserView { escape_char: value, ..old(self)@ }),
            *final(self) == *final(r),
    {
        self.escape_char = value;
        self
    }

    pub fn some_escape_char(&mut self, value: char) -> (r: &mut Self)
        ensures
            r@ == (ParserView { escape_char: Some(value), ..old(self)@ }),
            *final(self) == *final(r),
    {
        self.escape_char = Some(value);
        self
    }

    pub fn none_escape_char(&mut self) -> (r: &mut Self)
        ensures
            r@ == (ParserView { escape_char: None, ..old(self)@ }),
            *final(self) == *final(r),
    {
        self.escape_char = None;
        self
    }

    /// The logical characters that may follow the escape character.
    pub fn escapeable_logical_chars(&self) -> (r: &[EscapeableLogicalChar])
        ensures
            r@ == self@.escapeable_logical_chars,
    {
        self.escapeable_logical_chars.as_slice()
    }

    pub fn set_escapeable_logical_chars(&mut self, value: &[EscapeableLogicalChar]) -> (r: &mut Self)
        ensures
            r@ == (ParserView { escapeable_logical_chars: value@, ..old(self)@ }),
            *final(self) == *final(r),
    {
        self.escapeable_logical_chars = vstd::slice::slice_to_vec(value);
        self
    }

    /// Further characters that may follow the escape character.
    pub fn escapeable_chars(&self) -> (r: &[char])
        ensures
            r@ == self@.escapeable_chars,
    {
        self.escapeable_chars.as_slice()
    }

    pub fn set_escapeable_chars(&mut self, value: &[char]) -> (r: &mut Self)
        ensures
            r@ == (ParserView { escapeable_chars: value@, ..old(self)@ }),
            *final(self) == *final(r),
    {
        self.escapeable_chars = vstd::slice::slice_to_vec(value);
        self
    }

    /// Whether the first argument names the binary.
    pub fn first_arg_is_binary(&self) -> (r: bool)
        ensures
            r == self@.first_arg_is_binary,
    {
        self.first_arg_is_binary
    }

    pub fn set_first_arg_is_binary(&mut self, value: bool) -> (r: &mut Self)
        ensures
            r@ == (ParserView { first_arg_is_binary: value, ..old(self)@ }),
            *final(self) == *final(r),
    {
        self.first_arg_is_binary = value;
        self
    }

    /// Characters that end parsing: the rest of the input is ignored.
    pub fn parse_terminate_chars(&self) -> (r: &[char])
        ensures
            r@ == self@.parse_terminate_chars,
    {
        self.parse_terminate_chars.as_slice()
    }

    pub fn set_parse_terminate_chars(&mut self, value: &[char]) -> (r: &mut Self)
        ensures
            r@ == (ParserView { parse_terminate_chars: value@, ..old(self)@ }),
            *final(self) == *final(r),
    {
        self.parse_terminate_chars = vstd::slice::slice_to_vec(value);
        self
    }
}

/// Whether two strings hold the same characters.
fn str_eq(a: &str, b: &str) -> (r: bool)
    ensures
        r == (a@ == b@),
{
    a.to_string() == b.to_string()
}

fn try_match_index(index: usize, filter: &Option<Vec<usize>>) -> (r: bool)
    ensures
        r == index_ok(index as nat, opt_seq(*filter)),
{
    match filter {
        None => true,
        Some(v) => {
            let mut i: usize = 0;
            while i < v.len()
                invariant
                    i <= v.len(),
                    opt_seq(*filter) == Some(v@),
                    forall|k: int| 0 <= k < i ==> v@[k] as nat != index as nat,
                decreases v.len() - i,
            {
                if v[i] == index {
                    assert(v@[i as int] as nat == index as nat);
                    return true;
                }
                i = i + 1;
            }
            false
        },
    }
}

fn try_match_arg_type(value: MatchArgTypeId, filter: &Option<MatchArgTypeId>) -> (r: bool)
    ensures
        r == arg_type_ok(value, *filter),
{
    match filter {
        Some(f) => *f == value,
        None => true,
    }
}

fn try_match_option_code(code: &str, filter: &Option<Vec<RegexOrText>>, case_sensitive: bool) -> (r: bool)
    ensures
        r == code_ok(code@, opt_codes(*filter), case_sensitive),
{
    match filter {
        None => true,
        Some(v) => {
            let ghost codes = codes_view(v@);
            let mut i: usize = 0;
            while i < v.len()
                invariant
                    i <= v.len(),
                    codes == codes_view(v@),
                    opt_codes(*filter) == Some(codes),
                    forall|k: int| 0 <= k < i ==> !crate::regex_or_text::rot_matches(codes[k], code@, case_sensitive),
                decreases v.len() - i,
            {
                if v[i].is_match(code, case_sensitive) {
                    assert(codes[i as int] == v@[i as int]@);
                    assert(crate::regex_or_text::rot_matches(codes[i as int], code@, case_sensitive));
                    return true;
                }
                i = i + 1;
            }
            false
        },
    }
}

fn try_match_value_text(value: &str, filter: &Option<RegexOrText>, case_sensitive: bool) -> (r: bool)
    ensures
        r == text_ok(value@, opt_rot(*filter), case_sensitive),
{
    match filter {
        Some(f) => f.is_match(value, case_sensitive),
        None => true,
    }
}

/// `ms` without its entry at `i`; each later entry moves up one place and records its new
/// position.
pub open spec fn removed_at<O, P>(ms: Seq<MatcherView<O, P>>, i: int) -> Seq<MatcherView<O, P>> {
    Seq::new((ms.len() - 1) as nat, |j: int| if j < i { ms[j] } else { MatcherView { index: j as nat, ..ms[j + 1] } })
}

proof fn lemma_matchers_view_push<O: Default, P: Default>(s: Seq<Matcher<O, P>>)
    ensures
        forall|x: Matcher<O, P>, y: Matcher<O, P>| #[trigger] matchers_view(s.push(x).update(s.len() as int, y))
            == matchers_view(s).push(y@),
{
    assert forall|x: Matcher<O, P>, y: Matcher<O, P>| #[trigger] matchers_view(s.push(x).update(s.len() as int, y))
        == matchers_view(s).push(y@) by {
        assert(matchers_view(s.push(x).update(s.len() as int, y)) =~= matchers_view(s).push(y@));
    }
}

impl<O: Default, P: Default> Parser<O, P> {
    /// The matchers, in the order in which they are tried.
    pub fn matchers(&self) -> (r: &Vec<Matcher<O, P>>)
        ensures
            matchers_view(r@) == self@.matchers,
    {
        &self.matchers
    }

    /// Append `matcher` to the matchers, recording its position in it, and return it for
    /// further configuration.
    pub fn push_matcher(&mut self, matcher: Matcher<O, P>) -> (r: &mut Matcher<O, P>)
        ensures
            r@ == (MatcherView { index: old(self)@.matchers.len(), ..matcher@ }),
            final(self)@ == (ParserView { matchers: old(self)@.matchers.push(final(r)@), ..old(self)@ }),
    {
        let mut matcher = matcher;
        let index = self.matchers.len();
        matcher.set_index(index);
        self.matchers.push(matcher);
        proof {
            lemma_matchers_view_push(old(self).matchers@);
        }
        &mut self.matchers[index]
    }

    /// Append a new matcher that accepts every argument.
    pub fn push_new_matcher(&mut self, name: &str) -> (r: &mut Matcher<O, P>)
        ensures
            r@ == (MatcherView { index: old(self)@.matchers.len(), ..fresh_matcher(name@, None, r@.option_tag, r@.param_tag) }),
            final(self)@ == (ParserView { matchers: old(self)@.matchers.push(final(r)@), ..old(self)@ }),
    {
        let matcher: Matcher<O, P> = Matcher::new(name);
        self.push_matcher(matcher)
    }

    /// Append a new matcher that accepts option arguments only.
    pub fn push_new_option_matcher(&mut self, name: &str) -> (r: &mut Matcher<O, P>)
        ensures
            r@ == (MatcherView {
                index: old(self)@.matchers.len(),
                ..fresh_matcher(name@, Some(MatchArgTypeId::Option), r@.option_tag, r@.param_tag)
            }),
            final(self)@ == (ParserView { matchers: old(self)@.matchers.push(final(r)@), ..old(self)@ }),
    {
        let matcher: Matcher<O, P> = Matcher::new_option(name);
        self.push_matcher(matcher)
    }

    /// Append a new matcher that accepts parameter arguments only.
    pub fn push_new_param_matcher(&mut self, name: &str) -> (r: &mut Matcher<O, P>)
        ensures
            r@ == (MatcherView {
                index: old(self)@.matchers.len(),
                ..fresh_matcher(name@, Some(MatchArgTypeId::Param), r@.option_tag, r@.param_tag)
            }),
            final(self)@ == (ParserView { matchers: old(self)@.matchers.push(final(r)@), ..old(self)@ }),
    {
        let matcher: Matcher<O, P> = Matcher::new_param(name);
        self.push_matcher(matcher)
    }

    /// Remove the matcher at position `index`; the matchers after it move up one place and
    /// their recorded positions follow.
    pub fn delete_matcher_at(&mut self, index: usize)
        requires
            index < old(self)@.matchers.len(),
        ensures
            final(self)@ == (ParserView { matchers: removed_at(old(self)@.matchers, index as int), ..old(self)@ }),
    {
        self.matchers.remove(index);
        let n = self.matchers.len();
        let ghost target = removed_at(old(self)@.matchers, index as int);
        let mut j: usize = index;
        while j < n
            invariant
                index <= j <= n,
                n == self.matchers.len(),
                n == old(self)@.matchers.len() - 1,
                target == removed_at(old(self)@.matchers, index as int),
                self@ == (ParserView { matchers: self@.matchers, ..old(self)@ }),
                forall|k: int| 0 <= k < j ==> self@.matchers[k] == target[k],
                forall|k: int| j <= k < n ==> self@.matchers[k] == old(self)@.matchers[k + 1],
            decreases n - j,
        {
            let ghost before = self@.matchers;
            self.matchers[j].set_index(j);
            proof {
                assert forall|k: int| 0 <= k < n implies self@.matchers[k] == (if k == j {
                    MatcherView { index: j as nat, ..before[k] }
                } else {
                    before[k]
                }) by {
                    assert(self@.matchers[k] == self.matchers@[k]@);
                }
            }
            j = j + 1;
        }
        proof {
            assert(self@.matchers =~= target);
        }
    }

    /// Remove every matcher.
    pub fn clear_matchers(&mut self)
        ensures
            final(self)@ == (ParserView { matchers: Seq::empty(), ..old(self)@ }),
    {
        self.matchers.clear();
        proof {
            assert(matchers_view(final(self).matchers@) =~= Seq::<MatcherView<O, P>>::empty());
        }
    }

    /// Position of the first matcher named `name`.
    fn find_matcher_index(&self, name: &str) -> (r: Option<usize>)
        ensures
            match r {
                Some(i) => i < self@.matchers.len() && self@.matchers[i as int].name == name@
                    && forall|j: int| 0 <= j < i ==> self@.matchers[j].name != name@,
                None => forall|j: int| 0 <= j < self@.matchers.len() ==> self@.matchers[j].name != name@,
            },
    {
        let mut i: usize = 0;
        while i < self.matchers.len()
            invariant
                i <= self.matchers.len(),
                forall|j: int| 0 <= j < i ==> self@.matchers[j].name != name@,
            decreases self.matchers.len() - i,
        {
            if str_eq(self.matchers[i].name(), name) {
                return Some(i);
            }
            i = i + 1;
        }
        None
    }

    /// The first matcher named `name`, if any.
    pub fn find_matcher(&self, name: &str) -> (r: Option<&Matcher<O, P>>)
        ensures
            match r {
                Some(m) => exists|i: int| 0 <= i < self@.matchers.len() && self@.matchers[i] == m@
                    && m@.name == name@ && forall|j: int| 0 <= j < i ==> self@.matchers[j].name != name@,
                None => forall|j: int| 0 <= j < self@.matchers.len() ==> self@.matchers[j].name != name@,
            },
    {
        match self.find_matcher_index(name) {
            Some(i) => Some(&self.matchers[i]),
            None => None,
        }
    }

    /// Remove the first matcher named `name`; say whether there was one.
    pub fn delete_matcher(&mut self, name: &str) -> (r: bool)
        ensures
            r == exists|j: int| 0 <= j < old(self)@.matchers.len() && old(self)@.matchers[j].name == name@,
            r ==> exists|i: int| 0 <= i < old(self)@.matchers.len() && old(self)@.matchers[i].name == name@
                && (forall|j: int| 0 <= j < i ==> old(self)@.matchers[j].name != name@)
                && final(self)@ == (ParserView { matchers: removed_at(old(self)@.matchers, i), ..old(self)@ }),
            !r ==> final(self)@ == old(self)@,
    {
        match self.find_matcher_index(name) {
            Some(i) => {
                self.delete_matcher_at(i);
                true
            },
            None => false,
        }
    }

    fn try_match_option_excluding_value(&self, state: &ParseState, m: &Matcher<O, P>) -> (r: bool)
        ensures
            r == option_excl_value_ok(self@, m@, state@),
    {
        try_match_index(state.arg_count, m.arg_indices())
            && try_match_arg_type(MatchArgTypeId::Option, m.arg_type())
            && try_match_index(state.option_count, m.option_indices())
            && try_match_option_code(state.option_code.as_str(), m.option_codes(), self.option_codes_case_sensitive)
    }

    fn try_match_option(&self, state: &ParseState, has_value: bool, m: &Matcher<O, P>) -> (r: bool)
        ensures
            r == option_ok(self@, m@, state@, has_value),
    {
        if self.try_match_option_excluding_value(state, m) {
            match m.option_has_value() {
                OptionHasValue::Always => has_value && try_match_value_text(
                    state.value_bldr.as_str(),
                    m.value_text(),
                    self.option_values_case_sensitive,
                ),
                OptionHasValue::IfPossible => !has_value || try_match_value_text(
                    state.value_bldr.as_str(),
                    m.value_text(),
                    self.option_values_case_sensitive,
                ),
                OptionHasValue::Never => !has_value,
            }
        } else {
            false
        }
    }

    fn try_match_param(&self, state: &ParseState, m: &Matcher<O, P>) -> (r: bool)
        ensures
            r == param_ok(self@, m@, state@),
    {
        try_match_index(state.arg_count, m.arg_indices())
            && try_match_arg_type(MatchArgTypeId::Param, m.arg_type())
            && try_match_index(state.param_count, m.param_indices())
            && try_match_value_text(state.value_bldr.as_str(), m.value_text(), self.params_case_sensitive)
    }

    fn try_find_option_matcher(&self, state: &ParseState, has_value: bool) -> (r: Option<Option<usize>>)
        ensures
            match r {
                Some(Some(i)) => find_option_matcher(self@, state@, has_value) == Some(Some(i as nat)),
                Some(None) => find_option_matcher(self@, state@, has_value) == Some(None::<nat>),
                None => find_option_matcher(self@, state@, has_value) is None,
            },
    {
        let n = self.matchers.len();
        if n == 0 {
            return Some(None);
        }
        let mut found: Option<usize> = None;
        let mut i: usize = 0;
        while i < n
            invariant
                n == self.matchers.len(),
                i <= n,
                match found {
                    Some(f) => first_option_match(self@, state@, has_value, i as nat) == Some(f as nat),
                    None => first_option_match(self@, state@, has_value, i as nat) is None,
                },
            decreases n - i,
        {
            if found.is_none() {
                if self.try_match_option(state, has_value, &self.matchers[i]) {
                    found = Some(i);
                }
            }
            i = i + 1;
        }
        match found {
            Some(f) => Some(Some(f)),
            None => None,
        }
    }

    fn try_find_param_matcher(&self, state: &ParseState) -> (r: Option<Option<usize>>)
        ensures
            match r {
                Some(Some(i)) => find_param_matcher(self@, state@) == Some(Some(i as nat)),
                Some(None) => find_param_matcher(self@, state@) == Some(None::<nat>),
                None => find_param_matcher(self@, state@) is None,
            },
    {
        let n = self.matchers.len();
        if n == 0 {
            return Some(None);
        }
        let mut found: Option<usize> = None;
        let mut i: usize = 0;
        while i < n
            invariant
                n == self.matchers.len(),
                i <= n,
                match found {
                    Some(f) => first_param_match(self@, state@, i as nat) == Some(f as nat),
                    None => first_param_match(self@, state@, i as nat) is None,
                },
            decreases n - i,
        {
            if found.is_none() {
                if self.try_match_param(state, &self.matchers[i]) {
                    found = Some(i);
                }
            }
            i = i + 1;
        }
        match found {
            Some(f) => Some(Some(f)),
            None => None,
        }
    }

    fn can_option_code_have_value(&self, state: &ParseState) -> (r: bool)
        ensures
            r == can_option_code_have_value(self@, state@),
    {
        let n = self.matchers.len();
        let mut any = false;
        let mut i: usize = 0;
        while i < n
            invariant
                n == self.matchers.len(),
                i <= n,
                any == some_code_with_value(self@, state@, i as nat),
            decreases n - i,
        {
            if !any {
                let m = &self.matchers[i];
                if self.try_match_option_excluding_value(state, m) && *m.option_has_value() != OptionHasValue::Never {
                    any = true;
                }
            }
            i = i + 1;
        }
        any
    }

    fn matcher_verdict(&self, state: &ParseState, first_is_announcer: bool, m: &Matcher<O, P>) -> (r: ValueVerdict)
        ensures
            r == matcher_verdict(self@, m@, state@, first_is_announcer),
    {
        if !self.try_match_option_excluding_value(state, m) {
            ValueVerdict::MustNot
        } else {
            match m.option_has_value() {
                OptionHasValue::Always => if first_is_announcer && !m.option_value_can_start_with_option_announcer() {
                    ValueVerdict::Refused
                } else {
                    ValueVerdict::Must
                },
                OptionHasValue::IfPossible => if state.option_value_announcer_is_ambiguous {
                    if first_is_announcer {
                        ValueVerdict::MustNot
                    } else {
                        ValueVerdict::Possibly
                    }
                } else if first_is_announcer {
                    ValueVerdict::Refused
                } else {
                    ValueVerdict::Must
                },
                OptionHasValue::Never => ValueVerdict::MustNot,
            }
        }
    }

    fn can_option_have_value_with_first_char(&self, state: &ParseState, first_is_announcer: bool) -> (r: ValueVerdict)
        ensures
            r == value_verdict(self@, state@, first_is_announcer),
    {
        let n = self.matchers.len();
        let mut verdict = ValueVerdict::MustNot;
        let mut i: usize = 0;
        while i < n
            invariant
                n == self.matchers.len(),
                i <= n,
                verdict == combined_verdict(self@, state@, first_is_announcer, i as nat),
            decreases n - i,
        {
            if verdict != ValueVerdict::Must && verdict != ValueVerdict::Refused {
                let v = self.matcher_verdict(state, first_is_announcer, &self.matchers[i]);
                if v != ValueVerdict::MustNot {
                    verdict = v;
                }
            }
            i = i + 1;
        }
        verdict
    }

    fn can_char_be_escaped(&self, state: &ParseState, c: char) -> (r: bool)
        ensures
            r == can_char_be_escaped(self@, state@, c),
    {
        let n = self.escapeable_logical_chars.len();
        let mut i: usize = 0;
        while i < n
            invariant
                n == self.escapeable_logical_chars.len(),
                i <= n,
                forall|k: int| 0 <= k < i ==> !logical_escapable(self@, state@, self@.escapeable_logical_chars[k], c),
            decreases n - i,
        {
            let l = self.escapeable_logical_chars[i];
            let ok = match l {
                EscapeableLogicalChar::Escape => self.escape_char == Some(c),
                EscapeableLogicalChar::Quote => state.value_quoted && c == state.arg_quote_char,
                EscapeableLogicalChar::Whitespace => char_is_whitespace(c),
                EscapeableLogicalChar::OptionAnnouncer => char_in(&self.option_announcer_chars, c),
                EscapeableLogicalChar::OptionValueAnnouncer => char_in(&self.option_value_announcer_chars, c),
                EscapeableLogicalChar::All => true,
            };
            if ok {
                assert(logical_escapable(self@, state@, self@.escapeable_logical_chars[i as int], c));
                return true;
            }
            i = i + 1;
        }
        char_in(&self.escapeable_chars, c)
    }
}

/// `r` is what the classification `spec` says, with `after` the state and `new_args` the
/// arguments once it is done. On an error the arguments are those there were before.
pub open spec fn done_as(
    r: Result<(), ParseError>,
    spec: Result<(ParseStateView, Seq<ArgView>), ParseErrorView>,
    after: ParseStateView,
    old_args: Seq<Arg>,
    new_args: Seq<Arg>,
) -> bool {
    match spec {
        Ok((s, out)) => r is Ok && after == s && args_view(new_args) == args_view(old_args) + out,
        Err(e) => r matches Err(x) && x@ == e && new_args == old_args,
    }
}

/// `r` is what the step `spec` says, with `after` the state and `new_args` the arguments once
/// it is done. On an error the arguments are those there were before.
pub open spec fn stepped_as(
    r: Result<bool, ParseError>,
    spec: StepOut,
    after: ParseStateView,
    old_args: Seq<Arg>,
    new_args: Seq<Arg>,
) -> bool {
    match spec {
        StepOut::Go(s, out, more) => r == Ok::<bool, ParseError>(more) && after == s && args_view(new_args)
            == args_view(old_args) + out,
        StepOut::Fail(e) => r matches Err(x) && x@ == e && new_args == old_args,
    }
}

proof fn lemma_args_view_push(v: Seq<Arg>, a: Arg)
    ensures
        args_view(v.push(a)) == args_view(v) + seq![a@],
{
    assert(args_view(v.push(a)) =~= args_view(v) + seq![a@]);
}

impl<O: Default, P: Default> Parser<O, P> {
    fn initialise_param_parsing(&self, state: &mut ParseState, c: char, is_binary: bool)
        ensures
            final(state)@ == init_param(self@, old(state)@, c, is_binary),
    {
        state.value_bldr = String::new();
        state.arg_start_char_idx = state.line_or_env_arg_char_idx;
        state.arg_start_env_line_approximate_char_idx = state.env_line_approximate_char_idx;
        state.arg_start_env_arg_idx = state.env_arg_idx;
        state.value_quoted = char_in(&self.quote_chars, c);
        if state.value_quoted {
            state.arg_quote_char = c;
        } else {
            push_char(&mut state.value_bldr, c);
        }
        state.current_param_is_binary = is_binary;
        state.arg_parse_state = ArgParseState::InParam;
        proof {
            assert(Seq::<char>::empty().push(c) =~= seq![c]);
        }
    }

    fn initialise_option_parsing(&self, state: &mut ParseState, c: char)
        ensures
            final(state)@ == init_option(old(state)@, c),
    {
        state.arg_parse_state = ArgParseState::InOption;
        state.option_parse_state = OptionParseState::InCode;
        state.option_announcer_char = c;
        state.arg_start_char_idx = state.line_or_env_arg_char_idx;
        state.arg_start_env_line_approximate_char_idx = state.env_line_approximate_char_idx;
        state.arg_start_env_arg_idx = state.env_arg_idx;
        state.option_code = String::new();
        state.value_bldr = String::new();
    }

    fn initialise_option_value_parsing(&self, state: &mut ParseState, c: char, may_be_param: bool)
        ensures
            final(state)@ == init_value(self@, old(state)@, c, may_be_param),
    {
        state.option_parse_state = OptionParseState::InValue;
        state.value_bldr = String::new();
        state.value_start_char_idx = state.line_or_env_arg_char_idx;
        state.value_start_env_line_approximate_char_idx = state.env_line_approximate_char_idx;
        state.value_start_env_arg_idx = state.env_arg_idx;
        state.value_quoted = char_in(&self.quote_chars, c);
        if state.value_quoted {
            state.arg_quote_char = c;
        } else {
            push_char(&mut state.value_bldr, c);
        }
        state.current_option_value_may_be_param = may_be_param;
        proof {
            assert(Seq::<char>::empty().push(c) =~= seq![c]);
        }
    }

    fn add_option_arg(&self, state: &mut ParseState, has_value: bool, matcher_index: Option<usize>, args: &mut Vec<Arg>)
        requires
            room(old(state)@, 1),
        ensures
            final(state)@ == after_option(old(state)@),
            args_view(final(args)@) == args_view(old(args)@) + seq![
                option_arg(old(state)@, has_value, crate::arg::opt_index(matcher_index)),
            ],
            final(args)@.len() == old(args)@.len() + 1,
            final(args)@.subrange(0, old(args)@.len() as int) == old(args)@,
    {
        let value_text = if has_value {
            Some(state.value_bldr.clone())
        } else {
            None
        };
        let properties = OptionProperties {
            matcher_index,
            char_index: state.arg_start_char_idx,
            env_line_approximate_char_index: state.arg_start_env_line_approximate_char_idx,
            arg_index: state.arg_count,
            env_arg_index: state.arg_start_env_arg_idx,
            option_index: state.option_count,
            code: state.option_code.clone(),
            value_text,
        };
        let arg = Arg::Option(properties);
        proof {
            lemma_args_view_push(args@, arg);
        }
        args.push(arg);
        proof {
            assert(args@.subrange(0, old(args)@.len() as int) =~= old(args)@);
        }
        state.arg_count = state.arg_count + 1;
        state.option_count = state.option_count + 1;
    }

    fn add_param_arg(&self, state: &mut ParseState, matcher_index: Option<usize>, args: &mut Vec<Arg>)
        requires
            room(old(state)@, 1),
        ensures
            final(state)@ == after_param(old(state)@),
            args_view(final(args)@) == args_view(old(args)@) + seq![
                param_arg(old(state)@, crate::arg::opt_index(matcher_index)),
            ],
    {
        let properties = ParamProperties {
            matcher_index,
            char_index: state.arg_start_char_idx,
            env_line_approximate_char_index: state.arg_start_env_line_approximate_char_idx,
            arg_index: state.arg_count,
            env_arg_index: state.arg_start_env_arg_idx,
            param_index: state.param_count,
            value_text: state.value_bldr.clone(),
        };
        let arg = Arg::Param(properties);
        proof {
            lemma_args_view_push(args@, arg);
        }
        args.push(arg);
        state.arg_count = state.arg_count + 1;
        state.param_count = state.param_count + 1;
    }

    fn add_binary_arg(&self, state: &mut ParseState, args: &mut Vec<Arg>)
        requires
            room(old(state)@, 1),
        ensures
            final(state)@ == after_binary(old(state)@),
            args_view(final(args)@) == args_view(old(args)@) + seq![binary_arg(old(state)@)],
    {
        let properties = BinaryProperties {
            char_index: state.arg_start_char_idx,
            env_line_approximate_char_index: state.arg_start_env_line_approximate_char_idx,
            arg_index: state.arg_count,
            env_arg_index: state.arg_start_env_arg_idx,
            value_text: state.value_bldr.clone(),
        };
        let arg = Arg::Binary(properties);
        proof {
            lemma_args_view_push(args@, arg);
        }
        args.push(arg);
        state.arg_count = state.arg_count + 1;
    }

    /// Classify the completed parameter (or binary) token.
    fn match_param_arg(&self, state: &mut ParseState, args: &mut Vec<Arg>) -> (r: Result<(), ParseError>)
        requires
            room(old(state)@, 1),
        ensures
            done_as(r, match_param(self@, old(state)@), final(state)@, old(args)@, final(args)@),
    {
        if state.current_param_is_binary {
            self.add_binary_arg(state, args);
            Ok(())
        } else {
            match self.try_find_param_matcher(state) {
                Some(mi) => {
                    self.add_param_arg(state, mi, args);
                    Ok(())
                },
                None => Err(state.create_param_error(ParseErrorTypeId::UnmatchedParam)),
            }
        }
    }

    /// Classify the completed option, with or without its value; retry without the value
    /// when the value may have been a parameter.
    fn match_option_arg(&self, state: &mut ParseState, has_value: bool, args: &mut Vec<Arg>) -> (r: Result<(), ParseError>)
        requires
            room(old(state)@, if has_value { 2 } else { 1 }),
        ensures
            done_as(r, match_option(self@, old(state)@, has_value), final(state)@, old(args)@, final(args)@),
    {
        match self.try_find_option_matcher(state, has_value) {
            Some(mi) => {
                self.add_option_arg(state, has_value, mi, args);
                Ok(())
            },
            None => {
                if has_value && state.current_option_value_may_be_param {
                    match self.try_find_option_matcher(state, false) {
                        Some(mi) => {
                            let ghost s0 = state@;
                            let ghost a0 = args@;
                            let n0 = args.len();
                            self.add_option_arg(state, false, mi, args);
                            state.arg_start_char_idx = state.value_start_char_idx;
                            state.arg_start_env_line_approximate_char_idx = state.value_start_env_line_approximate_char_idx;
                            state.arg_start_env_arg_idx = state.value_start_env_arg_idx;
                            state.current_param_is_binary = false;
                            assert(state@ == value_as_param(after_option(s0)));
                            let ghost a1 = args@;
                            let r = self.match_param_arg(state, args);
                            if r.is_err() {
                                args.truncate(n0);
                                proof {
                                    assert(args@ =~= a0);
                                }
                            }
                            proof {
                                let oa = option_arg(s0, false, crate::arg::opt_index(mi));
                                match match_param(self@, value_as_param(after_option(s0))) {
                                    Ok((s2, out)) => {
                                        assert(args_view(a0) + seq![oa] + out =~= args_view(a0) + (seq![oa] + out));
                                    },
                                    Err(_) => {},
                                }
                            }
                            r
                        },
                        None => Err(state.create_option_error(ParseErrorTypeId::UnmatchedOption)),
                    }
                } else {
                    Err(state.create_option_error(ParseErrorTypeId::UnmatchedOption))
                }
            },
        }
    }
}

impl<O: Default, P: Default> Parser<O, P> {
    /// Complete the option code and decide whether a value may follow.
    fn finalise_option_code(&self, state: &mut ParseState, announced: ValueAnnounced, args: &mut Vec<Arg>) -> (r: Result<(), ParseError>)
        requires
            room(old(state)@, 1),
        ensures
            done_as(r, finalise_option_code(self@, old(state)@, announced), final(state)@, old(args)@, final(args)@),
    {
        match state.set_option_code() {
            Err(e) => return Err(e),
            Ok(()) => {},
        }
        state.option_value_announcer_is_ambiguous = announced == ValueAnnounced::Ambiguous;
        let can_have_value = self.can_option_code_have_value(state);
        match announced {
            ValueAnnounced::Definitely => {
                if can_have_value {
                    state.option_parse_state = OptionParseState::WaitOptionValue;
                    proof { assert(args_view(args@) =~= args_view(old(args)@) + Seq::<ArgView>::empty()); }
                    Ok(())
                } else {
                    Err(state.create_option_error(ParseErrorTypeId::NoMatchForOptionWithValue))
                }
            },
            ValueAnnounced::Ambiguous => {
                if can_have_value {
                    state.option_parse_state = OptionParseState::WaitOptionValue;
                    proof { assert(args_view(args@) =~= args_view(old(args)@) + Seq::<ArgView>::empty()); }
                    Ok(())
                } else {
                    state.current_option_value_may_be_param = false;
                    let r = self.match_option_arg(state, false, args);
                    if r.is_ok() {
                        state.arg_parse_state = ArgParseState::WaitOptionOrParam;
                    }
                    r
                }
            },
            ValueAnnounced::Not => {
                state.current_option_value_may_be_param = false;
                let r = self.match_option_arg(state, false, args);
                if r.is_ok() {
                    state.arg_parse_state = ArgParseState::WaitOptionOrParam;
                }
                r
            },
        }
    }

    /// Finish a classification and wait for the next token.
    fn param_then_wait(&self, state: &mut ParseState, args: &mut Vec<Arg>) -> (r: Result<bool, ParseError>)
        requires
            room(old(state)@, 1),
        ensures
            stepped_as(r, then_wait(match_param(self@, old(state)@)), final(state)@, old(args)@, final(args)@),
    {
        match self.match_param_arg(state, args) {
            Ok(()) => {
                state.arg_parse_state = ArgParseState::WaitOptionOrParam;
                Ok(true)
            },
            Err(e) => Err(e),
        }
    }

    fn option_then_wait(&self, state: &mut ParseState, has_value: bool, args: &mut Vec<Arg>) -> (r: Result<bool, ParseError>)
        requires
            room(old(state)@, if has_value { 2 } else { 1 }),
        ensures
            stepped_as(r, then_wait(match_option(self@, old(state)@, has_value)), final(state)@, old(args)@, final(args)@),
    {
        match self.match_option_arg(state, has_value, args) {
            Ok(()) => {
                state.arg_parse_state = ArgParseState::WaitOptionOrParam;
                Ok(true)
            },
            Err(e) => Err(e),
        }
    }

    fn process_wait_binary(&self, state: &mut ParseState, c: EnvChar, args: &mut Vec<Arg>) -> (r: Result<bool, ParseError>)
        ensures
            stepped_as(r, step_wait_binary(self@, old(state)@, c), final(state)@, old(args)@, final(args)@),
    {
        proof { assert(args_view(args@) =~= args_view(args@) + Seq::<ArgView>::empty()); }
        match c {
            EnvChar::Separator => Ok(true),
            EnvChar::Unicode(ch) => {
                if char_in(&self.parse_terminate_chars, ch) {
                    Ok(false)
                } else if char_is_whitespace(ch) {
                    Ok(true)
                } else {
                    self.initialise_param_parsing(state, ch, true);
                    Ok(true)
                }
            },
        }
    }

    fn process_idle(&self, state: &mut ParseState, c: EnvChar, args: &mut Vec<Arg>) -> (r: Result<bool, ParseError>)
        ensures
            stepped_as(r, step_idle(self@, old(state)@, c), final(state)@, old(args)@, final(args)@),
    {
        proof { assert(args_view(args@) =~= args_view(args@) + Seq::<ArgView>::empty()); }
        match c {
            EnvChar::Separator => Ok(true),
            EnvChar::Unicode(ch) => {
                if char_in(&self.parse_terminate_chars, ch) {
                    Ok(false)
                } else if char_is_whitespace(ch) {
                    Ok(true)
                } else if char_in(&self.option_announcer_chars, ch) {
                    self.initialise_option_parsing(state, ch);
                    Ok(true)
                } else {
                    self.initialise_param_parsing(state, ch, false);
                    Ok(true)
                }
            },
        }
    }

    fn process_in_param(&self, state: &mut ParseState, c: EnvChar, args: &mut Vec<Arg>) -> (r: Result<bool, ParseError>)
        requires
            room(old(state)@, 1),
        ensures
            stepped_as(r, step_in_param(self@, old(state)@, c), final(state)@, old(args)@, final(args)@),
    {
        proof { assert(args_view(args@) =~= args_view(args@) + Seq::<ArgView>::empty()); }
        match c {
            EnvChar::Separator => {
                if state.value_quoted {
                    Err(state.create_param_error(ParseErrorTypeId::ParamMissingClosingQuoteCharacter))
                } else {
                    self.param_then_wait(state, args)
                }
            },
            EnvChar::Unicode(ch) => {
                if self.escape_char == Some(ch) {
                    state.arg_parse_state = ArgParseState::InParamEscaped;
                    Ok(true)
                } else if state.value_quoted {
                    if ch == state.arg_quote_char {
                        state.arg_parse_state = ArgParseState::InParamPossibleEndQuote;
                    } else {
                        push_char(&mut state.value_bldr, ch);
                    }
                    Ok(true)
                } else if !char_is_whitespace(ch) {
                    push_char(&mut state.value_bldr, ch);
                    Ok(true)
                } else {
                    self.param_then_wait(state, args)
                }
            },
        }
    }

    fn process_param_end_quote(&self, state: &mut ParseState, c: EnvChar, args: &mut Vec<Arg>) -> (r: Result<bool, ParseError>)
        requires
            room(old(state)@, 1),
        ensures
            stepped_as(r, step_param_end_quote(self@, old(state)@, c), final(state)@, old(args)@, final(args)@),
    {
        proof { assert(args_view(args@) =~= args_view(args@) + Seq::<ArgView>::empty()); }
        match c {
            EnvChar::Separator => self.param_then_wait(state, args),
            EnvChar::Unicode(ch) => {
                if ch == state.arg_quote_char && self.embed_quote_char_with_double {
                    push_char(&mut state.value_bldr, ch);
                    state.arg_parse_state = ArgParseState::InParam;
                    Ok(true)
                } else if char_is_whitespace(ch) {
                    self.param_then_wait(state, args)
                } else {
                    Err(state.create_param_error(ParseErrorTypeId::QuotedParamNotFollowedByWhitespaceChar))
                }
            },
        }
    }

    fn process_param_escaped(&self, state: &mut ParseState, c: EnvChar, args: &mut Vec<Arg>) -> (r: Result<bool, ParseError>)
        ensures
            stepped_as(r, step_param_escaped(self@, old(state)@, c), final(state)@, old(args)@, final(args)@),
    {
        proof { assert(args_view(args@) =~= args_view(args@) + Seq::<ArgView>::empty()); }
        match c {
            EnvChar::Separator => Err(state.create_param_error(ParseErrorTypeId::EscapeCharacterAtEndOfParam)),
            EnvChar::Unicode(ch) => {
                if self.can_char_be_escaped(state, ch) {
                    push_char(&mut state.value_bldr, ch);
                    state.arg_parse_state = ArgParseState::InParam;
                    Ok(true)
                } else {
                    Err(state.create_param_error(ParseErrorTypeId::EscapedCharacterInParamCannotBeEscaped))
                }
            },
        }
    }

    fn process_in_code(&self, state: &mut ParseState, c: EnvChar, args: &mut Vec<Arg>) -> (r: Result<bool, ParseError>)
        requires
            room(old(state)@, 1),
        ensures
            stepped_as(r, step_in_code(self@, old(state)@, c), final(state)@, old(args)@, final(args)@),
    {
        proof { assert(args_view(args@) =~= args_view(args@) + Seq::<ArgView>::empty()); }
        match c {
            EnvChar::Separator => match self.finalise_option_code(state, ValueAnnounced::Ambiguous, args) {
                Ok(()) => Ok(true),
                Err(e) => Err(e),
            },
            EnvChar::Unicode(ch) => {
                if char_in(&self.parse_terminate_chars, ch) {
                    match self.finalise_option_code(state, ValueAnnounced::Not, args) {
                        Ok(()) => Ok(false),
                        Err(e) => Err(e),
                    }
                } else if char_in(&self.option_value_announcer_chars, ch) {
                    let announced = if char_is_whitespace(ch) {
                        ValueAnnounced::Ambiguous
                    } else {
                        ValueAnnounced::Definitely
                    };
                    match self.finalise_option_code(state, announced, args) {
                        Ok(()) => Ok(true),
                        Err(e) => Err(e),
                    }
                } else if char_is_whitespace(ch) {
                    match self.finalise_option_code(state, ValueAnnounced::Not, args) {
                        Ok(()) => Ok(true),
                        Err(e) => Err(e),
                    }
                } else if char_in(&self.quote_chars, ch) {
                    Err(state.create_option_error(ParseErrorTypeId::OptionCodeCannotContainQuoteChar))
                } else if self.escape_char == Some(ch) {
                    Err(state.create_option_error(ParseErrorTypeId::OptionCodeCannotContainEscapeChar))
                } else {
                    push_char(&mut state.option_code, ch);
                    Ok(true)
                }
            },
        }
    }

    fn process_wait_value(&self, state: &mut ParseState, c: EnvChar, args: &mut Vec<Arg>) -> (r: Result<bool, ParseError>)
        requires
            room(old(state)@, 1),
        ensures
            stepped_as(r, step_wait_value(self@, old(state)@, c), final(state)@, old(args)@, final(args)@),
    {
        proof { assert(args_view(args@) =~= args_view(args@) + Seq::<ArgView>::empty()); }
        match c.try_get_unicode_non_whitespace() {
            None => Ok(true),
            Some(ch) => {
                let first_is_announcer = char_in(&self.option_announcer_chars, ch);
                match self.can_option_have_value_with_first_char(state, first_is_announcer) {
                    ValueVerdict::Refused => Err(
                        state.create_option_error(ParseErrorTypeId::OptionValueCannotStartWithOptionAnnouncer),
                    ),
                    ValueVerdict::Must => {
                        self.initialise_option_value_parsing(state, ch, false);
                        Ok(true)
                    },
                    ValueVerdict::Possibly => {
                        self.initialise_option_value_parsing(state, ch, true);
                        Ok(true)
                    },
                    ValueVerdict::MustNot => {
                        state.current_option_value_may_be_param = false;
                        match self.match_option_arg(state, false, args) {
                            Err(e) => Err(e),
                            Ok(()) => {
                                state.arg_parse_state = ArgParseState::WaitOptionOrParam;
                                let ghost a1 = args@;
                                let r = self.process_idle(state, c, args);
                                proof {
                                    assert(args_view(args@) =~= args_view(old(args)@) + (args_view(a1).subrange(args_view(old(args)@).len() as int, args_view(a1).len() as int) + args_view(args@).subrange(args_view(a1).len() as int, args_view(args@).len() as int)));
                                }
                                r
                            },
                        }
                    },
                }
            },
        }
    }

    fn process_in_value(&self, state: &mut ParseState, c: EnvChar, args: &mut Vec<Arg>) -> (r: Result<bool, ParseError>)
        requires
            room(old(state)@, 2),
        ensures
            stepped_as(r, step_in_value(self@, old(state)@, c), final(state)@, old(args)@, final(args)@),
    {
        proof { assert(args_view(args@) =~= args_view(args@) + Seq::<ArgView>::empty()); }
        match c {
            EnvChar::Separator => {
                if state.value_quoted {
                    Err(state.create_option_error(ParseErrorTypeId::OptionValueMissingClosingQuoteCharacter))
                } else {
                    self.option_then_wait(state, true, args)
                }
            },
            EnvChar::Unicode(ch) => {
                if self.escape_char == Some(ch) {
                    state.option_parse_state = OptionParseState::InValueEscaped;
                    Ok(true)
                } else if state.value_quoted {
                    if ch == state.arg_quote_char {
                        state.option_parse_state = OptionParseState::InValuePossibleEndQuote;
                    } else {
                        push_char(&mut state.value_bldr, ch);
                    }
                    Ok(true)
                } else if !char_is_whitespace(ch) {
                    push_char(&mut state.value_bldr, ch);
                    Ok(true)
                } else {
                    self.option_then_wait(state, true, args)
                }
            },
        }
    }

    fn process_value_end_quote(&self, state: &mut ParseState, c: EnvChar, args: &mut Vec<Arg>) -> (r: Result<bool, ParseError>)
        requires
            room(old(state)@, 2),
        ensures
            stepped_as(r, step_value_end_quote(self@, old(state)@, c), final(state)@, old(args)@, final(args)@),
    {
        proof { assert(args_view(args@) =~= args_view(args@) + Seq::<ArgView>::empty()); }
        match c {
            EnvChar::Separator => self.option_then_wait(state, true, args),
            EnvChar::Unicode(ch) => {
                if ch == state.arg_quote_char && self.embed_quote_char_with_double {
                    push_char(&mut state.value_bldr, ch);
                    state.option_parse_state = OptionParseState::InValue;
                    Ok(true)
                } else if char_is_whitespace(ch) {
                    self.option_then_wait(state, true, args)
                } else {
                    Err(state.create_option_error(ParseErrorTypeId::QuotedOptionValueNotFollowedByWhitespaceChar))
                }
            },
        }
    }

    fn process_value_escaped(&self, state: &mut ParseState, c: EnvChar, args: &mut Vec<Arg>) -> (r: Result<bool, ParseError>)
        ensures
            stepped_as(r, step_value_escaped(self@, old(state)@, c), final(state)@, old(args)@, final(args)@),
    {
        proof { assert(args_view(args@) =~= args_view(args@) + Seq::<ArgView>::empty()); }
        match c {
            EnvChar::Separator => Err(state.create_option_error(ParseErrorTypeId::EscapeCharacterAtEndOfOptionValue)),
            EnvChar::Unicode(ch) => {
                if self.can_char_be_escaped(state, ch) {
                    push_char(&mut state.value_bldr, ch);
                    state.option_parse_state = OptionParseState::InValue;
                    Ok(true)
                } else {
                    Err(state.create_option_error(ParseErrorTypeId::EscapedCharacterInOptionValueCannotBeEscaped))
                }
            },
        }
    }

    /// Consume one character (or separator): one step of the state machine. Returns whether
    /// parsing goes on (`false` after a parse terminate character).
    pub fn process_char(&self, state: &mut ParseState, c: EnvChar, args: &mut Vec<Arg>) -> (r: Result<bool, ParseError>)
        requires
            counts_within(old(state)@, usize::MAX as nat),
        ensures
            stepped_as(r, step(self@, old(state)@, c), final(state)@, old(args)@, final(args)@),
    {
        match state.arg_parse_state {
            ArgParseState::WaitBinary => self.process_wait_binary(state, c, args),
            ArgParseState::WaitOptionOrParam => self.process_idle(state, c, args),
            ArgParseState::InParam => self.process_in_param(state, c, args),
            ArgParseState::InParamPossibleEndQuote => self.process_param_end_quote(state, c, args),
            ArgParseState::InParamEscaped => self.process_param_escaped(state, c, args),
            ArgParseState::InOption => match state.option_parse_state {
                OptionParseState::InCode => self.process_in_code(state, c, args),
                OptionParseState::WaitOptionValue => self.process_wait_value(state, c, args),
                OptionParseState::InValue => self.process_in_value(state, c, args),
                OptionParseState::InValuePossibleEndQuote => self.process_value_end_quote(state, c, args),
                OptionParseState::InValueEscaped => self.process_value_escaped(state, c, args),
            },
        }
    }
}

/// A step keeps the count of classified and in-flight arguments within one more than before,
/// and leaves the position fields alone.
#[verifier::rlimit(50)]
proof fn lemma_step_counts<O, P>(p: ParserView<O, P>, s: ParseStateView, c: EnvChar, limit: nat)
    requires
        counts_within(s, limit),
    ensures
        step(p, s, c) matches StepOut::Go(s2, _, _) ==> {
            &&& counts_within(s2, limit + 1)
            &&& s2.approx_idx == s.approx_idx
            &&& s2.char_idx == s.char_idx
            &&& s2.env_arg_idx == s.env_arg_idx
        },
{
    match s.arg_state {
        ArgParseState::InOption => match s.option_state {
            OptionParseState::InCode => {
                match completed_code(s) {
                    Ok(s1) => {
                        let s_amb = ParseStateView { ambiguous: true, ..s1 };
                        let s_not = ParseStateView { ambiguous: false, ..s1 };
                        lemma_match_option_counts(p, ParseStateView { may_be_param: false, ..s_amb }, false);
                        lemma_match_option_counts(p, ParseStateView { may_be_param: false, ..s_not }, false);
                    },
                    Err(_) => {},
                }
            },
            OptionParseState::WaitOptionValue => {
                let s1 = ParseStateView { may_be_param: false, ..s };
                lemma_match_option_counts(p, s1, false);
            },
            _ => {
                lemma_match_option_counts(p, s, true);
            },
        },
        _ => {
            lemma_match_param_counts(p, s);
        },
    }
}

proof fn lemma_match_param_counts<O, P>(p: ParserView<O, P>, s: ParseStateView)
    ensures
        match_param(p, s) matches Ok((s2, out)) ==> {
            &&& s2.arg_count == s.arg_count + 1
            &&& s2.option_count == s.option_count
            &&& s2.param_count <= s.param_count + 1
            &&& s2.approx_idx == s.approx_idx
            &&& s2.char_idx == s.char_idx
            &&& s2.env_arg_idx == s.env_arg_idx
            &&& s2.arg_state == s.arg_state
            &&& s2.option_state == s.option_state
        },
{
}

proof fn lemma_match_option_counts<O, P>(p: ParserView<O, P>, s: ParseStateView, has_value: bool)
    ensures
        match_option(p, s, has_value) matches Ok((s2, out)) ==> {
            &&& s2.arg_count <= s.arg_count + (if has_value { 2int } else { 1int })
            &&& s2.arg_count >= s.arg_count + 1
            &&& s2.option_count == s.option_count + 1
            &&& s2.param_count <= s.param_count + (s2.arg_count - s.arg_count - 1)
            &&& s2.approx_idx == s.approx_idx
            &&& s2.char_idx == s.char_idx
            &&& s2.env_arg_idx == s.env_arg_idx
            &&& s2.arg_state == s.arg_state
            &&& s2.option_state == s.option_state
        },
{
    lemma_match_param_counts(p, value_as_param(after_option(s)));
}

/// `r` is what the run `spec` says, with `after` the state and `new_args` the arguments once
/// it is done.
pub open spec fn ran_as(r: Result<bool, ParseError>, spec: RunOut, after: ParseStateView, new_args: Seq<Arg>) -> bool {
    match spec {
        RunOut::Running(s, out) => r == Ok::<bool, ParseError>(true) && after == s && args_view(new_args) == out,
        RunOut::Stopped(s, out) => r == Ok::<bool, ParseError>(false) && after == s && args_view(new_args) == out,
        RunOut::Failed(e) => r matches Err(x) && x@ == e,
    }
}

/// The result of a whole parse is what `spec` says.
pub open spec fn parsed_as(r: Result<Args, ParseError>, spec: Result<Seq<ArgView>, ParseErrorView>) -> bool {
    match spec {
        Ok(out) => r matches Ok(a) && args_view(a@) == out,
        Err(e) => r matches Err(x) && x@ == e,
    }
}

/// The number of positions in the line that environment arguments `args[..k]` stand for:
/// their characters and one separator between two of them.
pub open spec fn env_line_len(args: Seq<Seq<char>>, k: nat) -> nat
    decreases k,
{
    if k == 0 {
        0
    } else if k == 1 {
        args[0].len()
    } else {
        env_line_len(args, (k - 1) as nat) + 1 + args[k - 1].len()
    }
}

proof fn lemma_env_line_len_grows(args: Seq<Seq<char>>, j: nat, k: nat)
    requires
        j <= k,
    ensures
        env_line_len(args, j) <= env_line_len(args, k),
    decreases k,
{
    if j < k {
        lemma_env_line_len_grows(args, j, (k - 1) as nat);
    }
}

pub open spec fn strings_view(v: Seq<String>) -> Seq<Seq<char>> {
    v.map_values(|s: String| s@)
}

impl<O: Default, P: Default> Parser<O, P> {
    /// Complete the argument in flight at the end of the input.
    fn finalise_parse(&self, state: &mut ParseState, args: &mut Vec<Arg>) -> (r: Result<(), ParseError>)
        requires
            counts_within(old(state)@, usize::MAX as nat),
        ensures
            match finish(self@, old(state)@) {
                Ok(out) => r is Ok && args_view(final(args)@) == args_view(old(args)@) + out,
                Err(e) => r matches Err(x) && x@ == e && final(args)@ == old(args)@,
            },
    {
        proof { assert(args_view(args@) =~= args_view(args@) + Seq::<ArgView>::empty()); }
        match state.arg_parse_state {
            ArgParseState::WaitBinary | ArgParseState::WaitOptionOrParam => Ok(()),
            ArgParseState::InParam => {
                if state.value_quoted {
                    Err(state.create_param_error(ParseErrorTypeId::ParamMissingClosingQuoteCharacter))
                } else {
                    self.match_param_arg(state, args)
                }
            },
            ArgParseState::InParamPossibleEndQuote => self.match_param_arg(state, args),
            ArgParseState::InParamEscaped => Err(state.create_param_error(ParseErrorTypeId::EscapeCharacterAtEndOfParam)),
            ArgParseState::InOption => match state.option_parse_state {
                OptionParseState::InCode => {
                    match state.set_option_code() {
                        Err(e) => Err(e),
                        Ok(()) => {
                            state.current_option_value_may_be_param = false;
                            self.match_option_arg(state, false, args)
                        },
                    }
                },
                OptionParseState::WaitOptionValue => {
                    match self.can_option_have_value_with_first_char(state, false) {
                        ValueVerdict::Must => Err(state.create_option_error(ParseErrorTypeId::OptionMissingValue)),
                        ValueVerdict::Refused => Err(
                            state.create_option_error(ParseErrorTypeId::OptionValueCannotStartWithOptionAnnouncer),
                        ),
                        _ => {
                            state.current_option_value_may_be_param = false;
                            self.match_option_arg(state, false, args)
                        },
                    }
                },
                OptionParseState::InValue => {
                    if state.value_quoted {
                        Err(state.create_option_error(ParseErrorTypeId::OptionValueMissingClosingQuoteCharacter))
                    } else {
                        self.match_option_arg(state, true, args)
                    }
                },
                OptionParseState::InValuePossibleEndQuote => self.match_option_arg(state, true, args),
                OptionParseState::InValueEscaped => Err(
                    state.create_option_error(ParseErrorTypeId::EscapeCharacterAtEndOfOptionValue),
                ),
            },
        }
    }

    /// Feed the characters of `text` to the state machine, advancing both character indices
    /// after each one, until the text ends, a parse terminate character stops the parse, or
    /// an error ends it.
    fn process_chars(&self, state: &mut ParseState, text: &str, args: &mut Vec<Arg>) -> (r: Result<bool, ParseError>)
        requires
            counts_within(old(state)@, old(state)@.approx_idx),
            old(state)@.char_idx <= old(state)@.approx_idx,
            old(state)@.approx_idx + text@.len() <= usize::MAX,
        ensures
            ran_as(r, run_chars(self@, old(state)@, args_view(old(args)@), text@, 0), final(state)@, final(args)@),
            r == Ok::<bool, ParseError>(true) ==> {
                &&& counts_within(final(state)@, final(state)@.approx_idx)
                &&& final(state)@.approx_idx == old(state)@.approx_idx + text@.len()
                &&& final(state)@.char_idx <= final(state)@.approx_idx
                &&& final(state)@.env_arg_idx == old(state)@.env_arg_idx
            },
            r == Ok::<bool, ParseError>(false) ==> counts_within(final(state)@, usize::MAX as nat),
    {
        let n = text.unicode_len();
        let ghost total = run_chars(self@, state@, args_view(args@), text@, 0);
        let ghost base = state@.approx_idx;
        let mut i: usize = 0;
        while i < n
            invariant
                n == text@.len(),
                i <= n,
                base + n <= usize::MAX,
                total == run_chars(self@, old(state)@, args_view(old(args)@), text@, 0),
                total == run_chars(self@, state@, args_view(args@), text@, i as nat),
                counts_within(state@, state@.approx_idx),
                state@.approx_idx == base + i,
                state@.char_idx <= state@.approx_idx,
                state@.env_arg_idx == old(state)@.env_arg_idx,
            decreases n - i,
        {
            let c = text.get_char(i);
            proof {
                lemma_step_counts(self@, state@, EnvChar::Unicode(c), state@.approx_idx);
            }
            match self.process_char(state, EnvChar::Unicode(c), args) {
                Err(e) => return Err(e),
                Ok(more) => {
                    if more {
                        state.increment_env_line_approximate_char_idx();
                        state.increment_env_arg_char_idx();
                        i = i + 1;
                    } else {
                        return Ok(false);
                    }
                },
            }
        }
        Ok(true)
    }

    /// Parse a whole line.
    pub fn parse_line(&self, line: &str) -> (r: Result<Args, ParseError>)
        ensures
            parsed_as(r, parse_line_result(self@, line@)),
    {
        let _ = line.unicode_len();
        let mut state = ParseState::new(self.first_arg_is_binary, self.multi_char_option_code_requires_double_announcer);
        let mut args: Vec<Arg> = Vec::new();
        proof {
            assert(args_view(args@) =~= Seq::<ArgView>::empty());
        }
        match self.process_chars(&mut state, line, &mut args) {
            Err(e) => Err(e),
            Ok(_) => match self.finalise_parse(&mut state, &mut args) {
                Err(e) => Err(e),
                Ok(()) => Ok(args),
            },
        }
    }

    /// Parse environment arguments, as the operating system split them. Character indices
    /// within an argument are exact; indices in the line are approximate, with one position
    /// for the separator between two arguments.
    pub fn parse_env_args(&self, env_args: &Vec<String>) -> (r: Result<Args, ParseError>)
        requires
            env_line_len(strings_view(env_args@), env_args@.len()) <= usize::MAX,
        ensures
            parsed_as(r, parse_env_args_result(self@, strings_view(env_args@))),
    {
        let ghost texts = strings_view(env_args@);
        let mut state = ParseState::new(self.first_arg_is_binary, self.multi_char_option_code_requires_double_announcer);
        let mut args: Vec<Arg> = Vec::new();
        proof {
            assert(args_view(args@) =~= Seq::<ArgView>::empty());
        }
        let ghost total = run_args(self@, state@, args_view(args@), texts, 0);
        let n = env_args.len();
        let mut k: usize = 0;
        let mut stopped = false;
        while k < n && !stopped
            invariant
                n == env_args@.len(),
                texts == strings_view(env_args@),
                total == run_args(self@, start_state(self@), Seq::empty(), texts, 0),
                k <= n,
                env_line_len(texts, n as nat) <= usize::MAX,
                !stopped ==> {
                    &&& total == run_args(self@, state@, args_view(args@), texts, k as nat)
                    &&& counts_within(state@, state@.approx_idx)
                    &&& state@.approx_idx == env_line_len(texts, k as nat)
                    &&& state@.char_idx <= state@.approx_idx
                },
                stopped ==> total == RunOut::Stopped(state@, args_view(args@)) && counts_within(state@, usize::MAX as nat),
            decreases n - k + (if stopped { 0int } else { 1int }),
        {
            proof {
                lemma_env_line_len_grows(texts, (k + 1) as nat, n as nat);
            }
            let mut more = true;
            if k > 0 {
                proof {
                    lemma_step_counts(self@, state@, EnvChar::Separator, state@.approx_idx);
                }
                match self.process_char(&mut state, EnvChar::Separator, &mut args) {
                    Err(e) => return Err(e),
                    Ok(m) => {
                        more = m;
                        if more {
                            state.increment_env_line_approximate_char_idx();
                        }
                    },
                }
            }
            if !more {
                stopped = true;
            } else {
                state.env_arg_idx = k;
                state.line_or_env_arg_char_idx = 0;
                let text = env_args[k].as_str();
                assert(text@ == texts[k as int]);
                match self.process_chars(&mut state, text, &mut args) {
                    Err(e) => return Err(e),
                    Ok(m) => {
                        if m {
                            k = k + 1;
                        } else {
                            stopped = true;
                        }
                    },
                }
            }
        }
        match self.finalise_parse(&mut state, &mut args) {
            Err(e) => Err(e),
            Ok(()) => Ok(args),
        }
    }
}

impl<O: Default, P: Default> Default for Parser<O, P> {
    /// A parser with the line defaults and no matchers.
    fn default() -> (r: Self)
        ensures
            r@ == line_defaults::<O, P>(Seq::empty()),
    {
        Self::new()
    }
}

} // verus!
