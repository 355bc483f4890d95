use vstd::prelude::*;
use crate::arg::{ArgPosView, ArgView, Args, args_view};
use crate::env_char::{EnvChar, is_white_space};
use crate::model::{
    ParserView, RunOut, StepOut, advance, after_binary, binary_arg, finish, init_param,
    match_option, match_param, param_arg, parse_env_args_result, parse_line_result, run_args,
    run_chars, start_state, step, step_idle, with_value_char,
};
use crate::parse_error::{ParseError, ParseErrorView};
use crate::parse_error_type_id::ParseErrorTypeId;
use crate::parse_state::{ArgParseState, ParseStateView, completed_code};
use crate::parser::parsed_as;

verus! {

/// Whether `e` says that no matcher accepted an argument.
pub open spec fn is_unmatched(e: ParseErrorView) -> bool {
    e.type_id == ParseErrorTypeId::UnmatchedOption || e.type_id == ParseErrorTypeId::UnmatchedParam
}

/// Index of the matcher that accepted `a`, if one of the parser's matchers did.
pub open spec fn matcher_ref(a: ArgView) -> Option<nat> {
    match a {
        ArgView::Binary { .. } => None,
        ArgView::Param { matcher_index, .. } => matcher_index,
        ArgView::Option { matcher_index, .. } => matcher_index,
    }
}

/// No argument of `out` was accepted by one of the parser's matchers: all were accepted by the
/// built-in matcher that accepts everything (or are the binary).
pub open spec fn no_matcher_refs(out: Seq<ArgView>) -> bool {
    forall|k: int| 0 <= k < out.len() ==> matcher_ref(#[trigger] out[k]) is None
}

proof fn lemma_concat_no_refs(a: Seq<ArgView>, b: Seq<ArgView>)
    requires
        no_matcher_refs(a),
        no_matcher_refs(b),
    ensures
        no_matcher_refs(a + b),
{
    assert forall|k: int| 0 <= k < (a + b).len() implies matcher_ref(#[trigger] (a + b)[k]) is None by {
        if k < a.len() {
            assert((a + b)[k] == a[k]);
        } else {
            assert((a + b)[k] == b[k - a.len()]);
        }
    }
}

proof fn lemma_match_param_no_refs<O, P>(p: ParserView<O, P>, s: ParseStateView)
    requires
        p.matchers.len() == 0,
    ensures
        match_param(p, s) matches Ok((_, o)) && no_matcher_refs(o),
{
}

proof fn lemma_match_option_no_refs<O, P>(p: ParserView<O, P>, s: ParseStateView, has_value: bool)
    requires
        p.matchers.len() == 0,
    ensures
        match_option(p, s, has_value) matches Ok((_, o)) && no_matcher_refs(o),
{
}

proof fn lemma_step_no_unmatched<O, P>(p: ParserView<O, P>, s: ParseStateView, c: EnvChar)
    requires
        p.matchers.len() == 0,
    ensures
        step(p, s, c) matches StepOut::Fail(e) ==> !is_unmatched(e),
        step(p, s, c) matches StepOut::Go(_, o, _) ==> no_matcher_refs(o),
{
    lemma_match_param_no_refs(p, s);
    lemma_match_option_no_refs(p, s, true);
    lemma_match_option_no_refs(p, ParseStateView { may_be_param: false, ..s }, false);
    match completed_code(s) {
        Ok(s1) => {
            lemma_match_option_no_refs(p, ParseStateView { may_be_param: false, ambiguous: true, ..s1 }, false);
            lemma_match_option_no_refs(p, ParseStateView { may_be_param: false, ambiguous: false, ..s1 }, false);
        },
        Err(_) => {},
    }
    match match_option(p, ParseStateView { may_be_param: false, ..s }, false) {
        Ok((s1, out)) => {
            let s2 = ParseStateView { arg_state: ArgParseState::WaitOptionOrParam, ..s1 };
            match step_idle(p, s2, c) {
                StepOut::Go(_, out2, _) => {
                    assert(no_matcher_refs(out2));
                    lemma_concat_no_refs(out, out2);
                },
                _ => {},
            }
        },
        Err(_) => {},
    }
}

proof fn lemma_finish_no_unmatched<O, P>(p: ParserView<O, P>, s: ParseStateView)
    requires
        p.matchers.len() == 0,
    ensures
        finish(p, s) matches Err(e) ==> !is_unmatched(e),
        finish(p, s) matches Ok(o) ==> no_matcher_refs(o),
{
    lemma_match_param_no_refs(p, s);
    lemma_match_option_no_refs(p, s, true);
    lemma_match_option_no_refs(p, ParseStateView { may_be_param: false, ..s }, false);
    match completed_code(s) {
        Ok(s1) => lemma_match_option_no_refs(p, ParseStateView { may_be_param: false, ..s1 }, false),
        Err(_) => {},
    }
}

proof fn lemma_run_chars_no_unmatched<O, P>(
    p: ParserView<O, P>,
    s: ParseStateView,
    out: Seq<ArgView>,
    chars: Seq<char>,
    i: nat,
)
    requires
        p.matchers.len() == 0,
        no_matcher_refs(out),
    ensures
        run_chars(p, s, out, chars, i) matches RunOut::Failed(e) ==> !is_unmatched(e),
        run_chars(p, s, out, chars, i) matches RunOut::Running(_, o) ==> no_matcher_refs(o),
        run_chars(p, s, out, chars, i) matches RunOut::Stopped(_, o) ==> no_matcher_refs(o),
    decreases chars.len() - i,
{
    if i < chars.len() {
        lemma_step_no_unmatched(p, s, EnvChar::Unicode(chars[i as int]));
        match step(p, s, EnvChar::Unicode(chars[i as int])) {
            StepOut::Go(s2, o2, more) => {
                lemma_concat_no_refs(out, o2);
                if more {
                    lemma_run_chars_no_unmatched(p, advance(s2), out + o2, chars, i + 1);
                }
            },
            StepOut::Fail(_) => {},
        }
    }
}

proof fn lemma_run_args_no_unmatched<O, P>(
    p: ParserView<O, P>,
    s: ParseStateView,
    out: Seq<ArgView>,
    args: Seq<Seq<char>>,
    k: nat,
)
    requires
        p.matchers.len() == 0,
        no_matcher_refs(out),
    ensures
        run_args(p, s, out, args, k) matches RunOut::Failed(e) ==> !is_unmatched(e),
        run_args(p, s, out, args, k) matches RunOut::Running(_, o) ==> no_matcher_refs(o),
        run_args(p, s, out, args, k) matches RunOut::Stopped(_, o) ==> no_matcher_refs(o),
    decreases args.len() - k,
{
    if k < args.len() {
        lemma_step_no_unmatched(p, s, EnvChar::Separator);
        let pre = if k == 0 {
            StepOut::Go(s, out, true)
        } else {
            match step(p, s, EnvChar::Separator) {
                StepOut::Go(s2, o2, more) => StepOut::Go(
                    if more { ParseStateView { approx_idx: s2.approx_idx + 1, ..s2 } } else { s2 },
                    out + o2,
                    more,
                ),
                StepOut::Fail(e) => StepOut::Fail(e),
            }
        };
        if k > 0 {
            match step(p, s, EnvChar::Separator) {
                StepOut::Go(_, o2, _) => lemma_concat_no_refs(out, o2),
                _ => {},
            }
        }
        match pre {
            StepOut::Go(s1, out1, more) => {
                if more {
                    let s3 = ParseStateView { env_arg_idx: k, char_idx: 0, ..s1 };
                    lemma_run_chars_no_unmatched(p, s3, out1, args[k as int], 0);
                    match run_chars(p, s3, out1, args[k as int], 0) {
                        RunOut::Running(s4, out4) => {
                            lemma_run_args_no_unmatched(p, s4, out4, args, k + 1);
                        },
                        _ => {},
                    }
                }
            },
            StepOut::Fail(_) => {},
        }
    }
}

/// With no matchers, every token is accepted: parsing a line or environment arguments never
/// fails because an option or a parameter was not matched, and every option and parameter
/// parsed is accepted by the built-in matcher that accepts everything (it has no matcher index).
pub proof fn lemma_no_matchers_accept_every_token<O, P>(p: ParserView<O, P>, line: Seq<char>, env: Seq<Seq<char>>)
    requires
        p.matchers.len() == 0,
    ensures
        parse_line_result(p, line) matches Err(e) ==> !is_unmatched(e),
        parse_line_result(p, line) matches Ok(out) ==> no_matcher_refs(out),
        parse_env_args_result(p, env) matches Err(e) ==> !is_unmatched(e),
        parse_env_args_result(p, env) matches Ok(out) ==> no_matcher_refs(out),
{
    let s0 = start_state(p);
    let e = Seq::<ArgView>::empty();
    lemma_run_chars_no_unmatched(p, s0, e, line, 0);
    lemma_run_args_no_unmatched(p, s0, e, env, 0);
    match run_chars(p, s0, e, line, 0) {
        RunOut::Running(s, o) | RunOut::Stopped(s, o) => {
            lemma_finish_no_unmatched(p, s);
            match finish(p, s) {
                Ok(o2) => lemma_concat_no_refs(o, o2),
                Err(_) => {},
            }
        },
        RunOut::Failed(_) => {},
    }
    match run_args(p, s0, e, env, 0) {
        RunOut::Running(s, o) | RunOut::Stopped(s, o) => {
            lemma_finish_no_unmatched(p, s);
            match finish(p, s) {
                Ok(o2) => lemma_concat_no_refs(o, o2),
                Err(_) => {},
            }
        },
        RunOut::Failed(_) => {},
    }
}

/// `v` with every `q` in it doubled.
pub open spec fn double_quotes(v: Seq<char>, q: char) -> Seq<char>
    decreases v.len(),
{
    if v.len() == 0 {
        Seq::empty()
    } else {
        (if v[0] == q { seq![q, q] } else { seq![v[0]] }) + double_quotes(v.drop_first(), q)
    }
}

/// `v` between two `q`, with every `q` in it doubled.
pub open spec fn quote_with_doubling(v: Seq<char>, q: char) -> Seq<char> {
    seq![q] + double_quotes(v, q) + seq![q]
}

/// Where the first argument of a line stands: at the start of the line.
pub open spec fn first_pos() -> ArgPosView {
    ArgPosView { char_index: 0, env_line_approximate_char_index: 0, arg_index: 0, env_arg_index: 0 }
}

/// The argument that a line holding the text `v` alone parses to: the binary when the first
/// argument names it, else the first parameter, accepted by the matcher that accepts everything.
pub open spec fn sole_arg<O, P>(p: ParserView<O, P>, v: Seq<char>) -> ArgView {
    if p.first_arg_is_binary {
        ArgView::Binary { pos: first_pos(), value_text: v }
    } else {
        ArgView::Param { pos: first_pos(), matcher_index: None, param_index: 0, value_text: v }
    }
}

/// The state after the characters of `double_quotes(v, q)` were read inside quoted text.
pub open spec fn after_doubled(s: ParseStateView, v: Seq<char>, n: nat) -> ParseStateView {
    ParseStateView { value: s.value + v, char_idx: s.char_idx + n, approx_idx: s.approx_idx + n, ..s }
}

#[verifier::rlimit(50)]
proof fn lemma_read_doubled<O, P>(p: ParserView<O, P>, s: ParseStateView, out: Seq<ArgView>, line: Seq<char>, i: nat, v: Seq<char>, q: char)
    requires
        s.arg_state == ArgParseState::InParam,
        s.quoted,
        s.quote_char == q,
        p.escape_char is None,
        p.embed_quote_char_with_double,
        i + double_quotes(v, q).len() <= line.len(),
        line.subrange(i as int, (i + double_quotes(v, q).len()) as int) == double_quotes(v, q),
    ensures
        run_chars(p, s, out, line, i) == run_chars(
            p,
            after_doubled(s, v, double_quotes(v, q).len()),
            out,
            line,
            i + double_quotes(v, q).len(),
        ),
    decreases v.len(),
{
    let d = double_quotes(v, q);
    if v.len() == 0 {
        assert(s.value + v =~= s.value);
        assert(after_doubled(s, v, 0) == s);
    } else {
        let c = v[0];
        let rest = v.drop_first();
        let dr = double_quotes(rest, q);
        assert(out + Seq::<ArgView>::empty() =~= out);
        if c != q {
            assert(d == seq![c] + dr);
            assert(line[i as int] == d[0]);
            let s1 = advance(with_value_char(s, c));
            assert(line.subrange((i + 1) as int, (i + 1 + dr.len()) as int) =~= dr) by {
                assert forall|j: int| 0 <= j < dr.len() implies line.subrange((i + 1) as int, (i + 1 + dr.len()) as int)[j] == dr[j] by {
                    assert(line.subrange(i as int, (i + d.len()) as int)[j + 1] == d[j + 1]);
                }
            }
            lemma_read_doubled(p, s1, out, line, i + 1, rest, q);
            assert(s1.value + rest =~= s.value + v);
            assert(after_doubled(s1, rest, dr.len()) == after_doubled(s, v, d.len()));
        } else {
            assert(d == seq![q, q] + dr);
            assert(line[i as int] == d[0]);
            assert(line[(i + 1) as int] == d[1]);
            let sa = advance(ParseStateView { arg_state: ArgParseState::InParamPossibleEndQuote, ..s });
            assert(run_chars(p, s, out, line, i) == run_chars(p, sa, out, line, i + 1));
            let sb = advance(ParseStateView { arg_state: ArgParseState::InParam, ..with_value_char(sa, q) });
            assert(run_chars(p, sa, out, line, i + 1) == run_chars(p, sb, out, line, i + 2));
            assert(line.subrange((i + 2) as int, (i + 2 + dr.len()) as int) =~= dr) by {
                assert forall|j: int| 0 <= j < dr.len() implies line.subrange((i + 2) as int, (i + 2 + dr.len()) as int)[j] == dr[j] by {
                    assert(line.subrange(i as int, (i + d.len()) as int)[j + 2] == d[j + 2]);
                }
            }
            lemma_read_doubled(p, sb, out, line, i + 2, rest, q);
            assert(sb.value + rest =~= s.value + v);
            assert(after_doubled(sb, rest, dr.len()) == after_doubled(s, v, d.len()));
        }
    }
}

/// Quote-doubling round trip: a text with any number of quote characters in it, put between
/// two quote characters with each of its own quote characters doubled, parses back to one
/// argument at the start of the line with exactly that text: the binary, or where the first
/// argument is no binary, the first parameter.
pub proof fn lemma_quote_doubling_round_trip<O, P>(p: ParserView<O, P>, v: Seq<char>, q: char)
    requires
        p.quote_chars.contains(q),
        p.embed_quote_char_with_double,
        p.escape_char is None,
        !is_white_space(q),
        !p.parse_terminate_chars.contains(q),
        p.first_arg_is_binary || (p.matchers.len() == 0 && !p.option_announcer_chars.contains(q)),
    ensures
        parse_line_result(p, quote_with_doubling(v, q)) == Ok::<Seq<ArgView>, ParseErrorView>(seq![sole_arg(p, v)]),
{
    let d = double_quotes(v, q);
    let line = quote_with_doubling(v, q);
    let s0 = start_state(p);
    let e = Seq::<ArgView>::empty();
    assert(line[0] == q);
    let s1 = advance(init_param(p, s0, q, p.first_arg_is_binary));
    assert(e + e =~= e);
    assert(run_chars(p, s0, e, line, 0) == run_chars(p, s1, e, line, 1));
    assert(line.subrange(1, (1 + d.len()) as int) =~= d);
    lemma_read_doubled(p, s1, e, line, 1, v, q);
    let s2 = after_doubled(s1, v, d.len());
    assert(s1.value =~= Seq::<char>::empty());
    assert(s2.value =~= v);
    assert(line[(1 + d.len()) as int] == q);
    let s3 = advance(ParseStateView { arg_state: ArgParseState::InParamPossibleEndQuote, ..s2 });
    assert(run_chars(p, s2, e, line, 1 + d.len()) == run_chars(p, s3, e, line, 2 + d.len()));
    assert(run_chars(p, s3, e, line, 2 + d.len()) == RunOut::Running(s3, e));
    assert(e + seq![binary_arg(s3)] =~= seq![binary_arg(s3)]);
    assert(e + seq![param_arg(s3, None)] =~= seq![param_arg(s3, None)]);
}

/// Quote-doubling round trip after a binary word: a line holding a one-character binary word,
/// a space and then a text put between two quote characters with each of its own quote
/// characters doubled, parses back to the binary word and one parameter with exactly that text.
pub proof fn lemma_quoted_param_round_trip<O, P>(p: ParserView<O, P>, b: char, v: Seq<char>, q: char)
    requires
        p.matchers.len() == 0,
        p.first_arg_is_binary,
        p.quote_chars.contains(q),
        p.embed_quote_char_with_double,
        p.escape_char is None,
        !is_white_space(q),
        !p.parse_terminate_chars.contains(q),
        !p.option_announcer_chars.contains(q),
        !is_white_space(b),
        !p.quote_chars.contains(b),
        !p.parse_terminate_chars.contains(b),
    ensures
        parse_line_result(p, seq![b, ' '] + quote_with_doubling(v, q)) == Ok::<Seq<ArgView>, ParseErrorView>(seq![
            ArgView::Binary { pos: first_pos(), value_text: seq![b] },
            ArgView::Param {
                pos: ArgPosView { char_index: 2, env_line_approximate_char_index: 2, arg_index: 1, env_arg_index: 0 },
                matcher_index: None,
                param_index: 0,
                value_text: v,
            },
        ]),
{
    let d = double_quotes(v, q);
    let line = seq![b, ' '] + quote_with_doubling(v, q);
    let s0 = start_state(p);
    let e = Seq::<ArgView>::empty();
    assert(e + e =~= e);
    assert(line[0] == b && line[1] == ' ' && line[2] == q);
    assert(is_white_space(' '));
    let s1 = advance(init_param(p, s0, b, true));
    assert(run_chars(p, s0, e, line, 0) == run_chars(p, s1, e, line, 1));
    let bin = binary_arg(s1);
    let s2 = advance(ParseStateView { arg_state: ArgParseState::WaitOptionOrParam, ..after_binary(s1) });
    assert(run_chars(p, s1, e, line, 1) == run_chars(p, s2, e + seq![bin], line, 2));
    let out1 = e + seq![bin];
    assert(out1 + e =~= out1);
    let s3 = advance(init_param(p, s2, q, false));
    assert(run_chars(p, s2, out1, line, 2) == run_chars(p, s3, out1, line, 3));
    assert(line.subrange(3, (3 + d.len()) as int) =~= d);
    lemma_read_doubled(p, s3, out1, line, 3, v, q);
    let s4 = after_doubled(s3, v, d.len());
    assert(s3.value =~= Seq::<char>::empty());
    assert(s4.value =~= v);
    assert(line[(3 + d.len()) as int] == q);
    let s5 = advance(ParseStateView { arg_state: ArgParseState::InParamPossibleEndQuote, ..s4 });
    assert(run_chars(p, s4, out1, line, 3 + d.len()) == run_chars(p, s5, out1, line, 4 + d.len()));
    assert(run_chars(p, s5, out1, line, 4 + d.len()) == RunOut::Running(s5, out1));
    assert(s1.value =~= seq![b]);
    assert(out1 + seq![param_arg(s5, None)] =~= seq![bin, param_arg(s5, None)]);
}

/// Whether `v` holds a whitespace character.
pub open spec fn has_white_space(v: Seq<char>) -> bool {
    exists|k: int| 0 <= k < v.len() && is_white_space(v[k])
}

/// The line that stands for the text `v` alone: `v` itself, or, when it holds whitespace,
/// `v` quoted with `q` and doubling.
pub open spec fn requoted(v: Seq<char>, q: char) -> Seq<char> {
    if has_white_space(v) {
        quote_with_doubling(v, q)
    } else {
        v
    }
}

proof fn lemma_read_plain<O, P>(p: ParserView<O, P>, s: ParseStateView, out: Seq<ArgView>, line: Seq<char>, i: nat)
    requires
        s.arg_state == ArgParseState::InParam,
        !s.quoted,
        p.escape_char is None,
        i <= line.len(),
        forall|k: int| i <= k < line.len() ==> !is_white_space(line[k]),
    ensures
        run_chars(p, s, out, line, i) == RunOut::Running(
            after_doubled(s, line.subrange(i as int, line.len() as int), (line.len() - i) as nat),
            out,
        ),
    decreases line.len() - i,
{
    if i == line.len() {
        assert(s.value + line.subrange(i as int, line.len() as int) =~= s.value);
        assert(after_doubled(s, line.subrange(i as int, line.len() as int), 0) == s);
    } else {
        let c = line[i as int];
        assert(out + Seq::<ArgView>::empty() =~= out);
        let s1 = advance(with_value_char(s, c));
        lemma_read_plain(p, s1, out, line, i + 1);
        assert(s1.value + line.subrange((i + 1) as int, line.len() as int) =~= s.value + line.subrange(i as int, line.len() as int));
    }
}

/// Re-parsing a value: the text of a parsed parameter or option value, alone on a line (in
/// quotes with doubling when it holds whitespace), parses back to one argument at the start of
/// the line with exactly that text: the binary, or where the first argument is no binary, the
/// parameter at argument and parameter index 0. Left out are the texts that would not be read as one parameter: an empty text,
/// or one that begins with a quote character, a parse terminate character or (where it would
/// not be the binary) an option announcer.
pub proof fn lemma_reparse_value<O, P>(p: ParserView<O, P>, v: Seq<char>, q: char)
    requires
        p.quote_chars.contains(q),
        p.embed_quote_char_with_double,
        p.escape_char is None,
        !is_white_space(q),
        !p.parse_terminate_chars.contains(q),
        p.first_arg_is_binary || (p.matchers.len() == 0 && !p.option_announcer_chars.contains(q)),
        !has_white_space(v) ==> {
            &&& v.len() > 0
            &&& !p.quote_chars.contains(v[0])
            &&& !p.parse_terminate_chars.contains(v[0])
            &&& p.first_arg_is_binary || !p.option_announcer_chars.contains(v[0])
        },
    ensures
        parse_line_result(p, requoted(v, q)) == Ok::<Seq<ArgView>, ParseErrorView>(seq![sole_arg(p, v)]),
{
    if has_white_space(v) {
        lemma_quote_doubling_round_trip(p, v, q);
    } else {
        let s0 = start_state(p);
        let e = Seq::<ArgView>::empty();
        let s1 = advance(init_param(p, s0, v[0], p.first_arg_is_binary));
        assert(e + e =~= e);
        assert(run_chars(p, s0, e, v, 0) == run_chars(p, s1, e, v, 1));
        lemma_read_plain(p, s1, e, v, 1);
        let s2 = after_doubled(s1, v.subrange(1, v.len() as int), (v.len() - 1) as nat);
        assert(s2.value =~= v);
        assert(e + seq![binary_arg(s2)] =~= seq![binary_arg(s2)]);
        assert(e + seq![param_arg(s2, None)] =~= seq![param_arg(s2, None)]);
    }
}

/// Parsing a line is deterministic: two parses of the same line by the same parser (as
/// `Parser::parse_line` returns them) give the same arguments, with the same matcher indices,
/// positions and texts, or the same error.
pub proof fn lemma_parse_line_deterministic<O, P>(
    p: ParserView<O, P>,
    line: Seq<char>,
    r1: Result<Args, ParseError>,
    r2: Result<Args, ParseError>,
)
    requires
        parsed_as(r1, parse_line_result(p, line)),
        parsed_as(r2, parse_line_result(p, line)),
    ensures
        r1 is Ok <==> r2 is Ok,
        r1 matches Ok(a1) ==> (r2 matches Ok(a2) && args_view(a1@) == args_view(a2@)),
        r1 matches Err(e1) ==> (r2 matches Err(e2) && e1@ == e2@),
{
}

/// Parsing environment arguments is deterministic, as for a line.
pub proof fn lemma_parse_env_args_deterministic<O, P>(
    p: ParserView<O, P>,
    env: Seq<Seq<char>>,
    r1: Result<Args, ParseError>,
    r2: Result<Args, ParseError>,
)
    requires
        parsed_as(r1, parse_env_args_result(p, env)),
        parsed_as(r2, parse_env_args_result(p, env)),
    ensures
        r1 is Ok <==> r2 is Ok,
        r1 matches Ok(a1) ==> (r2 matches Ok(a2) && args_view(a1@) == args_view(a2@)),
        r1 matches Err(e1) ==> (r2 matches Err(e2) && e1@ == e2@),
{
}

} // verus!
