use parmacl::{
    Arg, EnvChar, EscapeableLogicalChar, MatchArgTypeId, OptionHasValue, ParseErrorTypeId, ParseState, Parser,
    RegexOrText,
};

fn values(args: &[Arg]) -> Vec<String> {
    args.iter()
        .map(|a| match a {
            Arg::Binary(b) => format!("binary:{}", b.value_text),
            Arg::Param(p) => format!("param{}:{}", p.param_index, p.value_text),
            Arg::Option(o) => match &o.value_text {
                Some(v) => format!("option{}:{}={}", o.option_index, o.code, v),
                None => format!("option{}:{}", o.option_index, o.code),
            },
        })
        .collect()
}

#[test]
fn scenario_no_matchers_six_args() {
    let parser: Parser = Parser::new();
    let args = parser.parse_line("binary param1 param2 -a -b param3").unwrap();
    assert_eq!(
        values(&args),
        vec!["binary:binary", "param0:param1", "param1:param2", "option0:a", "option1:b", "param2:param3"]
    );
    let arg_indices: Vec<usize> = args
        .iter()
        .map(|a| match a {
            Arg::Binary(b) => b.arg_index,
            Arg::Param(p) => p.arg_index,
            Arg::Option(o) => o.arg_index,
        })
        .collect();
    assert_eq!(arg_indices, vec![0, 1, 2, 3, 4, 5]);
}

#[test]
fn scenario_documented_example() {
    let line = r#""binary name" -a "1st ""Param""" -B optValue "param2" -c "C OptValue""#;
    let mut parser: Parser = Parser::new();
    parser.push_new_option_matcher("optionA").some_option_codes(vec![RegexOrText::with_text("a")]);
    parser
        .push_new_option_matcher("optionB")
        .some_option_codes(vec![RegexOrText::with_text("b")])
        .set_option_has_value(OptionHasValue::IfPossible);
    parser
        .push_new_option_matcher("optionC")
        .some_option_codes(vec![RegexOrText::with_text("c")])
        .set_option_has_value(OptionHasValue::Always);
    parser.push_new_param_matcher("param1").some_param_indices(vec![0]);
    parser.push_new_param_matcher("param2").some_param_indices(vec![1]);
    let args = parser.parse_line(line).unwrap();
    assert_eq!(args.len(), 6);
    assert_eq!(
        values(&args),
        vec![
            "binary:binary name",
            "option0:a",
            "param0:1st \"Param\"",
            "option1:B=optValue",
            "param1:param2",
            "option2:c=C OptValue"
        ]
    );
    match &args[2] {
        Arg::Param(p) => assert_eq!(parser.matchers()[p.matcher_index.unwrap()].name(), "param1"),
        _ => panic!("expected a parameter"),
    }
    match &args[3] {
        Arg::Option(o) => assert_eq!(parser.matchers()[o.matcher_index.unwrap()].name(), "optionB"),
        _ => panic!("expected an option"),
    }
}

#[test]
fn scenario_if_possible_value_rejected_surfaces_unmatched_param() {
    let mut parser: Parser = Parser::new();
    parser
        .push_new_option_matcher("optionC")
        .some_option_codes(vec![RegexOrText::with_text("c")])
        .set_option_has_value(OptionHasValue::IfPossible)
        .some_value_text(RegexOrText::with_text("only"));
    parser.push_new_param_matcher("late").some_param_indices(vec![5]);
    let err = parser.parse_line("bin -c word").unwrap_err();
    assert_eq!(err.type_id, ParseErrorTypeId::UnmatchedParam);
    assert_eq!(err.param_value_text, "word");
    assert_eq!(err.arg_index, 2);
    assert_eq!(err.param_index, Some(0));
}

#[test]
fn if_possible_value_rejected_becomes_param() {
    let mut parser: Parser = Parser::new();
    parser
        .push_new_option_matcher("optionC")
        .some_option_codes(vec![RegexOrText::with_text("c")])
        .set_option_has_value(OptionHasValue::IfPossible)
        .some_value_text(RegexOrText::with_text("only"));
    parser.push_new_param_matcher("any");
    let args = parser.parse_line("bin -c word").unwrap();
    assert_eq!(values(&args), vec!["binary:bin", "option0:c", "param0:word"]);
    match &args[2] {
        Arg::Param(p) => {
            assert_eq!(p.char_index, 7);
            assert_eq!(p.arg_index, 2);
        },
        _ => panic!("expected a parameter"),
    }
    let args = parser.parse_line("bin -c only").unwrap();
    assert_eq!(values(&args), vec!["binary:bin", "option0:c=only"]);
}

#[test]
fn scenario_multi_char_code_needs_double_announcer() {
    let mut parser: Parser = Parser::new();
    parser.set_multi_char_option_code_requires_double_announcer(true);
    let err = parser.parse_line("bin -abc").unwrap_err();
    assert_eq!(err.type_id, ParseErrorTypeId::OptionCodeMissingDoubleAnnouncer);
    assert_eq!(err.option_code, Some(String::from("abc")));
    let args = parser.parse_line("bin --abc -a").unwrap();
    assert_eq!(values(&args), vec!["binary:bin", "option0:abc", "option1:a"]);
}

#[test]
fn no_matchers_accept_every_token() {
    let parser: Parser = Parser::new();
    let args = parser.parse_line("x -- - y \"\" -z").unwrap();
    assert_eq!(values(&args), vec!["binary:x", "option0:-", "option1:", "param0:y", "param1:", "option2:z"]);
}

#[test]
fn quote_doubling_round_trip() {
    let parser: Parser = Parser::new();
    for value in ["", "plain", "a \"b\" c", "\"\"\"", "-dash \"", "tab\there"] {
        let line = format!("\"{}\"", value.replace('"', "\"\""));
        let args = parser.parse_line(&line).unwrap();
        assert_eq!(args.len(), 1);
        match &args[0] {
            Arg::Binary(b) => assert_eq!(b.value_text, value),
            _ => panic!("expected the binary"),
        }
    }
}

#[test]
fn parsing_twice_gives_the_same_args() {
    let mut parser: Parser = Parser::new();
    parser.push_new_option_matcher("o").set_option_has_value(OptionHasValue::IfPossible);
    parser.push_new_param_matcher("p");
    let line = "bin -o v first \"second one\" -q";
    assert_eq!(parser.parse_line(line).unwrap(), parser.parse_line(line).unwrap());
}

#[test]
fn reparsing_a_value_gives_it_back() {
    let parser: Parser = Parser::new();
    let args = parser.parse_line("bin \"two words\" single").unwrap();
    for arg in &args[1..] {
        if let Arg::Param(p) = arg {
            let line = if p.value_text.contains(' ') {
                format!("\"{}\"", p.value_text.replace('"', "\"\""))
            } else {
                p.value_text.clone()
            };
            let again = parser.parse_line(&line).unwrap();
            match &again[0] {
                Arg::Binary(b) => assert_eq!(b.value_text, p.value_text),
                _ => panic!("expected the binary"),
            }
        }
    }
}

#[test]
fn positions_are_exact_for_a_line() {
    let parser: Parser = Parser::new();
    let args = parser.parse_line("  bin  \"q\"  -x").unwrap();
    let starts: Vec<(usize, usize)> = args
        .iter()
        .map(|a| match a {
            Arg::Binary(b) => (b.char_index, b.env_line_approximate_char_index),
            Arg::Param(p) => (p.char_index, p.env_line_approximate_char_index),
            Arg::Option(o) => (o.char_index, o.env_line_approximate_char_index),
        })
        .collect();
    assert_eq!(starts, vec![(2, 2), (7, 7), (12, 12)]);
}

#[test]
fn empty_line_gives_no_args() {
    let parser: Parser = Parser::new();
    assert_eq!(parser.parse_line("").unwrap().len(), 0);
    assert_eq!(parser.parse_line("   ").unwrap().len(), 0);
}

#[test]
fn terminate_char_stops_parsing() {
    let mut parser: Parser = Parser::new();
    parser.set_parse_terminate_chars(&['|']);
    let args = parser.parse_line("bin a | b c").unwrap();
    assert_eq!(values(&args), vec!["binary:bin", "param0:a"]);
    let args = parser.parse_line("bin -x| b").unwrap();
    assert_eq!(values(&args), vec!["binary:bin", "option0:x"]);
}

#[test]
fn missing_closing_quote_errors() {
    let parser: Parser = Parser::new();
    let err = parser.parse_line("bin \"open").unwrap_err();
    assert_eq!(err.type_id, ParseErrorTypeId::ParamMissingClosingQuoteCharacter);
    assert_eq!(err.param_value_text, "open");
    let mut parser: Parser = Parser::new();
    parser.push_new_option_matcher("v").set_option_has_value(OptionHasValue::Always);
    let err = parser.parse_line("bin -v \"open").unwrap_err();
    assert_eq!(err.type_id, ParseErrorTypeId::OptionValueMissingClosingQuoteCharacter);
}

#[test]
fn quoted_text_must_end_at_whitespace() {
    let parser: Parser = Parser::new();
    let err = parser.parse_line("bin \"ab\"c").unwrap_err();
    assert_eq!(err.type_id, ParseErrorTypeId::QuotedParamNotFollowedByWhitespaceChar);
    assert_eq!(err.line_char_index, 8);
    let mut parser: Parser = Parser::new();
    parser.push_new_option_matcher("v").set_option_has_value(OptionHasValue::Always);
    let err = parser.parse_line("bin -v \"ab\"c").unwrap_err();
    assert_eq!(err.type_id, ParseErrorTypeId::QuotedOptionValueNotFollowedByWhitespaceChar);
}

#[test]
fn escape_character_errors_and_escapes() {
    let mut parser: Parser = Parser::new();
    parser.some_escape_char('\\');
    let args = parser.parse_line("bin a\\\\b").unwrap();
    assert_eq!(values(&args), vec!["binary:bin", "param0:a\\b"]);
    let err = parser.parse_line("bin a\\x").unwrap_err();
    assert_eq!(err.type_id, ParseErrorTypeId::EscapedCharacterInParamCannotBeEscaped);
    let err = parser.parse_line("bin a\\").unwrap_err();
    assert_eq!(err.type_id, ParseErrorTypeId::EscapeCharacterAtEndOfParam);
    let err = parser.parse_line("bin -a\\").unwrap_err();
    assert_eq!(err.type_id, ParseErrorTypeId::OptionCodeCannotContainEscapeChar);
    parser.set_escapeable_logical_chars(&[EscapeableLogicalChar::All]);
    let args = parser.parse_line("bin a\\x").unwrap();
    assert_eq!(values(&args), vec!["binary:bin", "param0:ax"]);
    parser.push_new_option_matcher("v").set_option_has_value(OptionHasValue::Always);
    let err = parser.parse_line("bin -v a\\").unwrap_err();
    assert_eq!(err.type_id, ParseErrorTypeId::EscapeCharacterAtEndOfOptionValue);
}

#[test]
fn option_code_cannot_hold_quote() {
    let parser: Parser = Parser::new();
    let err = parser.parse_line("bin -a\"b").unwrap_err();
    assert_eq!(err.type_id, ParseErrorTypeId::OptionCodeCannotContainQuoteChar);
}

#[test]
fn definite_value_announcer_needs_a_matcher_with_value() {
    let mut parser: Parser = Parser::new();
    parser.set_option_value_announcer_chars(&[' ', '=']);
    let err = parser.parse_line("bin -a=1").unwrap_err();
    assert_eq!(err.type_id, ParseErrorTypeId::NoMatchForOptionWithValue);
    parser.push_new_option_matcher("a").set_option_has_value(OptionHasValue::IfPossible);
    let args = parser.parse_line("bin -a=1 -a").unwrap();
    assert_eq!(values(&args), vec!["binary:bin", "option0:a=1", "option1:a"]);
}

#[test]
fn option_missing_value_error() {
    let mut parser: Parser = Parser::new();
    parser.push_new_option_matcher("v").set_option_has_value(OptionHasValue::Always);
    let err = parser.parse_line("bin -v").unwrap_err();
    assert_eq!(err.type_id, ParseErrorTypeId::UnmatchedOption);
    let err = parser.parse_line("bin -v ").unwrap_err();
    assert_eq!(err.type_id, ParseErrorTypeId::OptionMissingValue);
}

#[test]
fn value_cannot_start_with_announcer() {
    let mut parser: Parser = Parser::new();
    parser.push_new_option_matcher("v").set_option_has_value(OptionHasValue::Always);
    let err = parser.parse_line("bin -v -w").unwrap_err();
    assert_eq!(err.type_id, ParseErrorTypeId::OptionValueCannotStartWithOptionAnnouncer);
    assert_eq!(err.option_code, Some(String::from("v")));
    parser.clear_matchers();
    parser
        .push_new_option_matcher("v")
        .set_option_has_value(OptionHasValue::Always)
        .set_option_value_can_start_with_option_announcer(true);
    let args = parser.parse_line("bin -v -w").unwrap();
    assert_eq!(values(&args), vec!["binary:bin", "option0:v=-w"]);
}

#[test]
fn if_possible_before_option_has_no_value() {
    let mut parser: Parser = Parser::new();
    parser.push_new_option_matcher("v").set_option_has_value(OptionHasValue::IfPossible);
    let args = parser.parse_line("bin -v -v x").unwrap();
    assert_eq!(values(&args), vec!["binary:bin", "option0:v", "option1:v=x"]);
}

#[test]
fn unmatched_option_and_param() {
    let mut parser: Parser = Parser::new();
    parser.push_new_param_matcher("p").some_param_indices(vec![0]);
    let err = parser.parse_line("bin -x").unwrap_err();
    assert_eq!(err.type_id, ParseErrorTypeId::UnmatchedOption);
    assert_eq!(err.option_index, Some(0));
    let err = parser.parse_line("bin a b").unwrap_err();
    assert_eq!(err.type_id, ParseErrorTypeId::UnmatchedParam);
    assert_eq!(err.param_index, Some(1));
    assert_eq!(err.param_value_text, "b");
}

#[test]
fn matchers_are_tried_in_order() {
    let mut parser: Parser = Parser::new();
    parser.push_new_param_matcher("first").some_value_text(RegexOrText::with_text("x"));
    parser.push_new_param_matcher("second");
    parser.push_new_param_matcher("third");
    let args = parser.parse_line("bin X y").unwrap();
    let names: Vec<&str> = args[1..]
        .iter()
        .map(|a| match a {
            Arg::Param(p) => parser.matchers()[p.matcher_index.unwrap()].name(),
            _ => "",
        })
        .collect();
    assert_eq!(names, vec!["first", "second"]);
    assert_eq!(parser.matchers()[2].index(), 2);
}

#[test]
fn case_sensitivity_of_codes_and_text() {
    let mut parser: Parser = Parser::new();
    parser.push_new_option_matcher("o").some_option_codes(vec![RegexOrText::with_text("ÄB")]);
    assert!(parser.parse_line("bin -äb").is_ok());
    parser.set_option_codes_case_sensitive(true);
    assert_eq!(parser.parse_line("bin -äb").unwrap_err().type_id, ParseErrorTypeId::UnmatchedOption);
    assert!(parser.parse_line("bin -ÄB").is_ok());
}

#[test]
fn text_matching_upper_cases() {
    let t = RegexOrText::with_text("straße");
    assert!(t.is_match("STRASSE", false));
    assert!(!t.is_match("STRASSE", true));
    assert!(t.is_match("straße", true));
    let mut o = RegexOrText::with_text("Abc");
    o.set_override_case_sensitive(Some(true));
    assert!(!o.is_match("abc", false));
}

#[test]
fn regex_matching() {
    let r = RegexOrText::with_regex("^v[0-9]+$").unwrap();
    assert!(r.is_match("v12", true));
    assert!(!r.is_match("V12", true));
    assert!(r.is_match("V12", false));
    assert!(!r.is_match("v1x", false));
    assert!(r.is_regex());
    let err = RegexOrText::with_regex("(").unwrap_err();
    assert_eq!(err.pattern, "(");
    let mut parser: Parser = Parser::new();
    parser.push_new_param_matcher("version").some_value_text(RegexOrText::with_regex("^v[0-9]+$").unwrap());
    assert!(parser.parse_line("bin v2").is_ok());
    assert_eq!(parser.parse_line("bin w2").unwrap_err().type_id, ParseErrorTypeId::UnmatchedParam);
}

#[test]
fn env_args_positions_are_approximate() {
    let parser: Parser = Parser::with_env_args_defaults();
    let env: Vec<String> = ["prog", "param1", "-a", "x y"].iter().map(|s| s.to_string()).collect();
    let args = parser.parse_env_args(&env).unwrap();
    assert_eq!(values(&args), vec!["binary:prog", "param0:param1", "option0:a", "param1:x", "param2:y"]);
    match &args[2] {
        Arg::Option(o) => {
            assert_eq!(o.env_arg_index, 2);
            assert_eq!(o.char_index, 0);
            assert_eq!(o.env_line_approximate_char_index, 12);
        },
        _ => panic!("expected an option"),
    }
    match &args[4] {
        Arg::Param(p) => {
            assert_eq!(p.env_arg_index, 3);
            assert_eq!(p.char_index, 2);
            assert_eq!(p.env_line_approximate_char_index, 17);
        },
        _ => panic!("expected a parameter"),
    }
}

#[test]
fn env_args_option_value_in_next_arg() {
    let mut parser: Parser = Parser::with_env_args_defaults();
    parser.push_new_option_matcher("f").set_option_has_value(OptionHasValue::Always);
    let env: Vec<String> = ["prog", "-f", "file name"].iter().map(|s| s.to_string()).collect();
    let err = parser.parse_env_args(&env).unwrap_err();
    assert_eq!(err.type_id, ParseErrorTypeId::UnmatchedParam);
    assert_eq!(err.param_value_text, "name");
    let env: Vec<String> = ["prog", "-f", "file"].iter().map(|s| s.to_string()).collect();
    let args = parser.parse_env_args(&env).unwrap();
    assert_eq!(values(&args), vec!["binary:prog", "option0:f=file"]);
}

#[test]
fn process_char_single_steps() {
    let parser: Parser = Parser::new();
    let mut state = ParseState::new(false, false);
    let mut args = Vec::new();
    assert_eq!(parser.process_char(&mut state, EnvChar::Unicode('a'), &mut args).unwrap(), true);
    assert_eq!(args.len(), 0);
    assert_eq!(parser.process_char(&mut state, EnvChar::Separator, &mut args).unwrap(), true);
    assert_eq!(values(&args), vec!["param0:a"]);
    assert_eq!(EnvChar::Unicode(' ').try_get_unicode_non_whitespace(), None);
    assert_eq!(EnvChar::Unicode('z').try_get_unicode_non_whitespace(), Some('z'));
}

#[test]
fn error_texts() {
    assert_eq!(ParseErrorTypeId::UnmatchedParam.get_default_text(), "Parameter not matched");
    assert_eq!(
        ParseErrorTypeId::OptionCodeMissingDoubleAnnouncer.get_default_text(),
        "Option code missing double announcer"
    );
}

#[test]
fn matcher_builders_and_registry() {
    let mut parser: Parser = Parser::new();
    parser
        .push_new_matcher("m")
        .some_help("help")
        .some_arg_indices(vec![1])
        .some_arg_type(MatchArgTypeId::Param)
        .set_option_tag(3)
        .set_param_tag(4);
    parser.push_new_param_matcher("n");
    let m = parser.find_matcher("m").unwrap();
    assert_eq!(m.help(), &Some(String::from("help")));
    assert_eq!(m.arg_indices_as_slice(), &[1]);
    assert_eq!(*m.option_tag(), 3);
    assert_eq!(*m.param_tag(), 4);
    assert!(parser.delete_matcher("m"));
    assert!(!parser.delete_matcher("m"));
    assert_eq!(parser.matchers().len(), 1);
    assert!(parser.find_matcher("m").is_none());
}

#[test]
fn config_defaults() {
    let line: Parser = Parser::with_line_defaults();
    assert_eq!(line.quote_chars(), &['"']);
    assert!(line.embed_quote_char_with_double());
    let env: Parser = Parser::with_env_args_defaults();
    assert_eq!(env.quote_chars(), &[] as &[char]);
    assert!(!env.embed_quote_char_with_double());
    assert!(env.first_arg_is_binary());
}

#[test]
fn error_display_form() {
    let parser: Parser = Parser::new();
    let err = parser.parse_line("bin \"ab\"c").unwrap_err();
    assert_eq!(
        err.to_display_string(),
        "(Quoted parameter not followed by whitespace character) [l:8 a:1 p:0 t:\"ab\"]"
    );
    let mut parser: Parser = Parser::new();
    parser.set_multi_char_option_code_requires_double_announcer(true);
    let err = parser.parse_line("bin param -abc").unwrap_err();
    assert_eq!(
        err.to_display_string(),
        "(Option code missing double announcer) [l:14 a:2 o:0 c:\"abc\"]"
    );
}

#[test]
fn deleting_a_matcher_renumbers_the_rest() {
    let mut parser: Parser = Parser::new();
    parser.push_new_matcher("a");
    parser.push_new_matcher("b");
    parser.push_new_matcher("c");
    parser.delete_matcher_at(0);
    assert_eq!(parser.matchers()[0].name(), "b");
    assert_eq!(parser.matchers()[0].index(), 0);
    assert_eq!(parser.matchers()[1].index(), 1);
}

#[test]
fn whitespace_terminate_char_ends_parsing() {
    let mut parser: Parser = Parser::new();
    parser.set_parse_terminate_chars(&['\n']);
    let args = parser.parse_line("bin a \nb c").unwrap();
    assert_eq!(values(&args), vec!["binary:bin", "param0:a"]);
    let args = parser.parse_line("\nbin a").unwrap();
    assert_eq!(args.len(), 0);
}

#[test]
fn double_announcer_alone_is_the_announcer_code() {
    let mut parser: Parser = Parser::new();
    parser.set_multi_char_option_code_requires_double_announcer(true);
    let args = parser.parse_line("bin -- -a").unwrap();
    assert_eq!(values(&args), vec!["binary:bin", "option0:-", "option1:a"]);
}

#[test]
fn completed_code_records_whether_value_announcer_was_ambiguous() {
    let parser: Parser = Parser::new();
    let mut args = Vec::new();
    let mut state = ParseState::new(false, false);
    state.option_value_announcer_is_ambiguous = false;
    for c in ['-', 'x', ' '] {
        parser.process_char(&mut state, EnvChar::Unicode(c), &mut args).unwrap();
    }
    assert!(state.option_value_announcer_is_ambiguous);
    let mut state = ParseState::new(false, false);
    state.option_value_announcer_is_ambiguous = true;
    for c in ['-', 'x', '\t'] {
        parser.process_char(&mut state, EnvChar::Unicode(c), &mut args).unwrap();
    }
    assert!(!state.option_value_announcer_is_ambiguous);
    assert_eq!(values(&args), vec!["option0:x", "option0:x"]);
}

#[test]
fn failed_retry_leaves_args_unchanged() {
    let mut parser: Parser = Parser::new();
    parser
        .push_new_option_matcher("c")
        .some_option_codes(vec![RegexOrText::with_text("c")])
        .set_option_has_value(OptionHasValue::IfPossible)
        .some_value_text(RegexOrText::with_text("only"));
    let mut state = ParseState::new(false, false);
    let mut args = Vec::new();
    for c in ['-', 'c', ' ', 'w'] {
        parser.process_char(&mut state, EnvChar::Unicode(c), &mut args).unwrap();
    }
    let err = parser.process_char(&mut state, EnvChar::Separator, &mut args).unwrap_err();
    assert_eq!(err.type_id, ParseErrorTypeId::UnmatchedParam);
    assert_eq!(args.len(), 0);
}
