use vstd::prelude::*;

verus! {

#[verifier::external_type_specification]
#[verifier::external_body]
pub struct ExRegex(regex::Regex);

#[verifier::external_type_specification]
#[verifier::external_body]
pub struct ExRegexError(regex::Error);

/// Whether `pattern` compiles as a regular expression (case-insensitive when the flag is set).
pub uninterp spec fn pattern_compiles(pattern: Seq<char>, case_insensitive: bool) -> bool;

/// Whether the regular expression `pattern` (case-insensitive when the flag is set) matches
/// somewhere in `hay`.
pub uninterp spec fn pattern_found(pattern: Seq<char>, case_insensitive: bool, hay: Seq<char>) -> bool;

/// The upper-case form of `s`, by the Unicode case mapping.
pub uninterp spec fn upper_of(s: Seq<char>) -> Seq<char>;

/// Relies on `regex::RegexBuilder::build` (after `RegexBuilder::new` and `case_insensitive`):
/// whether compilation succeeds depends on the pattern and the flag alone.
#[verifier::external_body]
fn build_regex(pattern: &str, case_insensitive: bool) -> (r: Result<regex::Regex, regex::Error>)
    ensures
        r.is_ok() == pattern_compiles(pattern@, case_insensitive),
{
    regex::RegexBuilder::new(pattern).case_insensitive(case_insensitive).build()
}

/// Relies on `regex::Regex::is_match`: whether the compiled pattern matches somewhere in `hay`.
/// A `CompiledPattern` is only made by `CompiledPattern::build`, which compiles its `regex`
/// from its `source` with its `case_insensitive` flag.
#[verifier::external_body]
fn regex_is_match(p: &CompiledPattern, hay: &str) -> (r: bool)
    ensures
        r == pattern_found(p.source@, p.case_insensitive, hay@),
{
    p.regex.is_match(hay)
}

/// Relies on `str::to_uppercase`: the result depends on the characters alone.
#[verifier::external_body]
fn uppercase(s: &str) -> (r: String)
    ensures
        r@ == upper_of(s@),
{
    s.to_uppercase()
}

/// A regular expression compiled once, with the text and the flag it was compiled from.
/// `CompiledPattern::build` is the one place that makes a value of it.
#[derive(Debug)]
struct CompiledPattern {
    source: String,
    case_insensitive: bool,
    regex: regex::Regex,
}

impl CompiledPattern {
    fn build(source: &str, case_insensitive: bool) -> (r: Option<CompiledPattern>)
        ensures
            r.is_some() == pattern_compiles(source@, case_insensitive),
            r matches Some(p) ==> p.source@ == source@ && p.case_insensitive == case_insensitive,
    {
        match build_regex(source, case_insensitive) {
            Ok(regex) => Some(CompiledPattern { source: source.to_string(), case_insensitive, regex }),
            Err(_) => None,
        }
    }
}

/// Error returned when a regular expression does not compile.
#[derive(Debug, Clone, PartialEq, Eq)]
pub struct InvalidPatternError {
    /// The text of the pattern that did not compile.
    pub pattern: String,
}

/// Model of a [`RegexOrText`]: the text (or pattern source), whether it is a pattern, and the
/// case sensitivity that overrides the caller's.
pub struct RegexOrTextView {
    pub text: Seq<char>,
    pub is_regex: bool,
    pub override_case_sensitive: Option<bool>,
}

/// The case sensitivity that applies when `cs` is asked for.
pub open spec fn effective_case_sensitive(r: RegexOrTextView, cs: bool) -> bool {
    match r.override_case_sensitive {
        Some(o) => o,
        None => cs,
    }
}

/// Whether `value` is accepted by `r` when case sensitivity `cs` is asked for.
pub open spec fn rot_matches(r: RegexOrTextView, value: Seq<char>, cs: bool) -> bool {
    let e = effective_case_sensitive(r, cs);
    if r.is_regex {
        pattern_found(r.text, !e, value)
    } else if e {
        value == r.text
    } else {
        upper_of(value) == upper_of(r.text)
    }
}

/// Either a literal text or a regular expression, used by matcher filters to test option
/// codes, option values and parameter text.
#[derive(Debug)]
pub struct RegexOrText {
    text: String,
    override_case_sensitive: Option<bool>,
    is_regex: bool,
    uppercase_text: Option<String>,
    regex: Option<CompiledPattern>,
    case_insensitive_regex: Option<CompiledPattern>,
}

impl View for RegexOrText {
    type V = RegexOrTextView;

    closed spec fn view(&self) -> RegexOrTextView {
        RegexOrTextView {
            text: self.text@,
            is_regex: self.is_regex,
            override_case_sensitive: self.override_case_sensitive,
        }
    }
}

impl RegexOrText {
    #[verifier::type_invariant]
    closed spec fn inv(self) -> bool {
        if self.is_regex {
            &&& self.regex matches Some(p) && p.source@ == self.text@ && !p.case_insensitive
            &&& self.case_insensitive_regex matches Some(p) && p.source@ == self.text@
                && p.case_insensitive
            &&& self.uppercase_text is None
        } else {
            &&& self.uppercase_text matches Some(u) && u@ == upper_of(self.text@)
            &&& self.regex is None
            &&& self.case_insensitive_regex is None
        }
    }

    /// Create a `RegexOrText` which matches the given text.
    pub fn with_text(text: &str) -> (r: Self)
        ensures
            r@ == (RegexOrTextView { text: text@, is_regex: false, override_case_sensitive: None }),
    {
        RegexOrText {
            text: text.to_string(),
            override_case_sensitive: None,
            is_regex: false,
            uppercase_text: Some(uppercase(text)),
            regex: None,
            case_insensitive_regex: None,
        }
    }

    /// Create a `RegexOrText` which matches with the regular expression `pattern`. Both the
    /// case-sensitive and the case-insensitive forms are compiled here, once.
    pub fn with_regex(pattern: &str) -> (r: Result<Self, InvalidPatternError>)
        ensures
            r.is_ok() == (pattern_compiles(pattern@, false) && pattern_compiles(pattern@, true)),
            r matches Ok(v) ==> v@ == (RegexOrTextView {
                text: pattern@,
                is_regex: true,
                override_case_sensitive: None,
            }),
            r matches Err(e) ==> e.pattern@ == pattern@,
    {
        let sensitive = CompiledPattern::build(pattern, false);
        let insensitive = CompiledPattern::build(pattern, true);
        if sensitive.is_some() && insensitive.is_some() {
            Ok(RegexOrText {
                text: pattern.to_string(),
                override_case_sensitive: None,
                is_regex: true,
                uppercase_text: None,
                regex: sensitive,
                case_insensitive_regex: insensitive,
            })
        } else {
            Err(InvalidPatternError { pattern: pattern.to_string() })
        }
    }

    /// Test whether `value` is accepted. `case_sensitive` is replaced by
    /// the override, if there is one.
    pub fn is_match(&self, value: &str, case_sensitive: bool) -> (r: bool)
        ensures
            r == rot_matches(self@, value@, case_sensitive),
    {
        proof { use_type_invariant(self); }
        let effective = match self.override_case_sensitive {
            Some(o) => o,
            None => case_sensitive,
        };
        if self.is_regex {
            let compiled = if effective {
                &self.regex
            } else {
                &self.case_insensitive_regex
            };
            match compiled {
                Some(p) => regex_is_match(p, value),
                None => false,
            }
        } else if effective {
            value.to_string() == self.text
        } else {
            let upper_value = uppercase(value);
            match &self.uppercase_text {
                Some(u) => upper_value == *u,
                None => false,
            }
        }
    }

    /// The text, or the source of the pattern.
    pub fn text(&self) -> (r: &str)
        ensures
            r@ == self@.text,
    {
        self.text.as_str()
    }

    /// Match the given text from now on; the override stays.
    pub fn set_text(&mut self, value: &str) -> (r: &mut Self)
        ensures
            r@ == (RegexOrTextView { text: value@, is_regex: false, ..old(self)@ }),
            *final(self) == *final(r),
    {
        let override_case_sensitive = self.override_case_sensitive;
        *self = RegexOrText {
            text: value.to_string(),
            override_case_sensitive,
            is_regex: false,
            uppercase_text: Some(uppercase(value)),
            regex: None,
            case_insensitive_regex: None,
        };
        self
    }

    /// The upper-case form of the text, when it is a text and not a pattern.
    pub fn get_uppercase_text(&self) -> (r: &Option<String>)
        ensures
            !self@.is_regex ==> (r matches Some(u) && u@ == upper_of(self@.text)),
            self@.is_regex ==> r is None,
    {
        proof { use_type_invariant(self); }
        &self.uppercase_text
    }

    /// Whether this matches with a regular expression.
    pub fn is_regex(&self) -> (r: bool)
        ensures
            r == self@.is_regex,
    {
        self.is_regex
    }

    /// The case-sensitive compiled pattern, when this is a pattern.
    pub fn regex(&self) -> (r: Option<&regex::Regex>)
        ensures
            r.is_some() == self@.is_regex,
    {
        proof { use_type_invariant(self); }
        match &self.regex {
            Some(p) => Some(&p.regex),
            None => None,
        }
    }

    /// Match with the regular expression `pattern` from now on; the override stays. When the
    /// pattern does not compile, nothing changes.
    pub fn set_regex(&mut self, pattern: &str) -> (r: Result<(), InvalidPatternError>)
        ensures
            r.is_ok() == (pattern_compiles(pattern@, false) && pattern_compiles(pattern@, true)),
            r is Ok ==> final(self)@ == (RegexOrTextView { text: pattern@, is_regex: true, ..old(self)@ }),
            r is Err ==> final(self)@ == old(self)@,
    {
        match RegexOrText::with_regex(pattern) {
            Ok(v) => {
                let override_case_sensitive = self.override_case_sensitive;
                let mut v = v;
                v.set_override_case_sensitive(override_case_sensitive);
                *self = v;
                Ok(())
            },
            Err(e) => Err(e),
        }
    }

    /// The case sensitivity that replaces the one asked for, if any.
    pub fn override_case_sensitive(&self) -> (r: Option<bool>)
        ensures
            r == self@.override_case_sensitive,
    {
        self.override_case_sensitive
    }

    pub fn set_override_case_sensitive(&mut self, value: Option<bool>) -> (r: &mut Self)
        ensures
            r@ == (RegexOrTextView { override_case_sensitive: value, ..old(self)@ }),
            *final(self) == *final(r),
    {
        proof { use_type_invariant(&*self); }
        self.override_case_sensitive = value;
        self
    }
}

} // verus!
