use vstd::prelude::*;
use crate::regex_or_text::{RegexOrText, RegexOrTextView};

verus! {

/// The tag type used when a parser is not given tag types of its own.
pub type DefaultTagType = usize;

/// Whether an option argument has a value.
#[derive(Clone, Copy, Debug, PartialEq, Eq, Structural)]
pub enum OptionHasValue {
    /// The option must have a value.
    Always,
    /// The option has a value if the next token can be one.
    IfPossible,
    /// The option never has a value.
    Never,
}

/// The type of argument a matcher accepts.
#[derive(Clone, Copy, Debug, PartialEq, Eq, Structural)]
pub enum MatchArgTypeId {
    /// Option arguments.
    Option,
    /// Parameter arguments.
    Param,
}

/// Value of [`Matcher::option_has_value`] in a new matcher.
pub const DEFAULT_OPTION_HAS_VALUE: OptionHasValue = OptionHasValue::Never;

/// Model of a [`Matcher`].
pub struct MatcherView<O, P> {
    pub index: nat,
    pub name: Seq<char>,
    pub help: Option<Seq<char>>,
    pub option_tag: O,
    pub param_tag: P,
    pub arg_indices: Option<Seq<usize>>,
    pub arg_type: Option<MatchArgTypeId>,
    pub option_indices: Option<Seq<usize>>,
    pub option_codes: Option<Seq<RegexOrTextView>>,
    pub option_has_value: OptionHasValue,
    pub option_value_can_start_with_option_announcer: bool,
    pub param_indices: Option<Seq<usize>>,
    pub value_text: Option<RegexOrTextView>,
}

pub open spec fn opt_seq(o: Option<Vec<usize>>) -> Option<Seq<usize>> {
    match o {
        Some(v) => Some(v@),
        None => None,
    }
}

pub open spec fn codes_view(v: Seq<RegexOrText>) -> Seq<RegexOrTextView> {
    v.map_values(|r: RegexOrText| r@)
}

pub open spec fn opt_codes(o: Option<Vec<RegexOrText>>) -> Option<Seq<RegexOrTextView>> {
    match o {
        Some(v) => Some(codes_view(v@)),
        None => None,
    }
}

pub open spec fn opt_rot(o: Option<RegexOrText>) -> Option<RegexOrTextView> {
    match o {
        Some(v) => Some(v@),
        None => None,
    }
}

pub open spec fn opt_string(o: Option<String>) -> Option<Seq<char>> {
    match o {
        Some(v) => Some(v@),
        None => None,
    }
}

/// A set of filters which, all together, accept or reject an argument, with the tags
/// that identify the arguments it accepts. Unset filters accept everything.
#[derive(Debug)]
pub struct Matcher<O: Default = DefaultTagType, P: Default = DefaultTagType> {
    index: usize,
    name: String,
    help: Option<String>,
    option_tag: O,
    param_tag: P,
    arg_indices: Option<Vec<usize>>,
    arg_type: Option<MatchArgTypeId>,
    option_indices: Option<Vec<usize>>,
    option_codes: Option<Vec<RegexOrText>>,
    option_has_value: OptionHasValue,
    option_value_can_start_with_option_announcer: bool,
    param_indices: Option<Vec<usize>>,
    value_text: Option<RegexOrText>,
}

/// A list of matchers, tried in order.
pub type Matchers<O, P> = Vec<Matcher<O, P>>;

impl<O: Default, P: Default> View for Matcher<O, P> {
    type V = MatcherView<O, P>;

    closed spec fn view(&self) -> MatcherView<O, P> {
        MatcherView {
            index: self.index as nat,
            name: self.name@,
            help: opt_string(self.help),
            option_tag: self.option_tag,
            param_tag: self.param_tag,
            arg_indices: opt_seq(self.arg_indices),
            arg_type: self.arg_type,
            option_indices: opt_seq(self.option_indices),
            option_codes: opt_codes(self.option_codes),
            option_has_value: self.option_has_value,
            option_value_can_start_with_option_announcer: self.option_value_can_start_with_option_announcer,
            param_indices: opt_seq(self.param_indices),
            value_text: opt_rot(self.value_text),
        }
    }
}

/// A matcher with the given name, type filter and tags, and no other filter.
pub open spec fn fresh_matcher<O, P>(name: Seq<char>, arg_type: Option<MatchArgTypeId>, option_tag: O, param_tag: P) -> MatcherView<O, P> {
    MatcherView {
        index: 0,
        name,
        help: None,
        option_tag,
        param_tag,
        arg_indices: None,
        arg_type,
        option_indices: None,
        option_codes: None,
        option_has_value: DEFAULT_OPTION_HAS_VALUE,
        option_value_can_start_with_option_announcer: false,
        param_indices: None,
        value_text: None,
    }
}

impl<O: Default, P: Default> Matcher<O, P> {
    fn with_type(name: &str, arg_type: Option<MatchArgTypeId>) -> (r: Self)
        ensures
            r@ == fresh_matcher(name@, arg_type, r@.option_tag, r@.param_tag),
    {
        Matcher {
            index: 0,
            name: name.to_string(),
            help: None,
            option_tag: O::default(),
            param_tag: P::default(),
            arg_indices: None,
            arg_type,
            option_indices: None,
            option_codes: None,
            option_has_value: DEFAULT_OPTION_HAS_VALUE,
            option_value_can_start_with_option_announcer: false,
            param_indices: None,
            value_text: None,
        }
    }

    /// A matcher that accepts every argument.
    pub fn new(name: &str) -> (r: Self)
        ensures
            r@ == fresh_matcher(name@, None, r@.option_tag, r@.param_tag),
    {
        Self::with_type(name, None)
    }

    /// A matcher that accepts option arguments only.
    pub fn new_option(name: &str) -> (r: Self)
        ensures
            r@ == fresh_matcher(name@, Some(MatchArgTypeId::Option), r@.option_tag, r@.param_tag),
    {
        Self::with_type(name, Some(MatchArgTypeId::Option))
    }

    /// A matcher that accepts parameter arguments only.
    pub fn new_param(name: &str) -> (r: Self)
        ensures
            r@ == fresh_matcher(name@, Some(MatchArgTypeId::Param), r@.option_tag, r@.param_tag),
    {
        Self::with_type(name, Some(MatchArgTypeId::Param))
    }

    pub(crate) fn set_index(&mut self, value: usize)
        ensures
            final(self)@ == (MatcherView { index: value as nat, ..old(self)@ }),
    {
        self.index = value;
    }

    /// Position of this matcher in its parser's list, set when it was pushed.
    pub fn index(&self) -> (r: usize)
        ensures
            r as nat == self@.index,
    {
        self.index
    }

    pub fn name(&self) -> (r: &str)
        ensures
            r@ == self@.name,
    {
        self.name.as_str()
    }

    pub fn help(&self) -> (r: &Option<String>)
        ensures
            opt_string(*r) == self@.help,
    {
        &self.help
    }

    pub fn option_tag(&self) -> (r: &O)
        ensures
            *r == self@.option_tag,
    {
        &self.option_tag
    }

    pub fn param_tag(&self) -> (r: &P)
        ensures
            *r == self@.param_tag,
    {
        &self.param_tag
    }

    pub fn arg_indices(&self) -> (r: &Option<Vec<usize>>)
        ensures
            opt_seq(*r) == self@.arg_indices,
    {
        &self.arg_indices
    }

    pub fn arg_type(&self) -> (r: &Option<MatchArgTypeId>)
        ensures
            *r == self@.arg_type,
    {
        &self.arg_type
    }

    pub fn option_indices(&self) -> (r: &Option<Vec<usize>>)
        ensures
            opt_seq(*r) == self@.option_indices,
    {
        &self.option_indices
    }

    pub fn param_indices(&self) -> (r: &Option<Vec<usize>>)
        ensures
            opt_seq(*r) == self@.param_indices,
    {
        &self.param_indices
    }

    pub fn option_codes(&self) -> (r: &Option<Vec<RegexOrText>>)
        ensures
            opt_codes(*r) == self@.option_codes,
    {
        &self.option_codes
    }

    pub fn option_has_value(&self) -> (r: &OptionHasValue)
        ensures
            *r == self@.option_has_value,
    {
        &self.option_has_value
    }

    pub fn option_value_can_start_with_option_announcer(&self) -> (r: bool)
        ensures
            r == self@.option_value_can_start_with_option_announcer,
    {
        self.option_value_can_start_with_option_announcer
    }

    pub fn value_text(&self) -> (r: &Option<RegexOrText>)
        ensures
            opt_rot(*r) == self@.value_text,
    {
        &self.value_text
    }

    pub fn arg_indices_as_slice(&self) -> (r: &[usize])
        ensures
            r@ == match self@.arg_indices { Some(s) => s, None => Seq::empty() },
    {
        match &self.arg_indices {
            Some(v) => v.as_slice(),
            None => &[],
        }
    }

    pub fn option_indices_as_slice(&self) -> (r: &[usize])
        ensures
            r@ == match self@.option_indices { Some(s) => s, None => Seq::empty() },
    {
        match &self.option_indices {
            Some(v) => v.as_slice(),
            None => &[],
        }
    }

    pub fn param_indices_as_slice(&self) -> (r: &[usize])
        ensures
            r@ == match self@.param_indices { Some(s) => s, None => Seq::empty() },
    {
        match &self.param_indices {
            Some(v) => v.as_slice(),
            None => &[],
        }
    }

    pub fn option_codes_as_slice(&self) -> (r: &[RegexOrText])
        ensures
            codes_view(r@) == match self@.option_codes { Some(s) => s, None => Seq::empty() },
    {
        match &self.option_codes {
            Some(v) => v.as_slice(),
            None => &[],
        }
    }

    pub fn set_name(&mut self, value: &str) -> (r: &mut Self)
        ensures
            r@ == (MatcherView { name: value@, ..old(self)@ }),
            *final(self) == *final(r),
    {
        self.name = value.to_string();
        self
    }

    pub fn set_help(&mut self, value: Option<String>) -> (r: &mut Self)
        ensures
            r@ == (MatcherView { help: opt_string(value), ..old(self)@ }),
            *final(self) == *final(r),
    {
        self.help = value;
        self
    }

    pub fn some_help(&mut self, value: &str) -> (r: &mut Self)
        ensures
            r@ == (MatcherView { help: Some(value@), ..old(self)@ }),
            *final(self) == *final(r),
    {
        self.help = Some(value.to_string());
        self
    }

    pub fn none_help(&mut self) -> (r: &mut Self)
        ensures
            r@ == (MatcherView { help: None, ..old(self)@ }),
            *final(self) == *final(r),
    {
        self.help = None;
        self
    }

    pub fn set_option_tag(&mut self, value: O) -> (r: &mut Self)
        ensures
            r@ == (MatcherView { option_tag: value, ..old(self)@ }),
            *final(self) == *final(r),
    {
        self.option_tag = value;
        self
    }

    pub fn set_param_tag(&mut self, value: P) -> (r: &mut Self)
        ensures
            r@ == (MatcherView { param_tag: value, ..old(self)@ }),
            *final(self) == *final(r),
    {
        self.param_tag = value;
        self
    }

    pub fn set_arg_indices(&mut self, value: Option<Vec<usize>>) -> (r: &mut Self)
        ensures
            r@ == (MatcherView { arg_indices: opt_seq(value), ..old(self)@ }),
            *final(self) == *final(r),
    {
        self.arg_indices = value;
        self
    }

    pub fn some_arg_indices(&mut self, value: Vec<usize>) -> (r: &mut Self)
        ensures
            r@ == (MatcherView { arg_indices: Some(value@), ..old(self)@ }),
            *final(self) == *final(r),
    {
        self.arg_indices = Some(value);
        self
    }

    pub fn none_arg_indices(&mut self) -> (r: &mut Self)
        ensures
            r@ == (MatcherView { arg_indices: None, ..old(self)@ }),
            *final(self) == *final(r),
    {
        self.arg_indices = None;
        self
    }

    pub fn set_arg_type(&mut self, value: Option<MatchArgTypeId>) -> (r: &mut Self)
        ensures
            r@ == (MatcherView { arg_type: value, ..old(self)@ }),
            *final(self) == *final(r),
    {
        self.arg_type = value;
        self
    }

    pub fn some_arg_type(&mut self, value: MatchArgTypeId) -> (r: &mut Self)
        ensures
            r@ == (MatcherView { arg_type: Some(value), ..old(self)@ }),
            *final(self) == *final(r),
    {
        self.arg_type = Some(value);
        self
    }

    pub fn none_arg_type(&mut self) -> (r: &mut Self)
        ensures
            r@ == (MatcherView { arg_type: None, ..old(self)@ }),
            *final(self) == *final(r),
    {
        self.arg_type = None;
        self
    }

    pub fn set_option_indices(&mut self, value: Option<Vec<usize>>) -> (r: &mut Self)
        ensures
            r@ == (MatcherView { option_indices: opt_seq(value), ..old(self)@ }),
            *final(self) == *final(r),
    {
        self.option_indices = value;
        self
    }

    pub fn some_option_indices(&mut self, value: Vec<usize>) -> (r: &mut Self)
        ensures
            r@ == (MatcherView { option_indices: Some(value@), ..old(self)@ }),
            *final(self) == *final(r),
    {
        self.option_indices = Some(value);
        self
    }

    pub fn none_option_indices(&mut self) -> (r: &mut Self)
        ensures
            r@ == (MatcherView { option_indices: None, ..old(self)@ }),
            *final(self) == *final(r),
    {
        self.option_indices = None;
        self
    }

    pub fn set_param_indices(&mut self, value: Option<Vec<usize>>) -> (r: &mut Self)
        ensures
            r@ == (MatcherView { param_indices: opt_seq(value), ..old(self)@ }),
            *final(self) == *final(r),
    {
        self.param_indices = value;
        self
    }

    pub fn some_param_indices(&mut self, value: Vec<usize>) -> (r: &mut Self)
        ensures
            r@ == (MatcherView { param_indices: Some(value@), ..old(self)@ }),
            *final(self) == *final(r),
    {
        self.param_indices = Some(value);
        self
    }

    pub fn none_param_indices(&mut self) -> (r: &mut Self)
        ensures
            r@ == (MatcherView { param_indices: None, ..old(self)@ }),
            *final(self) == *final(r),
    {
        self.param_indices = None;
        self
    }

    pub fn set_option_codes(&mut self, value: Option<Vec<RegexOrText>>) -> (r: &mut Self)
        ensures
            r@ == (MatcherView { option_codes: opt_codes(value), ..old(self)@ }),
            *final(self) == *final(r),
    {
        self.option_codes = value;
        self
    }

    pub fn some_option_codes(&mut self, value: Vec<RegexOrText>) -> (r: &mut Self)
        ensures
            r@ == (MatcherView { option_codes: Some(codes_view(value@)), ..old(self)@ }),
            *final(self) == *final(r),
    {
        self.option_codes = Some(value);
        self
    }

    pub fn none_option_codes(&mut self) -> (r: &mut Self)
        ensures
            r@ == (MatcherView { option_codes: None, ..old(self)@ }),
            *final(self) == *final(r),
    {
        self.option_codes = None;
        self
    }

    pub fn set_option_has_value(&mut self, value: OptionHasValue) -> (r: &mut Self)
        ensures
            r@ == (MatcherView { option_has_value: value, ..old(self)@ }),
            *final(self) == *final(r),
    {
        self.option_has_value = value;
        self
    }

    pub fn set_option_value_can_start_with_option_announcer(&mut self, value: bool) -> (r: &mut Self)
        ensures
            r@ == (MatcherView { option_value_can_start_with_option_announcer: value, ..old(self)@ }),
            *final(self) == *final(r),
    {
        self.option_value_can_start_with_option_announcer = value;
        self
    }

    pub fn set_value_text(&mut self, value: Option<RegexOrText>) -> (r: &mut Self)
        ensures
            r@ == (MatcherView { value_text: opt_rot(value), ..old(self)@ }),
            *final(self) == *final(r),
    {
        self.value_text = value;
        self
    }

    pub fn some_value_text(&mut self, value: RegexOrText) -> (r: &mut Self)
        ensures
            r@ == (MatcherView { value_text: Some(value@), ..old(self)@ }),
            *final(self) == *final(r),
    {
        self.value_text = Some(value);
        self
    }

    pub fn none_value_text(&mut self) -> (r: &mut Self)
        ensures
            r@ == (MatcherView { value_text: None, ..old(self)@ }),
            *final(self) == *final(r),
    {
        self.value_text = None;
        self
    }
}


impl<O: Default, P: Default> Default for Matcher<O, P> {
    /// A matcher with an empty name that accepts every argument.
    fn default() -> (r: Self)
        ensures
            r@ == fresh_matcher(Seq::empty(), None, r@.option_tag, r@.param_tag),
    {
        let r = Self::with_type("", None);
        proof {
            reveal_strlit("");
            assert(r@.name =~= Seq::<char>::empty());
        }
        r
    }
}

} // verus!
