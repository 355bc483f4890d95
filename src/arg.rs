use vstd::prelude::*;

verus! {

/// Where an argument stands: common to every kind of parsed argument.
pub struct ArgPosView {
    pub char_index: nat,
    pub env_line_approximate_char_index: nat,
    pub arg_index: nat,
    pub env_arg_index: nat,
}

/// Model of a parsed [`Arg`]. `matcher_index` is `None` when the parser had no matchers and
/// the argument was accepted by the built-in matcher that accepts everything.
pub enum ArgView {
    Binary { pos: ArgPosView, value_text: Seq<char> },
    Param { pos: ArgPosView, matcher_index: Option<nat>, param_index: nat, value_text: Seq<char> },
    Option {
        pos: ArgPosView,
        matcher_index: Option<nat>,
        option_index: nat,
        code: Seq<char>,
        value_text: Option<Seq<char>>,
    },
}

/// Getters for the properties that every kind of parsed argument has.
pub trait ArgProperties {
    /// Index in the parser's matcher list of the matcher that accepted the argument, or
    /// `None` when the built-in matcher accepted it (no matchers, or the binary argument).
    fn matcher_index(&self) -> Option<usize>;
    /// Index of the character where the argument started: in the line, or in the environment
    /// argument where it started.
    fn char_index(&self) -> usize;
    /// Approximate index in the line where the argument started. Exact when a line is parsed.
    fn env_line_approximate_char_index(&self) -> usize;
    /// Index of the argument.
    fn arg_index(&self) -> usize;
    /// Index of the environment argument in which the argument started (0 for a line).
    fn env_arg_index(&self) -> usize;
}

/// Properties of an option argument.
#[derive(Debug, Clone, PartialEq, Eq)]
pub struct OptionProperties {
    /// Index of the matcher that accepted it (`None`: the parser had no matchers).
    pub matcher_index: Option<usize>,
    pub char_index: usize,
    pub env_line_approximate_char_index: usize,
    pub arg_index: usize,
    pub env_arg_index: usize,
    /// Index among the option arguments.
    pub option_index: usize,
    /// The option code.
    pub code: String,
    /// The option value, if the option has one.
    pub value_text: Option<String>,
}

/// Properties of a parameter argument.
#[derive(Debug, Clone, PartialEq, Eq)]
pub struct ParamProperties {
    /// Index of the matcher that accepted it (`None`: the parser had no matchers).
    pub matcher_index: Option<usize>,
    pub char_index: usize,
    pub env_line_approximate_char_index: usize,
    pub arg_index: usize,
    pub env_arg_index: usize,
    /// Index among the parameter arguments.
    pub param_index: usize,
    /// The parameter text.
    pub value_text: String,
}

/// Properties of the binary argument (the first one, when so configured).
#[derive(Debug, Clone, PartialEq, Eq)]
pub struct BinaryProperties {
    pub char_index: usize,
    pub env_line_approximate_char_index: usize,
    pub arg_index: usize,
    pub env_arg_index: usize,
    /// Text naming the binary.
    pub value_text: String,
}

impl ArgProperties for OptionProperties {
    fn matcher_index(&self) -> Option<usize> {
        self.matcher_index
    }

    fn char_index(&self) -> usize {
        self.char_index
    }

    fn env_line_approximate_char_index(&self) -> usize {
        self.env_line_approximate_char_index
    }

    fn arg_index(&self) -> usize {
        self.arg_index
    }

    fn env_arg_index(&self) -> usize {
        self.env_arg_index
    }
}

impl ArgProperties for ParamProperties {
    fn matcher_index(&self) -> Option<usize> {
        self.matcher_index
    }

    fn char_index(&self) -> usize {
        self.char_index
    }

    fn env_line_approximate_char_index(&self) -> usize {
        self.env_line_approximate_char_index
    }

    fn arg_index(&self) -> usize {
        self.arg_index
    }

    fn env_arg_index(&self) -> usize {
        self.env_arg_index
    }
}

impl ArgProperties for BinaryProperties {
    fn matcher_index(&self) -> Option<usize> {
        None
    }

    fn char_index(&self) -> usize {
        self.char_index
    }

    fn env_line_approximate_char_index(&self) -> usize {
        self.env_line_approximate_char_index
    }

    fn arg_index(&self) -> usize {
        self.arg_index
    }

    fn env_arg_index(&self) -> usize {
        self.env_arg_index
    }
}

/// A parsed argument.
#[derive(Debug, Clone, PartialEq, Eq)]
pub enum Arg {
    /// The first argument, which normally names the binary.
    Binary(BinaryProperties),
    /// A parameter argument.
    Param(ParamProperties),
    /// An option argument.
    Option(OptionProperties),
}

/// The parsed arguments, in the order in which they appear.
pub type Args = Vec<Arg>;

pub open spec fn opt_index(o: Option<usize>) -> Option<nat> {
    match o {
        Some(v) => Some(v as nat),
        None => None,
    }
}

pub open spec fn opt_value(o: Option<String>) -> Option<Seq<char>> {
    match o {
        Some(v) => Some(v@),
        None => None,
    }
}

impl View for Arg {
    type V = ArgView;

    open spec fn view(&self) -> ArgView {
        match self {
            Arg::Binary(b) => ArgView::Binary {
                pos: ArgPosView {
                    char_index: b.char_index as nat,
                    env_line_approximate_char_index: b.env_line_approximate_char_index as nat,
                    arg_index: b.arg_index as nat,
                    env_arg_index: b.env_arg_index as nat,
                },
                value_text: b.value_text@,
            },
            Arg::Param(p) => ArgView::Param {
                pos: ArgPosView {
                    char_index: p.char_index as nat,
                    env_line_approximate_char_index: p.env_line_approximate_char_index as nat,
                    arg_index: p.arg_index as nat,
                    env_arg_index: p.env_arg_index as nat,
                },
                matcher_index: opt_index(p.matcher_index),
                param_index: p.param_index as nat,
                value_text: p.value_text@,
            },
            Arg::Option(o) => ArgView::Option {
                pos: ArgPosView {
                    char_index: o.char_index as nat,
                    env_line_approximate_char_index: o.env_line_approximate_char_index as nat,
                    arg_index: o.arg_index as nat,
                    env_arg_index: o.env_arg_index as nat,
                },
                matcher_index: opt_index(o.matcher_index),
                option_index: o.option_index as nat,
                code: o.code@,
                value_text: opt_value(o.value_text),
            },
        }
    }
}

/// Model of a list of parsed arguments.
pub open spec fn args_view(args: Seq<Arg>) -> Seq<ArgView> {
    args.map_values(|a: Arg| a@)
}

} // verus!
