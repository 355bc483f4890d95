use vstd::prelude::*;

verus! {

/// Whether `c` has the Unicode `White_Space` property.
pub open spec fn is_white_space(c: char) -> bool {
    let u = c as u32;
    (0x09 <= u && u <= 0x0d) || u == 0x20 || u == 0x85 || u == 0xa0 || u == 0x1680
        || (0x2000 <= u && u <= 0x200a) || u == 0x2028 || u == 0x2029 || u == 0x202f
        || u == 0x205f || u == 0x3000
}

/// Executable test for the Unicode `White_Space` property.
pub fn char_is_whitespace(c: char) -> (r: bool)
    ensures
        r == is_white_space(c),
{
    let u = c as u32;
    (0x09 <= u && u <= 0x0d) || u == 0x20 || u == 0x85 || u == 0xa0 || u == 0x1680
        || (0x2000 <= u && u <= 0x200a) || u == 0x2028 || u == 0x2029 || u == 0x202f
        || u == 0x205f || u == 0x3000
}

/// One unit of input fed to the parser: a character, or the boundary between two
/// environment arguments.
#[derive(Clone, Copy, Debug, PartialEq, Eq, Structural)]
pub enum EnvChar {
    Separator,
    Unicode(char),
}

impl EnvChar {
    /// The character, unless this is a separator or a whitespace character.
    pub open spec fn non_whitespace(self) -> Option<char> {
        match self {
            EnvChar::Separator => None,
            EnvChar::Unicode(c) => if is_white_space(c) { None } else { Some(c) },
        }
    }

    pub fn try_get_unicode_non_whitespace(&self) -> (r: Option<char>)
        ensures
            r == self.non_whitespace(),
    {
        match self {
            EnvChar::Separator => None,
            EnvChar::Unicode(c) => if char_is_whitespace(*c) { None } else { Some(*c) },
        }
    }
}

} // verus!
