use vstd::prelude::*;

use crate::error::{message, push_char, push_str, LapackError};

verus! {

/// The C character type used for flag codes at the routine's boundary.
pub type CChar = i8;

/// Memory layout of a matrix, as the routine and this layer understand it.
#[derive(Debug, Clone, Copy, PartialEq, Eq, Structural)]
pub enum LapackLayout {
    Undefined,
    RowMajor,
    ColMajor,
    /// Both row- and column-preferred at once (empty or a single element).
    Sequential,
    /// Neither axis has a unit stride.
    NonContiguous,
}

impl Default for LapackLayout {
    fn default() -> (r: Self)
        ensures
            r == LapackLayout::Undefined,
    {
        LapackLayout::Undefined
    }
}

/// ASCII upper case of a character; any other character is kept.
pub open spec fn upper(c: char) -> char {
    if 'a' <= c && c <= 'z' {
        ((c as u32 - 32) as u8) as char
    } else {
        c
    }
}

/// Layout that a character names: `R` or `C`, in either case.
pub open spec fn layout_of_char(c: char) -> LapackLayout {
    if upper(c) == 'R' {
        LapackLayout::RowMajor
    } else if upper(c) == 'C' {
        LapackLayout::ColMajor
    } else {
        LapackLayout::Undefined
    }
}

/// Upper-cases an ASCII letter and keeps every other character.
pub fn to_upper(c: char) -> (r: char)
    ensures
        r == upper(c),
{
    if 'a' <= c && c <= 'z' {
        ((c as u32 - 32) as u8) as char
    } else {
        c
    }
}

impl From<char> for LapackLayout {
    /// Reads a layout from its character, case-insensitively.
    fn from(c: char) -> (r: Self)
        ensures
            r == layout_of_char(c),
    {
        LapackLayout::from_char(c)
    }
}

impl vstd::std_specs::convert::FromSpecImpl<char> for LapackLayout {
    open spec fn obeys_from_spec() -> bool {
        true
    }

    open spec fn from_spec(c: char) -> Self {
        layout_of_char(c)
    }
}

impl LapackLayout {
    /// Reads a layout from its character, case-insensitively.
    pub fn from_char(c: char) -> (r: Self)
        ensures
            r == layout_of_char(c),
    {
        let u = to_upper(c);
        if u == 'R' {
            LapackLayout::RowMajor
        } else if u == 'C' {
            LapackLayout::ColMajor
        } else {
            LapackLayout::Undefined
        }
    }

    /// The character of a row- or column-major layout.
    pub fn to_char(&self) -> (r: Result<char, LapackError>)
        ensures
            *self == LapackLayout::RowMajor ==> r == Ok::<char, LapackError>('R'),
            *self == LapackLayout::ColMajor ==> r == Ok::<char, LapackError>('C'),
            !self.is_major() ==> r matches Err(LapackError::InvalidFlag(_)),
    {
        match self {
            LapackLayout::RowMajor => Ok('R'),
            LapackLayout::ColMajor => Ok('C'),
            _ => Err(LapackError::InvalidFlag(message("layout"))),
        }
    }

    /// The C character code of a row- or column-major layout.
    pub fn to_c_char(&self) -> (r: Result<CChar, LapackError>)
        ensures
            *self == LapackLayout::RowMajor ==> r == Ok::<CChar, LapackError>(82),
            *self == LapackLayout::ColMajor ==> r == Ok::<CChar, LapackError>(67),
            !self.is_major() ==> r matches Err(LapackError::InvalidFlag(_)),
    {
        match self {
            LapackLayout::RowMajor => Ok(82),
            LapackLayout::ColMajor => Ok(67),
            _ => Err(LapackError::InvalidFlag(message("layout"))),
        }
    }

    /// Whether this is one of the two layouts the routine knows.
    pub open spec fn is_major(&self) -> bool {
        *self == LapackLayout::RowMajor || *self == LapackLayout::ColMajor
    }

    /// Row-major becomes column-major and back; any other layout is refused.
    pub fn flip(&self) -> (r: Result<Self, LapackError>)
        ensures
            *self == LapackLayout::RowMajor ==> r == Ok::<Self, LapackError>(LapackLayout::ColMajor),
            *self == LapackLayout::ColMajor ==> r == Ok::<Self, LapackError>(LapackLayout::RowMajor),
            !self.is_major() ==> r matches Err(LapackError::InvalidFlag(_)),
    {
        match self {
            LapackLayout::RowMajor => Ok(LapackLayout::ColMajor),
            LapackLayout::ColMajor => Ok(LapackLayout::RowMajor),
            _ => Err(LapackError::InvalidFlag(message("layout"))),
        }
    }

    /// Row-preferred: row-major or sequential.
    pub open spec fn cpref(&self) -> bool {
        *self == LapackLayout::RowMajor || *self == LapackLayout::Sequential
    }

    /// Column-preferred: column-major or sequential.
    pub open spec fn fpref(&self) -> bool {
        *self == LapackLayout::ColMajor || *self == LapackLayout::Sequential
    }

    pub fn is_cpref(&self) -> (r: bool)
        ensures
            r == self.cpref(),
    {
        match self {
            LapackLayout::RowMajor => true,
            LapackLayout::Sequential => true,
            _ => false,
        }
    }

    pub fn is_fpref(&self) -> (r: bool)
        ensures
            r == self.fpref(),
    {
        match self {
            LapackLayout::ColMajor => true,
            LapackLayout::Sequential => true,
            _ => false,
        }
    }
}

/// Swaps two flag characters and refuses every other one.
pub open spec fn swap_pair(c: char, a: char, b: char) -> Option<char> {
    if c == a {
        Some(b)
    } else if c == b {
        Some(a)
    } else {
        None
    }
}

/// The flip of a flag as a result: the swapped character, or an invalid flag.
pub open spec fn flipped(r: Result<char, LapackError>, s: Option<char>) -> bool {
    match s {
        Some(x) => r == Ok::<char, LapackError>(x),
        None => r matches Err(LapackError::InvalidFlag(_)),
    }
}

/// Upper triangle becomes lower and back.
pub fn flip_uplo(uplo: char) -> (r: Result<char, LapackError>)
    ensures
        flipped(r, swap_pair(uplo, 'U', 'L')),
{
    match uplo {
        'U' => Ok('L'),
        'L' => Ok('U'),
        _ => Err(LapackError::InvalidFlag(message("UpLo"))),
    }
}

/// Right side becomes left and back.
pub fn flip_side(side: char) -> (r: Result<char, LapackError>)
    ensures
        flipped(r, swap_pair(side, 'R', 'L')),
{
    match side {
        'R' => Ok('L'),
        'L' => Ok('R'),
        _ => Err(LapackError::InvalidFlag(message("Side"))),
    }
}

/// Row-major character becomes column-major and back.
pub fn flip_layout(layout: char) -> (r: Result<char, LapackError>)
    ensures
        flipped(r, swap_pair(layout, 'R', 'C')),
{
    match layout {
        'R' => Ok('C'),
        'C' => Ok('R'),
        _ => Err(LapackError::InvalidFlag(message("Layout"))),
    }
}

/// The transpose flag that describes the same product on the transposed
/// storage: no transpose becomes a (conjugate, when `hermi`) transpose, and
/// either transpose becomes none.
pub open spec fn trans_flip(trans: char, hermi: bool) -> Option<char> {
    if trans == 'N' {
        Some(if hermi { 'C' } else { 'T' })
    } else if trans == 'T' || trans == 'C' {
        Some('N')
    } else {
        None
    }
}

pub fn flip_trans(trans: char, hermi: bool) -> (r: Result<char, LapackError>)
    ensures
        flipped(r, trans_flip(trans, hermi)),
{
    match trans {
        'N' => {
            if hermi {
                Ok('C')
            } else {
                Ok('T')
            }
        },
        'T' => Ok('N'),
        'C' => Ok('N'),
        _ => Err(LapackError::InvalidFlag(message("Trans"))),
    }
}

/// Whether a character, once upper-cased, is in a legal set and is ASCII.
pub open spec fn flag_accepted(c: char, legal: Seq<char>) -> bool {
    legal.contains(upper(c)) && (upper(c) as u32) < 128
}

/// The text of an invalid-flag error: the offending character and the legal
/// set.
pub open spec fn flag_message(c: char, legal: Seq<char>) -> Seq<char> {
    "invalid flag "@ + seq![c] + ", where valid values are "@ + legal
}

/// Builds the text of an invalid-flag error.
pub fn invalid_flag_message(c: char, legal: &[char]) -> (r: String)
    ensures
        r@ == flag_message(c, legal@),
{
    let mut m = message("invalid flag ");
    push_char(&mut m, c);
    push_str(&mut m, ", where valid values are ");
    let ghost prefix = m@;
    let mut k: usize = 0;
    while k < legal.len()
        invariant
            0 <= k <= legal@.len(),
            prefix == "invalid flag "@ + seq![c] + ", where valid values are "@,
            m@ == prefix + legal@.subrange(0, k as int),
        decreases legal@.len() - k,
    {
        let x: char = legal[k];
        push_char(&mut m, x);
        proof {
            assert(legal@.subrange(0, k + 1) =~= legal@.subrange(0, k as int).push(x));
            assert(m@ =~= prefix + legal@.subrange(0, k + 1));
        }
        k += 1;
    }
    proof {
        assert(legal@.subrange(0, legal@.len() as int) =~= legal@);
    }
    m
}

/// Checks a flag against its legal set and gives its code for the routine:
/// the upper-cased character as a C character. An error names the character
/// and the legal set.
pub fn flag_code(c: char, legal: &[char]) -> (r: Result<CChar, LapackError>)
    ensures
        flag_accepted(c, legal@) ==> r == Ok::<CChar, LapackError>((upper(c) as u32) as CChar),
        !flag_accepted(c, legal@) ==> (r matches Err(LapackError::InvalidFlag(m)) && m@
            == flag_message(c, legal@)),
{
    let u = to_upper(c);
    let mut k: usize = 0;
    while k < legal.len()
        invariant
            0 <= k <= legal@.len(),
            u == upper(c),
            forall|m: int| 0 <= m < k ==> legal@[m] != u,
        decreases legal@.len() - k,
    {
        let x: char = legal[k];
        if x == u {
            assert(legal@[k as int] == upper(c));
            if (u as u32) < 128 {
                return Ok((u as u32) as CChar);
            } else {
                return Err(LapackError::InvalidFlag(invalid_flag_message(c, legal)));
            }
        }
        k += 1;
    }
    Err(LapackError::InvalidFlag(invalid_flag_message(c, legal)))
}

} // verus!
