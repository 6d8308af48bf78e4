use vstd::prelude::*;
use crate::util::string_of;

verus! {

/// A flag of an instruction, parsed from its letters.
pub trait Flag: Default {}

/// Errors of parsing the flags of an instruction.
#[derive(Clone, PartialEq, Eq, PartialOrd, Ord, Hash, Debug)]
pub enum ParseFlagError {
    /// An unknown flag (the kind of flags, the letter).
    UnknownFlag(&'static str, char),
    /// Unknown flags (the kind of flags, the letters which are not flags).
    UnknownFlags(&'static str, String),
    /// Mutually exclusive flags given together (the kind of flags, the two letters).
    MutuallyExclusiveFlags(&'static str, char, char),
    /// A required flag is absent (the kind of flags).
    RequiredFlagAbsent(&'static str),
    /// A flag given more than once (the kind of flags, the letters).
    DuplicatedFlags(&'static str, String),
}

/// The characters of `s` which are not in `set`, in order.
pub open spec fn without(s: Seq<char>, set: Seq<char>) -> Seq<char> {
    s.filter(|c: char| !set.contains(c))
}

/// Whether a character is one of a set.
fn is_one_of(c: char, set: &Vec<char>) -> (r: bool)
    ensures
        r == set@.contains(c),
{
    let mut i: usize = 0;
    while i < set.len()
        invariant
            i <= set@.len(),
            forall|j: int| 0 <= j < i ==> set@[j] != c,
        decreases set@.len() - i,
    {
        if set[i] == c {
            return true;
        }
        i += 1;
    }
    false
}

/// Whether a string holds a character.
fn has_char(s: &str, c: char) -> (r: bool)
    ensures
        r == s@.contains(c),
{
    let n = s.unicode_len();
    let mut i: usize = 0;
    while i < n
        invariant
            n == s@.len(),
            i <= n,
            forall|j: int| 0 <= j < i ==> s@[j] != c,
        decreases n - i,
    {
        if s.get_char(i) == c {
            proof {
                assert(s@[i as int] == c);
            }
            return true;
        }
        i += 1;
    }
    false
}

/// The characters of a string which are not in a set.
fn strip_chars(s: &str, set: &Vec<char>) -> (r: String)
    ensures
        r@ == without(s@, set@),
{
    let n = s.unicode_len();
    let mut kept: Vec<char> = Vec::new();
    let mut i: usize = 0;
    while i < n
        invariant
            n == s@.len(),
            i <= n,
            kept@ == without(s@.take(i as int), set@),
        decreases n - i,
    {
        let c = s.get_char(i);
        proof {
            assert(s@.take(i + 1).drop_last() =~= s@.take(i as int));
            assert(s@.take(i + 1).last() == c);
            reveal_with_fuel(Seq::filter, 1);
            assert(without(s@.take(i + 1), set@) == (if !set@.contains(c) {
                without(s@.take(i as int), set@).push(c)
            } else {
                without(s@.take(i as int), set@)
            }));
        }
        if !is_one_of(c, set) {
            kept.push(c);
        }
        i += 1;
    }
    proof {
        assert(s@.take(n as int) =~= s@);
    }
    string_of(&kept)
}

/// The outcome of parsing a flag with two mutually exclusive letters `a` and `b`: `Ok(true)`
/// for `a` alone, `Ok(false)` for `b` alone.
pub open spec fn pair_flag_outcome(s: Seq<char>, a: char, b: char) -> Option<bool> {
    if s.len() > 0 && without(s, seq![a, b]).len() == 0 && s.contains(a) != s.contains(b) {
        Some(s.contains(a))
    } else {
        None
    }
}

/// Parses a flag which has two mutually exclusive letters.
fn parse_pair(s: &str, kind: &'static str, a: char, b: char) -> (r: Result<bool, ParseFlagError>)
    ensures
        match pair_flag_outcome(s@, a, b) {
            Some(v) => r == Ok::<bool, ParseFlagError>(v),
            None => r.is_err(),
        },
        s@.len() == 0 ==> r == Err::<bool, ParseFlagError>(ParseFlagError::RequiredFlagAbsent(kind)),
        s@.len() > 0 && without(s@, seq![a, b]).len() > 0 ==> (r matches Err(ParseFlagError::UnknownFlags(k, f))
            && k == kind && f@ == without(s@, seq![a, b])),
        s@.len() > 0 && without(s@, seq![a, b]).len() == 0 && s@.contains(a) && s@.contains(b)
            ==> r == Err::<bool, ParseFlagError>(ParseFlagError::MutuallyExclusiveFlags(kind, a, b)),
{
    let n = s.unicode_len();
    if n == 0 {
        return Err(ParseFlagError::RequiredFlagAbsent(kind));
    }
    let set = vec![a, b];
    let filtered = strip_chars(s, &set);
    proof {
        assert(set@ =~= seq![a, b]);
    }
    if filtered.unicode_len() != 0 {
        return Err(ParseFlagError::UnknownFlags(kind, filtered));
    }
    let has_a = has_char(s, a);
    let has_b = has_char(s, b);
    if has_a && has_b {
        Err(ParseFlagError::MutuallyExclusiveFlags(kind, a, b))
    } else if has_a {
        Ok(true)
    } else if has_b {
        Ok(false)
    } else {
        Err(ParseFlagError::RequiredFlagAbsent(kind))
    }
}

/// Parses a flag made of one letter of a set: the position of the letter in the set.
///
/// Two letters or more fail as mutually exclusive (as duplicated with `dup`).
fn parse_letter(s: &str, kind: &'static str, exclusive_kind: &'static str, dup: bool, set: &Vec<char>) -> (r: Result<usize, ParseFlagError>)
    ensures
        r.is_ok() <==> s@.len() == 1 && set@.contains(s@[0]),
        r.is_ok() ==> r.unwrap() < set@.len() && set@[r.unwrap() as int] == s@[0],
        s@.len() == 0 ==> r == Err::<usize, ParseFlagError>(ParseFlagError::RequiredFlagAbsent(kind)),
        s@.len() > 0 && without(s@, set@).len() > 0 ==> (r matches Err(ParseFlagError::UnknownFlags(k, f))
            && k == kind && f@ == without(s@, set@)),
        s@.len() > 1 && without(s@, set@).len() == 0 && dup ==> r matches Err(ParseFlagError::DuplicatedFlags(_, _)),
        s@.len() > 1 && without(s@, set@).len() == 0 && !dup ==> (r matches Err(ParseFlagError::MutuallyExclusiveFlags(k, x, y))
            && k == exclusive_kind && x == s@[0] && y == s@[1]),
{
    let n = s.unicode_len();
    if n == 0 {
        return Err(ParseFlagError::RequiredFlagAbsent(kind));
    }
    let filtered = strip_chars(s, set);
    if filtered.unicode_len() != 0 {
        proof {
            lemma_without_all_in(s@, set@);
        }
        return Err(ParseFlagError::UnknownFlags(kind, filtered));
    }
    proof {
        lemma_without_all_in(s@, set@);
    }
    if n > 1 {
        if dup {
            return Err(ParseFlagError::DuplicatedFlags(kind, s.to_owned()));
        }
        return Err(ParseFlagError::MutuallyExclusiveFlags(exclusive_kind, s.get_char(0), s.get_char(1)));
    }
    let c = s.get_char(0);
    let mut i: usize = 0;
    while i < set.len()
        invariant
            i <= set@.len(),
            s@.len() == 1,
            c == s@[0],
            without(s@, set@).len() == 0,
            forall|j: int| 0 <= j < i ==> set@[j] != c,
        decreases set@.len() - i,
    {
        if set[i] == c {
            return Ok(i);
        }
        i += 1;
    }
    proof {
        assert(set@.contains(c));
    }
    Err(ParseFlagError::UnknownFlag(kind, c))
}

/// No character of `s` is left out exactly when all of them are in `set`.
proof fn lemma_without_all_in(s: Seq<char>, set: Seq<char>)
    ensures
        without(s, set).len() == 0 <==> forall|i: int| 0 <= i < s.len() ==> set.contains(#[trigger] s[i]),
    decreases s.len(),
{
    reveal_with_fuel(Seq::filter, 1);
    if s.len() > 0 {
        lemma_without_all_in(s.drop_last(), set);
        if without(s, set).len() == 0 {
            assert forall|i: int| 0 <= i < s.len() implies set.contains(#[trigger] s[i]) by {
                if i < s.len() - 1 {
                    assert(s.drop_last()[i] == s[i]);
                }
            }
        } else {
            if forall|i: int| 0 <= i < s.len() ==> set.contains(#[trigger] s[i]) {
                assert forall|i: int| 0 <= i < s.drop_last().len() implies set.contains(#[trigger] s.drop_last()[i]) by {
                    assert(s.drop_last()[i] == s[i]);
                }
                assert(set.contains(s[s.len() - 1]));
            }
        }
    }
}

/// Signedness of an integer operation.
#[derive(Copy, Clone, PartialEq, Eq, PartialOrd, Ord, Hash, Debug, Structural)]
pub enum SignFlag {
    /// Unsigned integer.
    Unsigned,
    /// Signed integer.
    Signed,
}

impl Flag for SignFlag {}

impl Default for SignFlag {
    fn default() -> (r: Self)
        ensures
            r == SignFlag::Unsigned,
    {
        SignFlag::Unsigned
    }
}

impl SignFlag {
    /// The one-bit code of the flag.
    pub open spec fn code(self) -> u8 {
        match self {
            SignFlag::Unsigned => 0,
            SignFlag::Signed => 1,
        }
    }

    /// Parses the flag from its letter: `u` or `s`.
    pub fn parse(s: &str) -> (r: Result<Self, ParseFlagError>)
        ensures
            match pair_flag_outcome(s@, 'u', 's') {
                Some(v) => r == Ok::<Self, ParseFlagError>(if v { SignFlag::Unsigned } else { SignFlag::Signed }),
                None => r.is_err(),
            },
            s@.len() == 0 ==> r matches Err(ParseFlagError::RequiredFlagAbsent(_)),
            s@.len() > 0 && without(s@, seq!['u', 's']).len() > 0 ==> (r matches Err(ParseFlagError::UnknownFlags(_, f))
                && f@ == without(s@, seq!['u', 's'])),
            s@.len() > 0 && without(s@, seq!['u', 's']).len() == 0 && s@.contains('u') && s@.contains('s')
                ==> r matches Err(ParseFlagError::MutuallyExclusiveFlags(_, 'u', 's')),
    {
        match parse_pair(s, "integer sign", 'u', 's') {
            Ok(true) => Ok(SignFlag::Unsigned),
            Ok(false) => Ok(SignFlag::Signed),
            Err(e) => Err(e),
        }
    }

    /// The flag of a one-bit code.
    pub fn from_u1(val: u8) -> (r: Self)
        requires
            val < 2,
        ensures
            r.code() == val,
    {
        if val == 0 {
            SignFlag::Unsigned
        } else {
            SignFlag::Signed
        }
    }

    /// The one-bit code of the flag.
    pub fn as_u1(self) -> (r: u8)
        ensures
            r == self.code(),
            r < 2,
    {
        match self {
            SignFlag::Unsigned => 0,
            SignFlag::Signed => 1,
        }
    }
}

impl core::str::FromStr for SignFlag {
    type Err = ParseFlagError;

    fn from_str(s: &str) -> Result<Self, ParseFlagError> {
        SignFlag::parse(s)
    }
}

/// How two registers holding no value compare.
#[derive(Copy, Clone, PartialEq, Eq, PartialOrd, Ord, Hash, Debug, Structural)]
pub enum NoneEqFlag {
    /// Two registers without a value are equal.
    Equal,
    /// Two registers without a value are not equal.
    NonEqual,
}

impl Flag for NoneEqFlag {}

impl Default for NoneEqFlag {
    fn default() -> (r: Self)
        ensures
            r == NoneEqFlag::Equal,
    {
        NoneEqFlag::Equal
    }
}

impl NoneEqFlag {
    /// The one-bit code of the flag.
    pub open spec fn code(self) -> u8 {
        match self {
            NoneEqFlag::Equal => 1,
            NoneEqFlag::NonEqual => 0,
        }
    }

    /// Parses the flag from its letter: `e` or `n`.
    pub fn parse(s: &str) -> (r: Result<Self, ParseFlagError>)
        ensures
            match pair_flag_outcome(s@, 'e', 'n') {
                Some(v) => r == Ok::<Self, ParseFlagError>(if v { NoneEqFlag::Equal } else { NoneEqFlag::NonEqual }),
                None => r.is_err(),
            },
            s@.len() == 0 ==> r matches Err(ParseFlagError::RequiredFlagAbsent(_)),
            s@.len() > 0 && without(s@, seq!['e', 'n']).len() > 0 ==> (r matches Err(ParseFlagError::UnknownFlags(_, f))
                && f@ == without(s@, seq!['e', 'n'])),
            s@.len() > 0 && without(s@, seq!['e', 'n']).len() == 0 && s@.contains('e') && s@.contains('n')
                ==> r matches Err(ParseFlagError::MutuallyExclusiveFlags(_, 'e', 'n')),
    {
        match parse_pair(s, "none-equality", 'e', 'n') {
            Ok(true) => Ok(NoneEqFlag::Equal),
            Ok(false) => Ok(NoneEqFlag::NonEqual),
            Err(e) => Err(e),
        }
    }

    /// The flag of a one-bit code.
    pub fn from_u1(val: u8) -> (r: Self)
        requires
            val < 2,
        ensures
            r.code() == val,
    {
        if val == 1 {
            NoneEqFlag::Equal
        } else {
            NoneEqFlag::NonEqual
        }
    }

    /// The one-bit code of the flag.
    pub fn as_u1(self) -> (r: u8)
        ensures
            r == self.code(),
            r < 2,
    {
        match self {
            NoneEqFlag::Equal => 1,
            NoneEqFlag::NonEqual => 0,
        }
    }
}

impl core::str::FromStr for NoneEqFlag {
    type Err = ParseFlagError;

    fn from_str(s: &str) -> Result<Self, ParseFlagError> {
        NoneEqFlag::parse(s)
    }
}

/// How floating-point numbers compare.
#[derive(Copy, Clone, PartialEq, Eq, PartialOrd, Ord, Hash, Debug, Structural)]
pub enum FloatEqFlag {
    /// Exact comparison.
    Exact,
    /// Comparison up to rounding.
    Rounding,
}

impl Flag for FloatEqFlag {}

impl Default for FloatEqFlag {
    fn default() -> (r: Self)
        ensures
            r == FloatEqFlag::Exact,
    {
        FloatEqFlag::Exact
    }
}

impl FloatEqFlag {
    /// The one-bit code of the flag.
    pub open spec fn code(self) -> u8 {
        match self {
            FloatEqFlag::Exact => 0,
            FloatEqFlag::Rounding => 1,
        }
    }

    /// Parses the flag from its letter: `e` or `r`.
    pub fn parse(s: &str) -> (r: Result<Self, ParseFlagError>)
        ensures
            match pair_flag_outcome(s@, 'e', 'r') {
                Some(v) => r == Ok::<Self, ParseFlagError>(if v { FloatEqFlag::Exact } else { FloatEqFlag::Rounding }),
                None => r.is_err(),
            },
            s@.len() == 0 ==> r matches Err(ParseFlagError::RequiredFlagAbsent(_)),
            s@.len() > 0 && without(s@, seq!['e', 'r']).len() > 0 ==> (r matches Err(ParseFlagError::UnknownFlags(_, f))
                && f@ == without(s@, seq!['e', 'r'])),
            s@.len() > 0 && without(s@, seq!['e', 'r']).len() == 0 && s@.contains('e') && s@.contains('r')
                ==> r matches Err(ParseFlagError::MutuallyExclusiveFlags(_, 'e', 'r')),
    {
        match parse_pair(s, "float equality", 'e', 'r') {
            Ok(true) => Ok(FloatEqFlag::Exact),
            Ok(false) => Ok(FloatEqFlag::Rounding),
            Err(e) => Err(e),
        }
    }

    /// The flag of a one-bit code.
    pub fn from_u1(val: u8) -> (r: Self)
        requires
            val < 2,
        ensures
            r.code() == val,
    {
        if val == 0 {
            FloatEqFlag::Exact
        } else {
            FloatEqFlag::Rounding
        }
    }

    /// The one-bit code of the flag.
    pub fn as_u1(self) -> (r: u8)
        ensures
            r == self.code(),
            r < 2,
    {
        match self {
            FloatEqFlag::Exact => 0,
            FloatEqFlag::Rounding => 1,
        }
    }
}

impl core::str::FromStr for FloatEqFlag {
    type Err = ParseFlagError;

    fn from_str(s: &str) -> Result<Self, ParseFlagError> {
        FloatEqFlag::parse(s)
    }
}

/// What to do when a value does not fit its destination.
#[derive(Copy, Clone, PartialEq, Eq, PartialOrd, Ord, Hash, Debug, Structural)]
pub enum ExtendFlag {
    /// Extend the destination.
    Extend,
    /// Fail.
    Fail,
}

impl Flag for ExtendFlag {}

impl Default for ExtendFlag {
    fn default() -> (r: Self)
        ensures
            r == ExtendFlag::Extend,
    {
        ExtendFlag::Extend
    }
}

impl ExtendFlag {
    /// The one-bit code of the flag.
    pub open spec fn code(self) -> u8 {
        match self {
            ExtendFlag::Extend => 0,
            ExtendFlag::Fail => 1,
        }
    }

    /// Parses the flag from its letter: `e` or `f`.
    pub fn parse(s: &str) -> (r: Result<Self, ParseFlagError>)
        ensures
            match pair_flag_outcome(s@, 'e', 'f') {
                Some(v) => r == Ok::<Self, ParseFlagError>(if v { ExtendFlag::Extend } else { ExtendFlag::Fail }),
                None => r.is_err(),
            },
            s@.len() == 0 ==> r matches Err(ParseFlagError::RequiredFlagAbsent(_)),
            s@.len() > 0 && without(s@, seq!['e', 'f']).len() > 0 ==> (r matches Err(ParseFlagError::UnknownFlags(_, f))
                && f@ == without(s@, seq!['e', 'f'])),
            s@.len() > 0 && without(s@, seq!['e', 'f']).len() == 0 && s@.contains('e') && s@.contains('f')
                ==> r matches Err(ParseFlagError::MutuallyExclusiveFlags(_, 'e', 'f')),
    {
        match parse_pair(s, "extension flag", 'e', 'f') {
            Ok(true) => Ok(ExtendFlag::Extend),
            Ok(false) => Ok(ExtendFlag::Fail),
            Err(e) => Err(e),
        }
    }

    /// The flag of a one-bit code.
    pub fn from_u1(val: u8) -> (r: Self)
        requires
            val < 2,
        ensures
            r.code() == val,
    {
        if val == 0 {
            ExtendFlag::Extend
        } else {
            ExtendFlag::Fail
        }
    }

    /// The one-bit code of the flag.
    pub fn as_u1(self) -> (r: u8)
        ensures
            r == self.code(),
            r < 2,
    {
        match self {
            ExtendFlag::Extend => 0,
            ExtendFlag::Fail => 1,
        }
    }
}

impl core::str::FromStr for ExtendFlag {
    type Err = ParseFlagError;

    fn from_str(s: &str) -> Result<Self, ParseFlagError> {
        ExtendFlag::parse(s)
    }
}

/// Rounding of floating-point operations.
#[derive(Copy, Clone, PartialEq, Eq, PartialOrd, Ord, Hash, Debug, Structural)]
pub enum RoundingFlag {
    /// Towards zero.
    TowardsZero,
    /// Towards the nearest number.
    TowardsNearest,
    /// Towards negative infinity.
    Floor,
    /// Towards positive infinity.
    Ceil,
}

impl Flag for RoundingFlag {}

impl Default for RoundingFlag {
    fn default() -> (r: Self)
        ensures
            r == RoundingFlag::TowardsNearest,
    {
        RoundingFlag::TowardsNearest
    }
}

impl RoundingFlag {
    /// The 2-bit code of the flag, which is also the position of its letter in `znfc`.
    pub open spec fn code(self) -> u8 {
        match self {
            RoundingFlag::TowardsZero => 0,
            RoundingFlag::TowardsNearest => 1,
            RoundingFlag::Floor => 2,
            RoundingFlag::Ceil => 3,
        }
    }

    /// The letters of the flags, in the order of their codes.
    pub open spec fn letters() -> Seq<char> {
        seq!['z', 'n', 'f', 'c']
    }

    /// Parses the flag from its letter.
    pub fn parse(s: &str) -> (r: Result<Self, ParseFlagError>)
        ensures
            r.is_ok() <==> s@.len() == 1 && Self::letters().contains(s@[0]),
            r.is_ok() ==> Self::letters()[r.unwrap().code() as int] == s@[0],
            s@.len() == 0 ==> r matches Err(ParseFlagError::RequiredFlagAbsent(_)),
            s@.len() > 0 && without(s@, Self::letters()).len() > 0 ==> (r matches Err(ParseFlagError::UnknownFlags(_, f))
                && f@ == without(s@, Self::letters())),
            s@.len() > 1 && without(s@, seq!['z', 'n', 'f', 'c']).len() == 0 ==> (r matches Err(ParseFlagError::MutuallyExclusiveFlags(_, x, y)) && x == s@[0] && y == s@[1]),
    {
        let letters = vec!['z', 'n', 'f', 'c'];
        proof {
            assert(letters@ =~= Self::letters());
        }
        let i = parse_letter(s, "float rounding", "float rounding", false, &letters)?;
        Ok(Self::from_code(i as u8))
    }

    /// The flag of a 2-bit code.
    fn from_code(val: u8) -> (r: Self)
        requires
            val < 4,
        ensures
            r.code() == val,
    {
        match val {
            0 => RoundingFlag::TowardsZero,
            1 => RoundingFlag::TowardsNearest,
            2 => RoundingFlag::Floor,
            _ => RoundingFlag::Ceil,
        }
    }

    /// The flag of a 2-bit code.
    pub fn from_u2(val: u8) -> (r: Self)
        requires
            val < 4,
        ensures
            r.code() == val,
    {
        Self::from_code(val)
    }

    /// The 2-bit code of the flag.
    pub fn as_u2(self) -> (r: u8)
        ensures
            r == self.code(),
            r < 4,
    {
        match self {
            RoundingFlag::TowardsZero => 0,
            RoundingFlag::TowardsNearest => 1,
            RoundingFlag::Floor => 2,
            RoundingFlag::Ceil => 3,
        }
    }
}

impl core::str::FromStr for RoundingFlag {
    type Err = ParseFlagError;

    fn from_str(s: &str) -> Result<Self, ParseFlagError> {
        RoundingFlag::parse(s)
    }
}

/// How a value merges into its destination.
#[derive(Copy, Clone, PartialEq, Eq, PartialOrd, Ord, Hash, Debug, Structural)]
pub enum MergeFlag {
    /// Replace the destination.
    Replace,
    /// Add to the destination.
    Add,
    /// Bitwise and with the destination.
    And,
    /// Bitwise or with the destination.
    Or,
}

impl Flag for MergeFlag {}

impl Default for MergeFlag {
    fn default() -> (r: Self)
        ensures
            r == MergeFlag::Replace,
    {
        MergeFlag::Replace
    }
}

impl MergeFlag {
    /// The 2-bit code of the flag, which is also the position of its letter in `sano`.
    pub open spec fn code(self) -> u8 {
        match self {
            MergeFlag::Replace => 0,
            MergeFlag::Add => 1,
            MergeFlag::And => 2,
            MergeFlag::Or => 3,
        }
    }

    /// The letters of the flags, in the order of their codes.
    pub open spec fn letters() -> Seq<char> {
        seq!['s', 'a', 'n', 'o']
    }

    /// Parses the flag from its letter.
    pub fn parse(s: &str) -> (r: Result<Self, ParseFlagError>)
        ensures
            r.is_ok() <==> s@.len() == 1 && Self::letters().contains(s@[0]),
            r.is_ok() ==> Self::letters()[r.unwrap().code() as int] == s@[0],
            s@.len() == 0 ==> r matches Err(ParseFlagError::RequiredFlagAbsent(_)),
            s@.len() > 0 && without(s@, Self::letters()).len() > 0 ==> (r matches Err(ParseFlagError::UnknownFlags(_, f))
                && f@ == without(s@, Self::letters())),
            s@.len() > 1 && without(s@, seq!['s', 'a', 'n', 'o']).len() == 0 ==> (r matches Err(ParseFlagError::MutuallyExclusiveFlags(_, x, y)) && x == s@[0] && y == s@[1]),
    {
        let letters = vec!['s', 'a', 'n', 'o'];
        proof {
            assert(letters@ =~= Self::letters());
        }
        let i = parse_letter(s, "merge operation", "merge", false, &letters)?;
        Ok(Self::from_code(i as u8))
    }

    /// The flag of a 2-bit code.
    fn from_code(val: u8) -> (r: Self)
        requires
            val < 4,
        ensures
            r.code() == val,
    {
        match val {
            0 => MergeFlag::Replace,
            1 => MergeFlag::Add,
            2 => MergeFlag::And,
            _ => MergeFlag::Or,
        }
    }

    /// The flag of a 2-bit code.
    pub fn from_u2(val: u8) -> (r: Self)
        requires
            val < 4,
        ensures
            r.code() == val,
    {
        Self::from_code(val)
    }

    /// The 2-bit code of the flag.
    pub fn as_u2(self) -> (r: u8)
        ensures
            r == self.code(),
            r < 4,
    {
        match self {
            MergeFlag::Replace => 0,
            MergeFlag::Add => 1,
            MergeFlag::And => 2,
            MergeFlag::Or => 3,
        }
    }
}

impl core::str::FromStr for MergeFlag {
    type Err = ParseFlagError;

    fn from_str(s: &str) -> Result<Self, ParseFlagError> {
        MergeFlag::parse(s)
    }
}

/// What an insertion into a string does at its bounds.
#[derive(Copy, Clone, PartialEq, Eq, PartialOrd, Ord, Hash, Debug, Structural)]
pub enum InsertFlag {
    /// Fail when the length is exceeded.
    FailOnLen,
    /// Fail when the offset is beyond the string.
    FailOnOffset,
    /// Fail on either.
    FailOnOffsetLen,
    /// Extend the string.
    Extend,
    /// Append at the end.
    Append,
    /// Extend, then cut to the maximum length.
    ExtendCut,
    /// Cut to the maximum length.
    Cut,
    /// Shorten the inserted part.
    Shorten,
}

impl Flag for InsertFlag {}

impl Default for InsertFlag {
    fn default() -> (r: Self)
        ensures
            r == InsertFlag::FailOnLen,
    {
        InsertFlag::FailOnLen
    }
}

impl InsertFlag {
    /// The 3-bit code of the flag, which is also the position of its letter in `lofeaxcs`.
    pub open spec fn code(self) -> u8 {
        match self {
            InsertFlag::FailOnLen => 0,
            InsertFlag::FailOnOffset => 1,
            InsertFlag::FailOnOffsetLen => 2,
            InsertFlag::Extend => 3,
            InsertFlag::Append => 4,
            InsertFlag::ExtendCut => 5,
            InsertFlag::Cut => 6,
            InsertFlag::Shorten => 7,
        }
    }

    /// The letters of the flags, in the order of their codes.
    pub open spec fn letters() -> Seq<char> {
        seq!['l', 'o', 'f', 'e', 'a', 'x', 'c', 's']
    }

    /// Parses the flag from its letter.
    pub fn parse(s: &str) -> (r: Result<Self, ParseFlagError>)
        ensures
            r.is_ok() <==> s@.len() == 1 && Self::letters().contains(s@[0]),
            r.is_ok() ==> Self::letters()[r.unwrap().code() as int] == s@[0],
            s@.len() == 0 ==> r matches Err(ParseFlagError::RequiredFlagAbsent(_)),
            s@.len() > 0 && without(s@, Self::letters()).len() > 0 ==> (r matches Err(ParseFlagError::UnknownFlags(_, f))
                && f@ == without(s@, Self::letters())),
            s@.len() > 1 && without(s@, seq!['l', 'o', 'f', 'e', 'a', 'x', 'c', 's']).len() == 0 ==> r matches Err(ParseFlagError::DuplicatedFlags(_, _)),
    {
        let letters = vec!['l', 'o', 'f', 'e', 'a', 'x', 'c', 's'];
        proof {
            assert(letters@ =~= Self::letters());
        }
        let i = parse_letter(s, "insert operation", "insert operation", true, &letters)?;
        Ok(Self::from_code(i as u8))
    }

    /// The flag of a 3-bit code.
    fn from_code(val: u8) -> (r: Self)
        requires
            val < 8,
        ensures
            r.code() == val,
    {
        match val {
            0 => InsertFlag::FailOnLen,
            1 => InsertFlag::FailOnOffset,
            2 => InsertFlag::FailOnOffsetLen,
            3 => InsertFlag::Extend,
            4 => InsertFlag::Append,
            5 => InsertFlag::ExtendCut,
            6 => InsertFlag::Cut,
            _ => InsertFlag::Shorten,
        }
    }

    /// The flag of a 3-bit code.
    pub fn from_u3(val: u8) -> (r: Self)
        requires
            val < 8,
        ensures
            r.code() == val,
    {
        Self::from_code(val)
    }

    /// The 3-bit code of the flag.
    pub fn as_u3(self) -> (r: u8)
        ensures
            r == self.code(),
            r < 8,
    {
        match self {
            InsertFlag::FailOnLen => 0,
            InsertFlag::FailOnOffset => 1,
            InsertFlag::FailOnOffsetLen => 2,
            InsertFlag::Extend => 3,
            InsertFlag::Append => 4,
            InsertFlag::ExtendCut => 5,
            InsertFlag::Cut => 6,
            InsertFlag::Shorten => 7,
        }
    }
}

impl core::str::FromStr for InsertFlag {
    type Err = ParseFlagError;

    fn from_str(s: &str) -> Result<Self, ParseFlagError> {
        InsertFlag::parse(s)
    }
}

/// What a deletion from a string does at its bounds.
#[derive(Copy, Clone, PartialEq, Eq, PartialOrd, Ord, Hash, Debug, Structural)]
pub enum DeleteFlag {
    /// Do nothing.
    Nothing,
    /// Zero the bytes.
    Zero,
    /// Cut the string.
    Cut,
    /// Extend the string.
    Extend,
}

impl Flag for DeleteFlag {}

impl Default for DeleteFlag {
    fn default() -> (r: Self)
        ensures
            r == DeleteFlag::Nothing,
    {
        DeleteFlag::Nothing
    }
}

impl DeleteFlag {
    /// The 2-bit code of the flag, which is also the position of its letter in `nzce`.
    pub open spec fn code(self) -> u8 {
        match self {
            DeleteFlag::Nothing => 0,
            DeleteFlag::Zero => 1,
            DeleteFlag::Cut => 2,
            DeleteFlag::Extend => 3,
        }
    }

    /// The letters of the flags, in the order of their codes.
    pub open spec fn letters() -> Seq<char> {
        seq!['n', 'z', 'c', 'e']
    }

    /// Parses the flag from its letter.
    pub fn parse(s: &str) -> (r: Result<Self, ParseFlagError>)
        ensures
            r.is_ok() <==> s@.len() == 1 && Self::letters().contains(s@[0]),
            r.is_ok() ==> Self::letters()[r.unwrap().code() as int] == s@[0],
            s@.len() == 0 ==> r matches Err(ParseFlagError::RequiredFlagAbsent(_)),
            s@.len() > 0 && without(s@, Self::letters()).len() > 0 ==> (r matches Err(ParseFlagError::UnknownFlags(_, f))
                && f@ == without(s@, Self::letters())),
            s@.len() > 1 && without(s@, seq!['n', 'z', 'c', 'e']).len() == 0 ==> r matches Err(ParseFlagError::DuplicatedFlags(_, _)),
    {
        let letters = vec!['n', 'z', 'c', 'e'];
        proof {
            assert(letters@ =~= Self::letters());
        }
        let i = parse_letter(s, "delete operation", "delete operation", true, &letters)?;
        Ok(Self::from_code(i as u8))
    }

    /// The flag of a 2-bit code.
    fn from_code(val: u8) -> (r: Self)
        requires
            val < 4,
        ensures
            r.code() == val,
    {
        match val {
            0 => DeleteFlag::Nothing,
            1 => DeleteFlag::Zero,
            2 => DeleteFlag::Cut,
            _ => DeleteFlag::Extend,
        }
    }

    /// The flag of a 2-bit code.
    pub fn from_u2(val: u8) -> (r: Self)
        requires
            val < 4,
        ensures
            r.code() == val,
    {
        Self::from_code(val)
    }

    /// The 2-bit code of the flag.
    pub fn as_u2(self) -> (r: u8)
        ensures
            r == self.code(),
            r < 4,
    {
        match self {
            DeleteFlag::Nothing => 0,
            DeleteFlag::Zero => 1,
            DeleteFlag::Cut => 2,
            DeleteFlag::Extend => 3,
        }
    }
}

impl core::str::FromStr for DeleteFlag {
    type Err = ParseFlagError;

    fn from_str(s: &str) -> Result<Self, ParseFlagError> {
        DeleteFlag::parse(s)
    }
}

/// Flags of an integer operation: signedness and overflow behaviour.
#[derive(Copy, Clone, PartialEq, Eq, PartialOrd, Ord, Hash, Debug, Structural)]
pub struct IntFlags {
    /// Whether the integers are signed.
    pub signed: bool,
    /// Whether an overflow wraps (otherwise it fails).
    pub wrap: bool,
}

impl Flag for IntFlags {}

impl Default for IntFlags {
    fn default() -> (r: Self)
        ensures
            !r.signed && !r.wrap,
    {
        IntFlags { signed: false, wrap: false }
    }
}

impl IntFlags {
    /// The two-bit code of the flags: bit 0 for signedness, bit 1 for wrapping.
    pub open spec fn code(self) -> u8 {
        ((if self.signed { 1int } else { 0int }) + (if self.wrap { 2int } else { 0int })) as u8
    }

    /// Parses the flags from their letters: `s` or `u` for the signedness, `w` or `c` for
    /// wrapping or checked overflow, in any order.
    pub fn parse(s: &str) -> (r: Result<Self, ParseFlagError>)
        ensures
            r.is_ok() <==> s@.contains('s') != s@.contains('u') && s@.contains('w') != s@.contains('c')
                && s@.len() <= 2,
            r.is_ok() ==> r.unwrap().signed == s@.contains('s') && r.unwrap().wrap == s@.contains('w'),
            s@.contains('s') && s@.contains('u') ==> r matches Err(ParseFlagError::MutuallyExclusiveFlags(_, 's', 'u')),
            s@.contains('s') != s@.contains('u') && s@.contains('w') && s@.contains('c')
                ==> r matches Err(ParseFlagError::MutuallyExclusiveFlags(_, 'w', 'c')),
    {
        let has_s = has_char(s, 's');
        let has_u = has_char(s, 'u');
        let signed = if has_s && has_u {
            return Err(ParseFlagError::MutuallyExclusiveFlags("integer serialization", 's', 'u'));
        } else if has_s {
            true
        } else if has_u {
            false
        } else {
            return Err(ParseFlagError::RequiredFlagAbsent("integer serialization"));
        };
        let has_w = has_char(s, 'w');
        let has_c = has_char(s, 'c');
        let wrap = if has_w && has_c {
            return Err(ParseFlagError::MutuallyExclusiveFlags("overflow", 'w', 'c'));
        } else if has_w {
            true
        } else if has_c {
            false
        } else {
            return Err(ParseFlagError::RequiredFlagAbsent("overflow"));
        };
        if s.unicode_len() > 2 {
            let letters = vec!['s', 'u', 'c', 'w'];
            return Err(ParseFlagError::UnknownFlags("integer serialization", strip_chars(s, &letters)));
        }
        Ok(IntFlags { signed, wrap })
    }

    /// The flags of a two-bit code.
    pub fn from_u2(val: u8) -> (r: Self)
        requires
            val < 4,
        ensures
            r.code() == val,
    {
        IntFlags { signed: val % 2 == 1, wrap: val / 2 == 1 }
    }

    /// The two-bit code of the flags.
    pub fn as_u2(self) -> (r: u8)
        ensures
            r == self.code(),
            r < 4,
    {
        (if self.signed { 1u8 } else { 0u8 }) + (if self.wrap { 2u8 } else { 0u8 })
    }

    /// The letters of the flags: `s` or `u`, then `w` or `c`.
    pub fn to_string(&self) -> (r: String)
        ensures
            r@ == seq![if self.signed { 's' } else { 'u' }, if self.wrap { 'w' } else { 'c' }],
    {
        let mut letters: Vec<char> = Vec::new();
        letters.push(if self.signed { 's' } else { 'u' });
        letters.push(if self.wrap { 'w' } else { 'c' });
        proof {
            assert(letters@ =~= seq![if self.signed { 's' } else { 'u' }, if self.wrap { 'w' } else { 'c' }]);
        }
        string_of(&letters)
    }

    /// Unsigned integers, failing on overflow.
    pub fn unsigned_checked() -> (r: Self)
        ensures
            !r.signed && !r.wrap,
    {
        IntFlags { signed: false, wrap: false }
    }

    /// Signed integers, failing on overflow.
    pub fn signed_checked() -> (r: Self)
        ensures
            r.signed && !r.wrap,
    {
        IntFlags { signed: true, wrap: false }
    }

    /// Unsigned integers, wrapping on overflow.
    pub fn unsigned_wrapped() -> (r: Self)
        ensures
            !r.signed && r.wrap,
    {
        IntFlags { signed: false, wrap: true }
    }

    /// Signed integers, wrapping on overflow.
    pub fn signed_wrapped() -> (r: Self)
        ensures
            r.signed && r.wrap,
    {
        IntFlags { signed: true, wrap: true }
    }
}

impl core::str::FromStr for IntFlags {
    type Err = ParseFlagError;

    fn from_str(s: &str) -> Result<Self, ParseFlagError> {
        IntFlags::parse(s)
    }
}

/// How a string splits, and what each part becomes when it is empty.
#[derive(Copy, Clone, PartialEq, Eq, PartialOrd, Ord, Hash, Debug, Structural)]
pub enum SplitFlag {
    /// `n`: both parts without a value.
    NoneNone,
    /// `nn`: both parts without a value when the string is empty.
    NoneNoneOnEmpty,
    /// `nz`: no value, then zero, when the string is empty.
    NoneZeroOnEmpty,
    /// `ee`: both parts zero when the string is empty.
    ZeroZeroOnEmpty,
    /// `cn`: cut, then no value.
    CutNone,
    /// `cz`: cut, then zero.
    CutZero,
    /// `zn`: zero, then no value.
    ZeroNone,
    /// `zz`: both parts zero.
    ZeroZero,
}

impl Flag for SplitFlag {}

impl Default for SplitFlag {
    fn default() -> (r: Self)
        ensures
            r == SplitFlag::NoneNone,
    {
        SplitFlag::NoneNone
    }
}

impl SplitFlag {
    /// The three-bit code of the flag.
    pub open spec fn code(self) -> u8 {
        match self {
            SplitFlag::NoneNone => 0,
            SplitFlag::NoneNoneOnEmpty => 1,
            SplitFlag::NoneZeroOnEmpty => 2,
            SplitFlag::ZeroZeroOnEmpty => 3,
            SplitFlag::CutNone => 4,
            SplitFlag::CutZero => 5,
            SplitFlag::ZeroNone => 6,
            SplitFlag::ZeroZero => 7,
        }
    }

    /// The flag written by a string, if any.
    pub open spec fn spec_of(s: Seq<char>) -> Option<SplitFlag> {
        if s == seq!['n'] {
            Some(SplitFlag::NoneNone)
        } else if s == seq!['n', 'n'] {
            Some(SplitFlag::NoneNoneOnEmpty)
        } else if s == seq!['n', 'z'] {
            Some(SplitFlag::NoneZeroOnEmpty)
        } else if s == seq!['e', 'e'] {
            Some(SplitFlag::ZeroZeroOnEmpty)
        } else if s == seq!['c', 'n'] {
            Some(SplitFlag::CutNone)
        } else if s == seq!['c', 'z'] {
            Some(SplitFlag::CutZero)
        } else if s == seq!['z', 'n'] {
            Some(SplitFlag::ZeroNone)
        } else if s == seq!['z', 'z'] {
            Some(SplitFlag::ZeroZero)
        } else {
            None
        }
    }

    /// Parses the flag from its letters.
    pub fn parse(s: &str) -> (r: Result<Self, ParseFlagError>)
        ensures
            match Self::spec_of(s@) {
                Some(f) => r == Ok::<Self, ParseFlagError>(f),
                None => r.is_err(),
            },
            s@.len() == 0 ==> r matches Err(ParseFlagError::RequiredFlagAbsent(_)),
            s@.len() > 0 && Self::spec_of(s@).is_none() ==> (r matches Err(ParseFlagError::UnknownFlags(_, f))
                && f@ == s@),
    {
        let n = s.unicode_len();
        if n == 0 {
            return Err(ParseFlagError::RequiredFlagAbsent("split operation"));
        }
        let a = s.get_char(0);
        let flag = if n == 1 {
            if a == 'n' {
                proof {
                    assert(s@ =~= seq!['n']);
                }
                Some(SplitFlag::NoneNone)
            } else {
                proof {
                    assert(s@ != seq!['n'] && s@.len() == 1);
                }
                None
            }
        } else if n == 2 {
            let b = s.get_char(1);
            proof {
                assert(s@ =~= seq![a, b]);
            }
            if a == 'n' && b == 'n' {
                Some(SplitFlag::NoneNoneOnEmpty)
            } else if a == 'n' && b == 'z' {
                Some(SplitFlag::NoneZeroOnEmpty)
            } else if a == 'e' && b == 'e' {
                Some(SplitFlag::ZeroZeroOnEmpty)
            } else if a == 'c' && b == 'n' {
                Some(SplitFlag::CutNone)
            } else if a == 'c' && b == 'z' {
                Some(SplitFlag::CutZero)
            } else if a == 'z' && b == 'n' {
                Some(SplitFlag::ZeroNone)
            } else if a == 'z' && b == 'z' {
                Some(SplitFlag::ZeroZero)
            } else {
                proof {
                    assert(seq!['n', 'n'][0] == 'n' && seq!['n', 'n'][1] == 'n');
                }
                None
            }
        } else {
            None
        };
        match flag {
            Some(f) => Ok(f),
            None => Err(ParseFlagError::UnknownFlags("split operation", s.to_owned())),
        }
    }

    /// The flag of a three-bit code.
    pub fn from_u3(val: u8) -> (r: Self)
        requires
            val < 8,
        ensures
            r.code() == val,
    {
        match val {
            0 => SplitFlag::NoneNone,
            1 => SplitFlag::NoneNoneOnEmpty,
            2 => SplitFlag::NoneZeroOnEmpty,
            3 => SplitFlag::ZeroZeroOnEmpty,
            4 => SplitFlag::CutNone,
            5 => SplitFlag::CutZero,
            6 => SplitFlag::ZeroNone,
            _ => SplitFlag::ZeroZero,
        }
    }

    /// The three-bit code of the flag.
    pub fn as_u3(self) -> (r: u8)
        ensures
            r == self.code(),
            r < 8,
    {
        match self {
            SplitFlag::NoneNone => 0,
            SplitFlag::NoneNoneOnEmpty => 1,
            SplitFlag::NoneZeroOnEmpty => 2,
            SplitFlag::ZeroZeroOnEmpty => 3,
            SplitFlag::CutNone => 4,
            SplitFlag::CutZero => 5,
            SplitFlag::ZeroNone => 6,
            SplitFlag::ZeroZero => 7,
        }
    }
}

impl core::str::FromStr for SplitFlag {
    type Err = ParseFlagError;

    fn from_str(s: &str) -> Result<Self, ParseFlagError> {
        SplitFlag::parse(s)
    }
}

} // verus!
