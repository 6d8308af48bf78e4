use aluvm::{
    DeleteFlag, ExtendFlag, FloatEqFlag, InsertFlag, IntFlags, MergeFlag, NoneEqFlag, ParseFlagError, RoundingFlag,
    SignFlag, SplitFlag,
};

#[test]
fn sign_flag_parsing() {
    assert_eq!("u".parse::<SignFlag>(), Ok(SignFlag::Unsigned));
    assert_eq!("ss".parse::<SignFlag>(), Ok(SignFlag::Signed));
    assert_eq!("us".parse::<SignFlag>(), Err(ParseFlagError::MutuallyExclusiveFlags("integer sign", 'u', 's')));
    assert_eq!("".parse::<SignFlag>(), Err(ParseFlagError::RequiredFlagAbsent("integer sign")));
    assert_eq!("uxy".parse::<SignFlag>(), Err(ParseFlagError::UnknownFlags("integer sign", "xy".to_string())));
}

#[test]
fn two_letter_flags() {
    assert_eq!(NoneEqFlag::parse("n"), Ok(NoneEqFlag::NonEqual));
    assert_eq!(NoneEqFlag::default(), NoneEqFlag::Equal);
    assert_eq!(NoneEqFlag::Equal.as_u1(), 1);
    assert_eq!(FloatEqFlag::parse("r"), Ok(FloatEqFlag::Rounding));
    assert_eq!(ExtendFlag::parse("f"), Ok(ExtendFlag::Fail));
    assert_eq!(ExtendFlag::from_u1(0), ExtendFlag::Extend);
    assert_eq!(SignFlag::from_u1(1), SignFlag::Signed);
}

#[test]
fn one_letter_flags() {
    assert_eq!(RoundingFlag::parse("c"), Ok(RoundingFlag::Ceil));
    assert_eq!(RoundingFlag::parse("zn"), Err(ParseFlagError::MutuallyExclusiveFlags("float rounding", 'z', 'n')));
    assert_eq!(RoundingFlag::default(), RoundingFlag::TowardsNearest);
    assert_eq!(RoundingFlag::Floor.as_u2(), 2);
    assert_eq!(MergeFlag::parse("o"), Ok(MergeFlag::Or));
    assert_eq!(MergeFlag::parse("sa"), Err(ParseFlagError::MutuallyExclusiveFlags("merge", 's', 'a')));
    assert_eq!(MergeFlag::parse("q"), Err(ParseFlagError::UnknownFlags("merge operation", "q".to_string())));
    assert_eq!(InsertFlag::parse("x"), Ok(InsertFlag::ExtendCut));
    assert_eq!(InsertFlag::from_u3(7), InsertFlag::Shorten);
    assert_eq!(InsertFlag::parse("aa"), Err(ParseFlagError::DuplicatedFlags("insert operation", "aa".to_string())));
    assert_eq!(DeleteFlag::parse("e"), Ok(DeleteFlag::Extend));
    assert_eq!(DeleteFlag::parse(""), Err(ParseFlagError::RequiredFlagAbsent("delete operation")));
    assert_eq!(DeleteFlag::Cut.as_u2(), 2);
}

#[test]
fn int_flags() {
    assert_eq!(IntFlags::parse("sw"), Ok(IntFlags::signed_wrapped()));
    assert_eq!(IntFlags::parse("cu"), Ok(IntFlags::unsigned_checked()));
    assert_eq!(IntFlags::parse("uw"), Ok(IntFlags::unsigned_wrapped()));
    assert_eq!(IntFlags::parse("sc"), Ok(IntFlags::signed_checked()));
    assert_eq!(IntFlags::parse("su"), Err(ParseFlagError::MutuallyExclusiveFlags("integer serialization", 's', 'u')));
    assert_eq!(IntFlags::parse("s"), Err(ParseFlagError::RequiredFlagAbsent("overflow")));
    assert_eq!(IntFlags::parse("swx"), Err(ParseFlagError::UnknownFlags("integer serialization", "x".to_string())));
    for v in 0..4u8 {
        assert_eq!(IntFlags::from_u2(v).as_u2(), v);
    }
    assert_eq!(IntFlags::unsigned_wrapped().as_u2(), 2);
}

#[test]
fn split_flag() {
    assert_eq!(SplitFlag::parse("n"), Ok(SplitFlag::NoneNone));
    assert_eq!(SplitFlag::parse("zn"), Ok(SplitFlag::ZeroNone));
    assert_eq!(SplitFlag::parse("nzz"), Err(ParseFlagError::UnknownFlags("split operation", "nzz".to_string())));
    assert_eq!(SplitFlag::from_u3(5), SplitFlag::CutZero);
    assert_eq!(SplitFlag::ZeroZero.as_u3(), 7);
}

#[test]
fn int_flags_text() {
    assert_eq!(IntFlags::signed_wrapped().to_string(), "sw");
    assert_eq!(IntFlags::unsigned_checked().to_string(), "uc");
}
