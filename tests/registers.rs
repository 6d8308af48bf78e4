use aluvm::{
    Core, NoExt, Reg16, Reg32, Reg8, RegA, RegA2, RegAF, RegAFR, RegAR, RegAll, RegBlock, RegBlockAFR, RegBlockAR, RegF,
    RegR, RegS, Site, LibId, Status, CALL_STACK_SIZE_MAX,
};

#[test]
fn register_widths() {
    assert_eq!(RegA::with(64), Some(RegA::A64));
    assert_eq!(RegA::with(63), None);
    assert_eq!(RegA2::with(16), Some(RegA2::A16));
    assert_eq!(RegF::with(16, true), Some(RegF::F16B));
    assert_eq!(RegF::with(16, false), Some(RegF::F16));
    assert_eq!(RegF::with(80, false).map(|f| f.bytes()), Some(10));
    assert_eq!(RegR::with(160), Some(RegR::R160));
    assert_eq!(RegA::A1024.bytes(), 128);
    assert_eq!(RegA::from_u3(5), RegA::A256);
    assert_eq!(RegR::R4096.to_u3(), 6);
}

#[test]
fn register_families() {
    assert_eq!(RegAll::F(RegF::F32).reg_f(), Some(RegF::F32));
    assert_eq!(RegAll::S.reg_a(), None);
    assert_eq!(RegAll::R(RegR::R128).family_name(), "R register");
    assert_eq!(RegAll::S.family_name(), "S register");
    assert_eq!(RegAFR::R(RegR::R256).reg_r(), Some(RegR::R256));
    assert_eq!(RegAFR::from_all(RegAll::S), None);
    assert_eq!(RegAF::from_u4(9), RegAF::F(RegF::F16));
    assert_eq!(RegAF::A(RegA::A32).to_u4(), 2);
    assert_eq!(RegAR::from(1, 3), RegAR::R(RegR::R512));
    assert_eq!(RegAR::R(RegR::R512).to_u4(), 11);
    assert_eq!(RegBlockAR::A.into_reg(128), Some(RegAR::A(RegA::A128)));
    assert_eq!(RegBlockAR::R.into_reg(8), None);
    assert_eq!(RegBlockAFR::F.into_reg(16), Some(RegAFR::F(RegF::F16)));
    assert_eq!(RegBlock::of(RegAll::S), RegBlock::S);
}

#[test]
fn register_indexes() {
    assert_eq!(Reg32::Reg17.to_usize(), 17);
    assert_eq!(Reg16::from_reg32(Reg32::Reg17), None);
    assert_eq!(Reg16::from_reg32(Reg32::Reg15), Some(Reg16::Reg15));
    assert_eq!(Reg8::Reg7.to_reg32(), Reg32::Reg7);
    assert_eq!(RegS::from_u8(18).as_u8(), 2);
    assert_eq!(RegS::from_reg32(Reg32::Reg16), None);
    assert_eq!(RegS::from_reg32(Reg32::Reg3).map(|s| s.as_usize()), Some(3));
}

#[test]
fn call_stack_is_bounded() {
    let mut core: Core<NoExt> = Core::new();
    let id = LibId { bytes: [4; 30] };
    for i in 0..CALL_STACK_SIZE_MAX {
        assert_eq!(core.push_cs(Site::new(id, i)), Some(()));
    }
    assert_eq!(core.cp(), CALL_STACK_SIZE_MAX);
    assert_eq!(core.push_cs(Site::new(id, 0xFFFF)), None);
    assert_eq!(core.cp(), CALL_STACK_SIZE_MAX);
    assert_eq!(core.pop_cs(), Some(Site::new(id, CALL_STACK_SIZE_MAX - 1)));
    assert_eq!(core.cp(), CALL_STACK_SIZE_MAX - 1);
    let mut empty: Core<NoExt> = Core::new();
    assert_eq!(empty.pop_cs(), None);
}

#[test]
fn core_failure_register() {
    let mut core: Core<NoExt> = Core::new();
    assert!(core.fail_ck());
    assert!(!core.fail_ck());
    assert_eq!(core.cf(), 2);
    assert_eq!(core.ck(), Status::Fail);
    core.reset_ck();
    assert_eq!(core.ck(), Status::Success);
    assert_eq!(!Status::Success, Status::Fail);
    assert!(core.jmp());
    assert_eq!(core.cy(), 1);
    assert!(core.acc_complexity(u64::MAX));
    assert!(core.acc_complexity(5));
    assert_eq!(core.ca(), u64::MAX);
}

#[test]
fn family_conversions() {
    assert_eq!(RegAF::from_all(RegAll::R(RegR::R128)), None);
    assert_eq!(RegAR::from_all(RegAll::R(RegR::R128)), Some(RegAR::R(RegR::R128)));
    assert_eq!(RegAR::A(RegA::A8).into_all(), RegAll::A(RegA::A8));
    assert_eq!(RegBlockAR::of(RegAll::F(RegF::F32)), None);
    assert_eq!(RegBlockAFR::of(RegAll::F(RegF::F32)), Some(RegBlockAFR::F));
    assert_eq!(RegA2::from_reg_a(RegA::A16), Some(RegA2::A16));
    assert_eq!(RegA::from_a2(RegA2::A8), RegA::A8);
    assert_eq!(RegA::description(), "A register");
}

#[test]
fn numeric_register_widths() {
    use_numeric(&RegA::A256, 256);
    use_numeric(&RegAFR::F(RegF::F80), 80);
    use_numeric(&RegAR::R(RegR::R8192), 8192);
}

fn use_numeric<R: aluvm::NumericRegister>(reg: &R, bits: u16) {
    assert_eq!(reg.bits(), bits);
}
