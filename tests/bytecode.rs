use aluvm::opcodes::{CALL, CHCK, EXEC, FAIL, FN, JIFAIL, JINE, JMP, NOCO, NOP, RET, RSET, SH, SHFAIL, SHNE, STOP};
use aluvm::{CtrlInstr, Instr, LibId, Marshaller, Site};

fn lib_id() -> LibId {
    let mut bytes = [0u8; 30];
    for (i, b) in bytes.iter_mut().enumerate() {
        *b = (i as u8).wrapping_mul(37).wrapping_add(5);
    }
    LibId { bytes }
}

fn roundtrip(instr: CtrlInstr<LibId>, bytecode: &[u8]) -> Vec<u8> {
    let instr = Instr::Ctrl(instr);
    let libs = vec![lib_id()];
    let mut marshaller = Marshaller::new(&libs);
    instr.encode_instr(&mut marshaller).unwrap();
    let (code, data) = marshaller.finish();
    assert_eq!(code.len(), instr.code_byte_len() as usize);
    assert_eq!(code.as_slice(), bytecode);
    let mut marshaller = Marshaller::with(code, data, &libs);
    let decoded = Instr::decode_instr(&mut marshaller).unwrap();
    assert_eq!(decoded, instr);
    marshaller.finish().1
}

#[test]
fn nop() {
    roundtrip(CtrlInstr::Nop, &[NOP]);
}

#[test]
fn chk() {
    roundtrip(CtrlInstr::ChkCk, &[CHCK]);
}

#[test]
fn not_co() {
    roundtrip(CtrlInstr::NotCo, &[NOCO]);
}

#[test]
fn fail_ck() {
    roundtrip(CtrlInstr::FailCk, &[FAIL]);
}

#[test]
fn reset_ck() {
    roundtrip(CtrlInstr::RsetCk, &[RSET]);
}

#[test]
fn jmp() {
    roundtrip(CtrlInstr::Jmp { pos: 0x75AE }, &[JMP, 0xAE, 0x75]);
}

#[test]
fn jine() {
    roundtrip(CtrlInstr::JiOvfl { pos: 0x75AE }, &[JINE, 0xAE, 0x75]);
}

#[test]
fn jifail() {
    roundtrip(CtrlInstr::JiFail { pos: 0x75AE }, &[JIFAIL, 0xAE, 0x75]);
}

#[test]
fn sh() {
    roundtrip(CtrlInstr::Sh { shift: -0x5 }, &[SH, 255 - 5 + 1]);
}

#[test]
fn shne() {
    roundtrip(CtrlInstr::ShOvfl { shift: -0x5 }, &[SHNE, 255 - 5 + 1]);
}

#[test]
fn shfail() {
    roundtrip(CtrlInstr::ShFail { shift: -0x5 }, &[SHFAIL, 255 - 5 + 1]);
}

#[test]
fn exec() {
    roundtrip(CtrlInstr::Exec { site: Site::new(lib_id(), 0x69AB) }, &[EXEC, 0x00, 0xAB, 0x69]);
}

#[test]
fn func() {
    roundtrip(CtrlInstr::Fn { pos: 0x75AE }, &[FN, 0xAE, 0x75]);
}

#[test]
fn call() {
    roundtrip(CtrlInstr::Call { site: Site::new(lib_id(), 0x69AB) }, &[CALL, 0x00, 0xAB, 0x69]);
}

#[test]
fn ret() {
    roundtrip(CtrlInstr::Ret, &[RET]);
}

#[test]
fn stop() {
    roundtrip(CtrlInstr::Stop, &[STOP]);
}
