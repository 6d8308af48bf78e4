use aluvm::{
    AssemblerError, CtrlInstr, DecodeError, Instr, IsaId, Lib, LibId, MarshallError, Marshaller, ReservedInstr, Site,
};

fn id(byte: u8) -> LibId {
    let mut bytes = [0u8; 30];
    bytes[0] = byte;
    LibId { bytes }
}

fn program() -> Vec<Instr<LibId>> {
    vec![
        Instr::Ctrl(CtrlInstr::Nop),
        Instr::Ctrl(CtrlInstr::Call { site: Site::new(id(9), 0x0102) }),
        Instr::Ctrl(CtrlInstr::Exec { site: Site::new(id(3), 0x0304) }),
        Instr::Ctrl(CtrlInstr::Sh { shift: 127 }),
        Instr::Ctrl(CtrlInstr::ShFail { shift: -128 }),
        Instr::Ctrl(CtrlInstr::ChkCo),
        Instr::Ctrl(CtrlInstr::Call { site: Site::new(id(9), 0xFFFF) }),
        Instr::Reserved(ReservedInstr::default()),
        Instr::Ctrl(CtrlInstr::Stop),
    ]
}

#[test]
fn assemble_orders_libs_and_encodes() {
    let lib = Lib::assemble(&program()).unwrap();
    assert_eq!(lib.libs, vec![id(3), id(9)]);
    assert_eq!(lib.code, vec![
        0x00, 0x0E, 0x01, 0x02, 0x01, 0x0C, 0x00, 0x04, 0x03, 0x09, 0x7F, 0x0B, 0x80, 0x02, 0x0E, 0x01, 0xFF,
        0xFF, 0xFF, 0x10
    ]);
    assert!(lib.data.is_empty());
    assert!(lib.isae.is_empty());
    assert_eq!(lib.isa.as_str(), "ALU");
}

#[test]
fn disassemble_gives_back_instructions() {
    let code = program();
    let lib = Lib::assemble(&code).unwrap();
    assert_eq!(lib.disassemble().unwrap(), code);
    let again = Lib::assemble(&lib.disassemble().unwrap()).unwrap();
    assert_eq!(again.code, lib.code);
    assert_eq!(again.data, lib.data);
}

#[test]
fn disassemble_truncated_instruction() {
    let lib = Lib { isa: IsaId::with("ALU").unwrap(), isae: vec![], libs: vec![], code: vec![0x10, 0x06, 0x01], data: vec![] };
    assert_eq!(lib.disassemble(), Err(DecodeError::CodeEof));
}

#[test]
fn disassemble_absent_library() {
    let lib = Lib { isa: IsaId::with("ALU").unwrap(), isae: vec![], libs: vec![id(1)], code: vec![0x0C, 0x01, 0x00, 0x00], data: vec![] };
    assert_eq!(lib.disassemble(), Err(DecodeError::LibAbsent));
}

#[test]
fn assemble_too_many_libraries() {
    let code: Vec<Instr<LibId>> = (0..256u16)
        .map(|i| {
            let mut bytes = [0u8; 30];
            bytes[0] = (i % 256) as u8;
            bytes[1] = (i / 256) as u8;
            Instr::Ctrl(CtrlInstr::Call { site: Site::new(LibId { bytes }, 0) })
        })
        .collect();
    assert_eq!(Lib::assemble(&code).unwrap_err(), AssemblerError::LibSegOverflow);
    assert!(Lib::assemble(&code[..255]).is_ok());
}

#[test]
fn assemble_too_much_code() {
    let code = vec![Instr::Ctrl(CtrlInstr::<LibId>::Jmp { pos: 0 }); 21846];
    assert_eq!(Lib::assemble(&code).unwrap_err(), AssemblerError::Bytecode(MarshallError::CodeOverflow));
    let code = vec![Instr::Ctrl(CtrlInstr::<LibId>::Jmp { pos: 0 }); 21845];
    assert_eq!(Lib::assemble(&code).unwrap().code.len(), 65535);
}

#[test]
fn marshaller_appends_absent_library() {
    let libs = vec![id(1)];
    let mut m = Marshaller::new(&libs);
    m.write_ref(id(2)).unwrap();
    m.write_ref(id(1)).unwrap();
    m.write_word(0xBEEF).unwrap();
    assert_eq!(m.libs(), &vec![id(1), id(2)]);
    let (code, data) = m.finish();
    assert_eq!(code, vec![0x01, 0x00, 0xEF, 0xBE]);
    let mut r = Marshaller::with(code, data, &vec![id(1), id(2)]);
    assert_eq!(r.read_ref(), Ok(id(2)));
    assert_eq!(r.offset(), 1);
    assert_eq!(r.read_ref(), Ok(id(1)));
    assert_eq!(r.read_word(), Ok(0xBEEF));
    assert!(r.is_eof());
    assert_eq!(r.read_byte(), Err(DecodeError::CodeEof));
    assert_eq!(r.seek(5), Err(DecodeError::CodeEof));
    assert_eq!(r.seek(1), Ok(()));
    assert_eq!(r.read_byte(), Ok(0x00));
}

#[test]
fn marshaller_libs_segment_full() {
    let libs: Vec<LibId> = (0..255u8).map(id).collect();
    let mut m = Marshaller::new(&libs);
    assert!(m.write_ref(id(200)).is_ok());
    let mut bytes = [7u8; 30];
    bytes[29] = 1;
    assert_eq!(m.write_ref(LibId { bytes }), Err(MarshallError::LibSegOverflow));
    assert_eq!(m.finish().0, vec![200]);
}

#[test]
fn instruction_metadata() {
    let call = Instr::Ctrl(CtrlInstr::Call { site: Site::new(id(1), 5) });
    assert_eq!(call.complexity(), (2 + 2 * 32) * 8 * 1000);
    assert_eq!(call.code_byte_len(), 4);
    assert_eq!(call.ext_data_bytes(), 32);
    assert_eq!(call.op_data_bytes(), 2);
    let jmp: Instr<LibId> = Instr::Ctrl(CtrlInstr::Jmp { pos: 1 });
    assert_eq!(jmp.complexity(), 16000);
    assert!(!jmp.is_goto_target());
    let nop: Instr<LibId> = Instr::Ctrl(CtrlInstr::Nop);
    assert!(nop.is_goto_target());
    assert_eq!(nop.complexity(), 0);
    assert!(nop.src_regs().is_empty() && nop.dst_regs().is_empty());
    let reserved: Instr<LibId> = Instr::Reserved(ReservedInstr::default());
    assert_eq!(reserved.complexity(), u64::MAX);
    assert_eq!(reserved.opcode_byte(), 0xFF);
    assert_eq!(ReservedInstr::with(0x10), None);
    assert_eq!(ReservedInstr::with(0x11).map(|r| r.opcode_byte()), Some(0x11));
}

#[test]
fn goto_positions_can_be_patched() {
    let mut jmp: Instr<LibId> = Instr::Ctrl(CtrlInstr::JiFail { pos: 1 });
    *jmp.local_goto_pos().unwrap() = 7;
    assert_eq!(jmp, Instr::Ctrl(CtrlInstr::JiFail { pos: 7 }));
    assert!(jmp.remote_goto_pos().is_none());
    let mut call = Instr::Ctrl(CtrlInstr::Exec { site: Site::new(id(1), 5) });
    call.remote_goto_pos().unwrap().offset = 9;
    assert_eq!(call, Instr::Ctrl(CtrlInstr::Exec { site: Site::new(id(1), 9) }));
    assert!(call.local_goto_pos().is_none());
    let mut sh: Instr<LibId> = Instr::Ctrl(CtrlInstr::Sh { shift: 1 });
    assert!(sh.local_goto_pos().is_none());
}

#[test]
fn isa_id_validity() {
    assert!(IsaId::with("ALU64").is_some());
    assert!(IsaId::with("").is_none());
    assert!(IsaId::with("alu").is_none());
    assert!(IsaId::with("ABCDEFGHIJKLMNOPQ").is_none());
    assert!(IsaId::with("ABCDEFGHIJKLMNOP").is_some());
}

#[test]
fn instruction_text() {
    assert_eq!(Instr::Ctrl(CtrlInstr::<LibId>::Jmp { pos: 0x75AE }).to_string(), "jmp     75AE#h");
    assert_eq!(Instr::Ctrl(CtrlInstr::<LibId>::ShOvfl { shift: -5 }).to_string(), "jif     CO, +FB#h");
    assert_eq!(Instr::Ctrl(CtrlInstr::<LibId>::RsetCk).to_string(), "mov     CO, CK");
    assert_eq!(Instr::<LibId>::Reserved(ReservedInstr::default()).to_string(), "halt    0xFF.h");
    let site = Site::new(LibId { bytes: [0xAB; 30] }, 0x0012);
    assert_eq!(Instr::Ctrl(CtrlInstr::Call { site }).to_string(), format!("call    {}@0012#h", "AB".repeat(30)));
}

#[test]
fn disassembly_listing() {
    let lib = Lib { isa: IsaId::with("ALU").unwrap(), isae: vec![], libs: vec![], code: vec![0x00, 0x06, 0x01], data: vec![] };
    assert_eq!(
        lib.print_disassemble(),
        "@x000000: nop\n@x000001: ; <incomplete instruction>\n@x000002: not     CO\n"
    );
    let lib = Lib::assemble(&[Instr::Ctrl(CtrlInstr::Fn { pos: 4 }), Instr::Ctrl(CtrlInstr::Stop)]).unwrap();
    assert_eq!(lib.print_disassemble(), "@x000000: call    0004#h\n@x000003: stop\n");
}

#[test]
fn data_segment_round_trip() {
    let libs = vec![];
    let mut m = Marshaller::new(&libs);
    m.write_data(&[1, 2, 3]).unwrap();
    m.write_data(&[9]).unwrap();
    let (code, data) = m.finish();
    assert_eq!(data, vec![1, 2, 3, 9]);
    assert_eq!(code, vec![0, 0, 3, 0, 3, 0, 1, 0]);
    let mut r = Marshaller::with(code, data, &libs);
    assert_eq!(r.read_data(), Ok(vec![1, 2, 3]));
    assert_eq!(r.read_data(), Ok(vec![9]));
    assert_eq!(r.read_data(), Err(DecodeError::CodeEof));
    let mut r = Marshaller::with(vec![2, 0, 5, 0], vec![0; 4], &libs);
    assert_eq!(r.read_data(), Err(DecodeError::DataAbsent));
}

#[test]
fn base_complexity_of_instructions() {
    let exec = Instr::Ctrl(CtrlInstr::Exec { site: Site::new(id(1), 5) });
    assert_eq!(exec.base_complexity(), 528_000);
    let sh: Instr<LibId> = Instr::Ctrl(CtrlInstr::Sh { shift: 1 });
    assert_eq!(sh.base_complexity(), 8000);
    assert_eq!(sh.complexity(), 8000);
    let reserved: Instr<LibId> = Instr::Reserved(ReservedInstr::default());
    assert_eq!(reserved.base_complexity(), 0);
}

#[test]
fn truncated_external_reference_is_code_eof() {
    let lib = Lib { isa: IsaId::with("ALU").unwrap(), isae: vec![], libs: vec![], code: vec![0x0C, 0x05], data: vec![] };
    assert_eq!(lib.disassemble(), Err(DecodeError::CodeEof));
    let mut m = Marshaller::with(vec![0x05], vec![], &vec![]);
    assert_eq!(CtrlInstr::decode_operands(&mut m, 0x0E), Err(DecodeError::CodeEof));
}

#[test]
fn encode_operands_reports_full_segments() {
    let libs: Vec<LibId> = (0..255u8).map(id).collect();
    let mut m = Marshaller::new(&libs);
    let mut bytes = [3u8; 30];
    bytes[29] = 9;
    let call = CtrlInstr::Call { site: Site::new(LibId { bytes }, 1) };
    assert_eq!(call.encode_operands(&mut m), Err(MarshallError::LibSegOverflow));
    assert_eq!(CtrlInstr::Call { site: Site::new(id(4), 0x0201) }.encode_operands(&mut m), Ok(()));
    assert_eq!(m.finish().0, vec![4, 0x01, 0x02]);
}

#[test]
fn goto_target_tells_absolute_from_relative() {
    let mut sh: Instr<LibId> = Instr::Ctrl(CtrlInstr::ShFail { shift: 3 });
    match sh.goto_target() {
        aluvm::GotoTarget::Relative(shift) => *shift = -2,
        _ => panic!("a relative jump"),
    }
    assert_eq!(sh, Instr::Ctrl(CtrlInstr::ShFail { shift: -2 }));
    let mut jmp = CtrlInstr::<LibId>::Fn { pos: 1 };
    match jmp.goto_target() {
        aluvm::GotoTarget::Absolute(pos) => *pos = 9,
        _ => panic!("an absolute jump"),
    }
    assert_eq!(jmp, CtrlInstr::Fn { pos: 9 });
    let mut stop: Instr<LibId> = Instr::Ctrl(CtrlInstr::Stop);
    assert!(matches!(stop.goto_target(), aluvm::GotoTarget::NoTarget));
}
