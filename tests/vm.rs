use aluvm::{CoreConfig, CtrlInstr, Instr, Instruction, IsaId, Lib, LibId, Site, Status, Vm, CYCLE_LIMIT};

fn lib_with(code: Vec<u8>, libs: Vec<LibId>) -> Lib {
    Lib { isa: IsaId::with("ALU").unwrap(), isae: vec![], libs, code, data: vec![] }
}

fn id(byte: u8) -> LibId {
    LibId { bytes: [byte; 30] }
}

fn run(code: Vec<u8>, halt: bool, complexity_lim: Option<u64>) -> Vm {
    let a = id(1);
    let lib = lib_with(code, vec![]);
    let mut vm = Vm::with(CoreConfig { halt, complexity_lim }, ());
    let status = vm.exec(Site::new(a, 0), &(), |x| if x == a { Some(&lib) } else { None });
    assert_eq!(status, vm.core.ck());
    vm
}

#[test]
fn nop_then_stop_succeeds() {
    let vm = run(vec![0x00, 0x10], true, None);
    assert_eq!(vm.core.ck(), Status::Success);
    assert_eq!(vm.core.cf(), 0);
}

#[test]
fn fail_then_stop_without_halt() {
    let vm = run(vec![0x04, 0x10], false, None);
    assert_eq!(vm.core.ck(), Status::Fail);
    assert_eq!(vm.core.cf(), 1);
}

#[test]
fn fail_with_halt_stops_at_once() {
    // the `fail` is followed by a jump which would be counted if it ran
    let vm = run(vec![0x04, 0x06, 0x00, 0x00], true, None);
    assert_eq!(vm.core.ck(), Status::Fail);
    assert_eq!(vm.core.cf(), 1);
    assert_eq!(vm.core.cy(), 0);
    let vm = run(vec![0x04], true, None);
    assert_eq!(vm.core.ck(), Status::Fail);
}

#[test]
fn jump_over_to_second_stop() {
    let vm = run(vec![0x06, 0x03, 0x00, 0x10, 0x10], true, None);
    assert_eq!(vm.core.ck(), Status::Success);
    assert_eq!(vm.core.cy(), 1);
}

#[test]
fn call_and_return_repeat_until_cycle_limit() {
    // fn 0x0004; stop; ret — the return lands on the `fn`, which runs again
    let vm = run(vec![0x0D, 0x04, 0x00, 0x10, 0x0F], true, None);
    assert_eq!(vm.core.ck(), Status::Fail);
    assert_eq!(vm.core.cy(), CYCLE_LIMIT);
    assert!(vm.core.cp() <= 1);
}

#[test]
fn endless_loop_ends_at_cycle_limit() {
    let vm = run(vec![0x06, 0x00, 0x00], false, None);
    assert_eq!(vm.core.ck(), Status::Fail);
    assert_eq!(vm.core.cy(), CYCLE_LIMIT);
    assert_eq!(vm.core.cf(), 1);
}

#[test]
fn external_call_into_other_library() {
    let a = id(1);
    let b = id(2);
    let lib_a = lib_with(vec![0x0E, 0x00, 0x00, 0x00], vec![b]);
    let lib_b = lib_with(vec![0x10], vec![]);
    let mut vm = Vm::new();
    let status = vm.exec(Site::new(a, 0), &(), |x| {
        if x == a {
            Some(&lib_a)
        } else if x == b {
            Some(&lib_b)
        } else {
            None
        }
    });
    assert_eq!(status, Status::Success);
    assert_eq!(vm.core.cp(), 1);
    assert_eq!(vm.core.cy(), 1);
}

#[test]
fn external_jump_into_other_library() {
    let a = id(1);
    let b = id(2);
    let lib_a = lib_with(vec![0x0C, 0x00, 0x00, 0x00], vec![b]);
    let lib_b = lib_with(vec![0x10], vec![]);
    let mut vm = Vm::new();
    let status = vm.exec(Site::new(a, 0), &(), |x| {
        if x == a {
            Some(&lib_a)
        } else if x == b {
            Some(&lib_b)
        } else {
            None
        }
    });
    assert_eq!(status, Status::Success);
    assert_eq!(vm.core.cp(), 0);
}

#[test]
fn unresolved_library_fails() {
    let a = id(1);
    let mut vm = Vm::new();
    let status = vm.exec(Site::new(a, 0), &(), |_| None);
    assert_eq!(status, Status::Fail);
    assert_eq!(vm.core.cf(), 1);
}

#[test]
fn zero_complexity_limit_fails_first_costly_instruction() {
    let vm = run(vec![0x06, 0x03, 0x00, 0x10], false, Some(0));
    assert_eq!(vm.core.ck(), Status::Fail);
    assert_eq!(vm.core.cy(), 0);
    assert_eq!(vm.core.ca(), 16000);
}

#[test]
fn complexity_limit_stops_before_instruction() {
    let vm = run(vec![0x06, 0x03, 0x00, 0x06, 0x06, 0x00, 0x10], true, Some(20000));
    assert_eq!(vm.core.ck(), Status::Fail);
    assert_eq!(vm.core.cy(), 1);
    assert_eq!(vm.core.ca(), 32000);
}

#[test]
fn reserved_instruction_fails() {
    let vm = run(vec![0x20, 0x10], false, None);
    assert_eq!(vm.core.ck(), Status::Fail);
    assert_eq!(vm.core.cf(), 1);
}

#[test]
fn reset_keeps_configuration() {
    let mut vm = run(vec![0x04, 0x06, 0x04, 0x00, 0x10], false, Some(1_000_000));
    assert_eq!(vm.core.ck(), Status::Fail);
    assert_eq!(vm.core.cy(), 1);
    vm.reset();
    assert_eq!(vm.core.ck(), Status::Success);
    assert_eq!(vm.core.co(), Status::Success);
    assert_eq!(vm.core.cf(), 0);
    assert_eq!(vm.core.cy(), 0);
    assert_eq!(vm.core.ca(), 0);
    assert_eq!(vm.core.cp(), 0);
    assert!(!vm.core.ch());
    assert_eq!(vm.core.cl(), Some(1_000_000));
}

#[test]
fn relative_jump_backwards_and_conditions() {
    // not CO; jif CO +3; stop; mov CO, CK; chk CO; stop
    let vm = run(vec![0x01, 0x0A, 0x03, 0x10, 0x05, 0x02, 0x10], false, None);
    assert_eq!(vm.core.ck(), Status::Success);
    assert_eq!(vm.core.co(), Status::Success);
    assert_eq!(vm.core.cy(), 1);
}

#[test]
fn unresolved_site_moves_one_byte_further() {
    let a = id(1);
    let mut vm = Vm::with(CoreConfig { halt: false, complexity_lim: None }, ());
    assert_eq!(vm.exec_site(Site::new(a, 5), true, None, &()), aluvm::Jump::Next(Site::new(a, 6)));
    assert_eq!(vm.exec_site(Site::new(a, 6), false, None, &()), aluvm::Jump::Instr(Site::new(a, 7)));
    assert_eq!(vm.exec_site(Site::new(a, 0xFFFF), false, None, &()), aluvm::Jump::Halt);
    assert_eq!(vm.core.cf(), 3);
    let mut vm = Vm::new();
    assert_eq!(vm.exec_site(Site::new(a, 5), false, None, &()), aluvm::Jump::Halt);
}

#[test]
fn library_returns_control_on_call() {
    let a = id(1);
    let b = id(2);
    let lib = lib_with(vec![0x00, 0x0E, 0x00, 0x34, 0x12], vec![b]);
    let mut vm = Vm::new();
    assert_eq!(lib.exec(a, 0, false, &mut vm.core, &()), aluvm::Jump::Instr(Site::new(b, 0x1234)));
    assert_eq!(vm.core.pop_cs(), Some(Site::new(a, 1)));
    assert_eq!(lib.exec(a, 6, false, &mut vm.core, &()), aluvm::Jump::Halt);
    assert_eq!(vm.core.ck(), Status::Fail);
}

#[test]
fn instruction_trait_dispatch() {
    let jmp: Instr<LibId> = Instr::Ctrl(CtrlInstr::Jmp { pos: 3 });
    assert_eq!(<Instr<LibId> as Instruction>::base_complexity(&jmp), 16000);
    assert_eq!(<Instr<LibId> as Instruction>::complexity(&jmp), 16000);
    let mut vm = Vm::new();
    let step = <Instr<LibId> as Instruction>::exec(&jmp, Site::new(id(1), 0), &mut vm.core, &());
    assert_eq!(step, aluvm::ExecStep::Jump(3));
}
