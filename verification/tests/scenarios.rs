use rv2wasm::cfg::build as build_graph;
use rv2wasm::compile_region;
use rv2wasm::disasm::disassemble;
use rv2wasm::elf::{CodeSection, ElfInfo, Segment};
use rv2wasm::translate::translate;
use rv2wasm::wasm_builder::build;
use wasmi::{Caller, Engine, Linker, Memory, MemoryType, Module, Store};

/// Base of the machine-state region in linear memory.
const M: u32 = 0x10000;

struct Outcome {
    result: i32,
    memory: Vec<u8>,
    requests: Vec<u32>,
}

impl Outcome {
    fn x(&self, reg: usize) -> u64 {
        let at = M as usize + 8 * reg;
        u64::from_le_bytes(self.memory[at..at + 8].try_into().unwrap())
    }

    fn word(&self, addr: usize) -> u64 {
        u64::from_le_bytes(self.memory[addr..addr + 8].try_into().unwrap())
    }
}

fn bytes_of(code: &[u32]) -> Vec<u8> {
    let mut data = Vec::new();
    for w in code {
        data.extend_from_slice(&w.to_le_bytes());
    }
    data
}

fn translate_bytes(data: Vec<u8>, base: u64, opt_level: u8, debug: bool) -> Vec<u8> {
    let section = CodeSection { vaddr: base, data, name: String::from("test") };
    let instructions = disassemble(&section).unwrap();
    let graph = build_graph(&instructions, base).unwrap();
    let info = ElfInfo {
        entry: base,
        is_pie: false,
        interpreter: None,
        segments: vec![Segment { vaddr: base, memsz: 0x1000, filesz: 0x1000, offset: 0, flags: 5 }],
        phdr_vaddr: 0,
        phdr_count: 1,
    };
    let module = translate(&graph, &info, opt_level, debug).unwrap();
    assert_eq!(module.memory_pages, 8);
    build(&module).unwrap()
}

fn execute(wasm: &[u8], start_pc: u32, setup: &[(usize, u64)]) -> Outcome {
    let engine = Engine::default();
    let module = Module::new(&engine, wasm).expect("the module is valid");
    let mut store = Store::new(&engine, Vec::<u32>::new());
    let memory = Memory::new(&mut store, MemoryType::new(8, Some(32))).unwrap();
    for (addr, value) in setup {
        memory.write(&mut store, *addr, &value.to_le_bytes()).unwrap();
    }
    let mut linker = Linker::<Vec<u32>>::new(&engine);
    linker.define("env", "memory", memory).unwrap();
    linker
        .func_wrap("env", "syscall", |mut caller: Caller<'_, Vec<u32>>, _m: i32, pc: i32| -> i32 {
            caller.data_mut().push(pc as u32);
            -1
        })
        .unwrap();
    let instance = linker.instantiate_and_start(&mut store, &module).unwrap();
    let run = instance.get_typed_func::<(i32, i32), i32>(&store, "run").unwrap();
    let result = run.call(&mut store, (M as i32, start_pc as i32)).expect("run returns");
    let mut bytes = vec![0u8; 8 * 65536];
    memory.read(&store, 0, &mut bytes).unwrap();
    let requests = store.data().clone();
    Outcome { result, memory: bytes, requests }
}

fn run_words(code: &[u32], opt_level: u8) -> Outcome {
    let wasm = translate_bytes(bytes_of(code), 0x1000, opt_level, false);
    execute(&wasm, 0x1000, &[])
}

#[test]
fn single_addi_stores_seven_and_halts() {
    for opt in [0, 2] {
        let out = run_words(&[0x00700293], opt); // addi x5, x0, 7
        assert_eq!(out.x(5), 7);
        assert_eq!(out.result, 0);
        assert!(out.requests.is_empty());
    }
}

#[test]
fn counting_loop_runs_down_to_zero() {
    for opt in [0, 2] {
        // addi x5,x0,3 ; addi x5,x5,-1 ; bne x5,x0,-4
        let out = run_words(&[0x00300293, 0xfff28293, 0xfe029ee3], opt);
        assert_eq!(out.x(5), 0);
        assert_eq!(out.result, 0);
    }
}

#[test]
fn call_and_return_reach_the_breakpoint() {
    for opt in [0, 2] {
        // main: jal x1, f ; ebreak.  f: addi x10,x0,42 ; jalr x0, 0(x1)
        let out = run_words(&[0x008000ef, 0x00100073, 0x02a00513, 0x00008067], opt);
        assert_eq!(out.x(10), 42);
        assert_eq!(out.x(1), 0x1004);
        assert_eq!(out.requests, vec![0xC000_0000 | 0x1004]);
        assert_eq!(out.result, 0);
    }
}

#[test]
fn compressed_and_base_instructions_mix() {
    for opt in [0, 2] {
        // c.li x8,5 ; addi x8,x8,100 ; c.addi x8,-3 ; addi x8,x8,-200
        let data: Vec<u8> =
            vec![0x15, 0x44, 0x13, 0x04, 0x44, 0x06, 0x75, 0x14, 0x13, 0x04, 0x84, 0xf3];
        let wasm = translate_bytes(data, 0x1000, opt, false);
        let out = execute(&wasm, 0x1000, &[]);
        assert_eq!(out.x(8) as i64, -98);
        assert_eq!(out.result, 0);
    }
}

#[test]
fn store_and_reload_compare_equal() {
    for opt in [0, 2] {
        // lui x6,2 ; addi x5,x0,-1 ; slli x5,x5,13 ; addi x5,x5,0x123 ; sd x5,8(x6) ;
        // ld x7,8(x6) ; bne x5,x7,+12 ; addi x10,x0,1 ; ebreak ; addi x10,x0,2 ; ebreak
        let out = run_words(
            &[
                0x00002337, 0xfff00293, 0x00d29293, 0x12328293, 0x00533423, 0x00833383,
                0x00729663, 0x00100513, 0x00100073, 0x00200513, 0x00100073,
            ],
            opt,
        );
        let pattern = ((-1i64 << 13) + 0x123) as u64;
        assert_eq!(out.x(5), pattern);
        assert_eq!(out.word(0x2008), pattern);
        assert_eq!(out.x(7), pattern);
        assert_eq!(out.x(10), 1);
        assert_eq!(out.requests, vec![0xC000_0000 | 0x1020]);
    }
}

#[test]
fn unknown_opcode_halts_and_keeps_earlier_writes() {
    for opt in [0, 2] {
        // addi x5,x0,7 ; 0x00000000 ; addi x6,x0,9
        let wasm = translate_bytes(bytes_of(&[0x00700293, 0x00000000, 0x00900313]), 0x1000, opt, false);
        let out = execute(&wasm, 0x1000, &[]);
        assert_eq!(out.x(5), 7);
        assert_eq!(out.x(6), 0);
        assert_eq!(out.result, 0);
        // a run that starts at the invalid word halts at once
        let out = execute(&wasm, 0x1004, &[(M as usize + 40, 7)]);
        assert_eq!(out.x(5), 7);
        assert_eq!(out.x(6), 0);
        assert_eq!(out.result, 0);
        assert!(out.requests.is_empty());
    }
}

#[test]
fn system_call_is_handed_to_the_host_with_its_pc() {
    // addi x17,x0,93 ; ecall
    let out = run_words(&[0x05d00893, 0x00000073], 2);
    assert_eq!(out.x(17), 93);
    assert_eq!(out.requests, vec![0x8000_0000 | 0x1004]);
    assert_eq!(out.result, 0);
}

#[test]
fn indirect_call_with_inline_cache_returns_to_its_caller() {
    for opt in [0, 2] {
        // lui x5,1 ; addi x5,x5,0x10 ; jalr x1,0(x5) ; ebreak ; f: addi x10,x0,42 ; jalr x0,0(x1)
        let out = run_words(
            &[0x000012b7, 0x01028293, 0x000280e7, 0x00100073, 0x02a00513, 0x00008067],
            opt,
        );
        assert_eq!(out.x(10), 42);
        assert_eq!(out.x(1), 0x100c);
        assert_eq!(out.requests, vec![0xC000_0000 | 0x100c]);
    }
}

#[test]
fn call_through_the_link_register_reads_it_before_linking() {
    for opt in [0, 2] {
        // auipc x1,0 ; jalr x1,12(x1) ; ebreak ; f: addi x10,x0,42 ; jalr x0,0(x1)
        let out =
            run_words(&[0x00000097, 0x00c080e7, 0x00100073, 0x02a00513, 0x00008067], opt);
        assert_eq!(out.x(10), 42);
        assert_eq!(out.x(1), 0x1008);
        assert_eq!(out.requests, vec![0xC000_0000 | 0x1008]);
    }
}

#[test]
fn branches_compare_signed_and_unsigned() {
    for opt in [0, 2] {
        // x5 = -1, x6 = 1
        // blt x5,x6,+8 (taken) ; addi x10,x0,1 ; bltu x5,x6,+8 (not taken) ; addi x11,x0,1 ;
        // bge x6,x5,+8 (taken) ; addi x12,x0,1 ; ebreak
        let out = run_words(
            &[
                0xfff00293, 0x00100313, 0x0062c463, 0x00100513, 0x0062e463, 0x00100593,
                0x00535463, 0x00100613, 0x00100073,
            ],
            opt,
        );
        assert_eq!(out.x(10), 0);
        assert_eq!(out.x(11), 1);
        assert_eq!(out.x(12), 0);
        assert_eq!(out.requests, vec![0xC000_0000 | 0x1020]);
    }
}

#[test]
fn word_operations_sign_extend_their_result() {
    for opt in [0, 2] {
        // addi x5,x0,-1 ; srli x5,x5,32 ; addw x6,x5,x0 ; addiw x7,x5,1 ; mul x8,x5,x5 ; ebreak
        let out = run_words(
            &[0xfff00293, 0x0202d293, 0x0002833b, 0x0012839b, 0x02528433, 0x00100073],
            opt,
        );
        assert_eq!(out.x(5), 0xffff_ffff);
        assert_eq!(out.x(6), u64::MAX);
        assert_eq!(out.x(7), 0);
        assert_eq!(out.x(8), 0xffff_fffe_0000_0001);
    }
}

#[test]
fn shifts_use_six_bits_of_the_amount() {
    // addi x5,x0,-8 ; srai x6,x5,1 ; srli x7,x5,60 ; slli x8,x5,4 ; ebreak
    let out = run_words(&[0xff800293, 0x4012d313, 0x03c2d393, 0x00429413, 0x00100073], 0);
    assert_eq!(out.x(6) as i64, -4);
    assert_eq!(out.x(7), 15);
    assert_eq!(out.x(8) as i64, -128);
}

#[test]
fn auipc_adds_the_address_of_the_instruction() {
    // auipc x5, 1 ; ebreak
    let out = run_words(&[0x00001297, 0x00100073], 2);
    assert_eq!(out.x(5), 0x2000);
}

#[test]
fn atomic_swap_reads_its_address_before_it_writes_the_old_value() {
    for opt in [0, 2] {
        // lui x10,2 ; addi x11,x0,9 ; amoswap.w x10,x11,(x10) ; ebreak
        let wasm =
            translate_bytes(bytes_of(&[0x00002537, 0x00900593, 0x08b5252f, 0x00100073]), 0x1000, opt, false);
        let out = execute(&wasm, 0x1000, &[(0x2000, 5)]);
        assert_eq!(out.word(0x2000), 9);
        assert_eq!(out.x(10), 5);
    }
}

#[test]
fn atomic_add_and_minimum_update_memory_and_return_the_old_value() {
    for opt in [0, 2] {
        // lui x6,2 ; addi x11,x0,9 ; amoadd.d x12,x11,(x6) ; amomin.d x13,x0,(x6) ; ebreak
        let wasm = translate_bytes(
            bytes_of(&[0x00002337, 0x00900593, 0x00b3362f, 0x800336af, 0x00100073]),
            0x1000,
            opt,
            false,
        );
        let out = execute(&wasm, 0x1000, &[(0x2000, 5)]);
        assert_eq!(out.x(12), 5);
        assert_eq!(out.x(13), 14);
        assert_eq!(out.word(0x2000), 0);
    }
}

#[test]
fn annotations_do_not_change_the_module() {
    let code = bytes_of(&[0x00300293, 0xfff28293, 0xfe029ee3]);
    let plain = translate_bytes(code.clone(), 0x1000, 0, false);
    let noted = translate_bytes(code, 0x1000, 0, true);
    assert_eq!(plain, noted);
}

#[test]
fn region_compiles_to_a_module_that_takes_the_memory_of_the_host() {
    // addi x5,x0,3 ; addi x5,x5,-1 ; bne x5,x0,-4
    let wasm = compile_region(&bytes_of(&[0x00300293, 0xfff28293, 0xfe029ee3]), 0x1000).unwrap();
    let out = execute(&wasm, 0x1000, &[(M as usize + 40, 99)]);
    assert_eq!(out.x(5), 0);
    assert_eq!(out.result, 0);
}

#[test]
fn sparse_blocks_dispatch_through_the_table() {
    // jal x0,+0x100 at 0x1000 ; ... ; at 0x1100: addi x5,x0,7 ; jal x0,+0x1fc ; at 0x1300: ebreak
    let mut code = vec![0u32; 0x304 / 4];
    for w in code.iter_mut() {
        *w = 0x00000013; // nop
    }
    code[0] = 0x1000006f; // jal x0, +0x100
    code[0x100 / 4] = 0x00700293; // addi x5, x0, 7
    code[0x104 / 4] = 0x1fc0006f; // jal x0, +0x1fc
    code[0x300 / 4] = 0x00100073; // ebreak
    let out = run_words(&code, 2);
    assert_eq!(out.x(5), 7);
    assert_eq!(out.requests, vec![0xC000_0000 | 0x1300]);
}
