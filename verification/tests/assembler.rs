use rv2wasm::ir::{WasmFunction, WasmInst, WasmModule};
use rv2wasm::wasm_builder::{
    build, can_use_dense_table, compute_addr_alignment, dispatch_body, dispatch_entries,
    dispatch_strategy, gcd_u64, leb_size, DispatchStrategy,
};
use std::collections::HashMap;

/// Helper: create a minimal WasmModule with block functions at the given addresses
fn make_module(addrs: &[u64]) -> WasmModule {
    let mut functions = Vec::new();
    let mut block_to_func = HashMap::new();
    for (i, &addr) in addrs.iter().enumerate() {
        block_to_func.insert(addr, i);
        functions.push(WasmFunction {
            name: format!("block_{:x}", addr),
            block_addr: addr,
            body: vec![
                WasmInst::I32Const { value: -1 }, // halt after this block
            ],
            num_locals: 0,
        });
    }
    WasmModule {
        functions,
        memory_pages: 8,
        entry: addrs.first().copied().unwrap_or(0),
        block_to_func,
    }
}

#[test]
fn test_build_empty_module() {
    let module = make_module(&[]);
    let bytes = build(&module).unwrap();
    // Should start with Wasm magic "\0asm"
    assert_eq!(&bytes[0..4], b"\0asm");
}

#[test]
fn test_build_single_block() {
    let module = make_module(&[0x1000]);
    let bytes = build(&module).unwrap();
    assert_eq!(&bytes[0..4], b"\0asm");
    assert!(bytes.len() > 8); // non-trivial output
}

#[test]
fn test_build_dense_blocks() {
    // Dense addresses: 0x1000, 0x1004, 0x1008, 0x100c
    let module = make_module(&[0x1000, 0x1004, 0x1008, 0x100c]);
    let bytes = build(&module).unwrap();
    assert_eq!(&bytes[0..4], b"\0asm");
}

#[test]
fn test_build_sparse_blocks_br_table() {
    // Sparse addresses that trigger br_table dispatch (not dense enough for simple indexing)
    // Spread out far enough that can_use_dense_table returns false
    let addrs: Vec<u64> = (0..20).map(|i| 0x10000 + i * 0x100).collect();
    let module = make_module(&addrs);
    // Verify it's actually sparse (not dense)
    assert!(!can_use_dense_table(&module));
    let bytes = build(&module).unwrap();
    assert_eq!(&bytes[0..4], b"\0asm");
    assert!(bytes.len() > 100);
}

#[test]
fn test_build_sparse_blocks_mixed_alignment() {
    // Addresses with mixed 2-byte and 4-byte offsets (simulating C extension mixing)
    let addrs = vec![
        0x1000, 0x1002, 0x1006, 0x1008, 0x100e, 0x1010, 0x1014, 0x1018, 0x101a, 0x101e, 0x1020,
        0x1024, 0x1028, 0x102a, 0x102e, 0x1030, 0x1034, 0x1038,
    ];
    let module = make_module(&addrs);
    let bytes = build(&module).unwrap();
    assert_eq!(&bytes[0..4], b"\0asm");
}

#[test]
fn test_compute_addr_alignment_power_of_two() {
    let addrs = vec![(0x1000u64, 0u32), (0x1004, 1), (0x1008, 2), (0x100c, 3)];
    assert_eq!(compute_addr_alignment(&addrs), 4);
}

#[test]
fn test_compute_addr_alignment_two_byte() {
    let addrs = vec![(0x1000u64, 0u32), (0x1002, 1), (0x1006, 2)];
    assert_eq!(compute_addr_alignment(&addrs), 2);
}

#[test]
fn test_compute_addr_alignment_single() {
    let addrs = vec![(0x1000u64, 0u32)];
    assert_eq!(compute_addr_alignment(&addrs), 2); // minimum C-ext alignment
}

#[test]
fn alignment_of_no_address_and_of_equal_addresses_is_two() {
    assert_eq!(compute_addr_alignment(&[]), 2);
    assert_eq!(compute_addr_alignment(&[(0x1000, 0), (0x1000, 1)]), 2);
    assert_eq!(compute_addr_alignment(&[(0x1000, 0), (0x1006, 1), (0x100f, 2)]), 3);
}

#[test]
fn gcd_is_euclid() {
    assert_eq!(gcd_u64(0, 0), 0);
    assert_eq!(gcd_u64(12, 0), 12);
    assert_eq!(gcd_u64(0, 12), 12);
    assert_eq!(gcd_u64(12, 18), 6);
    assert_eq!(gcd_u64(17, 5), 1);
}

#[test]
fn leb_size_counts_groups_of_seven_bits() {
    assert_eq!(leb_size(0), 1);
    assert_eq!(leb_size(127), 1);
    assert_eq!(leb_size(128), 2);
    assert_eq!(leb_size(16383), 2);
    assert_eq!(leb_size(16384), 3);
    assert_eq!(leb_size(u32::MAX as u64), 5);
    assert_eq!(leb_size(u64::MAX), 10);
}

#[test]
fn strategy_depends_on_the_addresses_alone() {
    assert_eq!(dispatch_strategy(&make_module(&[])), DispatchStrategy::Halt);
    assert_eq!(
        dispatch_strategy(&make_module(&[0x1000])),
        DispatchStrategy::Dense { base: 0x1000, stride: 4 }
    );
    assert_eq!(
        dispatch_strategy(&make_module(&[0x1000, 0x1004, 0x1008])),
        DispatchStrategy::Dense { base: 0x1000, stride: 4 }
    );
    assert_eq!(
        dispatch_strategy(&make_module(&[0x1000, 0x1002, 0x1004])),
        DispatchStrategy::Dense { base: 0x1000, stride: 2 }
    );
    // a common stride, but too few blocks for the range
    let wide: Vec<u64> = (0..20).map(|i| 0x10000 + i * 0x100).collect();
    assert_eq!(
        dispatch_strategy(&make_module(&wide)),
        DispatchStrategy::BrTable { base: 0x10000, alignment: 0x100, table_size: 20 }
    );
    // no common stride
    assert_eq!(
        dispatch_strategy(&make_module(&[0x1000, 0x1002, 0x1006])),
        DispatchStrategy::BrTable { base: 0x1000, alignment: 2, table_size: 4 }
    );
    // not in increasing order: not dense, and the table is built over the sorted addresses
    assert_eq!(
        dispatch_strategy(&make_module(&[0x1008, 0x1000, 0x1004])),
        DispatchStrategy::BrTable { base: 0x1000, alignment: 4, table_size: 3 }
    );
    // a table of 65536 slots is taken, one of 65537 is not
    assert_eq!(
        dispatch_strategy(&make_module(&[0x1000, 0x1002, 0x1000 + 2 * 65535])),
        DispatchStrategy::BrTable { base: 0x1000, alignment: 2, table_size: 65536 }
    );
    assert_eq!(
        dispatch_strategy(&make_module(&[0x1000, 0x1002, 0x1000 + 2 * 65536])),
        DispatchStrategy::IfChain
    );
}

#[test]
fn entries_are_sorted_and_keep_their_slots() {
    let entries = dispatch_entries(&make_module(&[0x1008, 0x1000, 0x1004, 0x1000]));
    assert_eq!(entries, vec![(0x1000, 3), (0x1004, 2), (0x1008, 0)]);
}

#[test]
fn br_table_maps_each_slot_to_its_pad_or_to_the_default() {
    let body = dispatch_body(&make_module(&[0x1000, 0x1002, 0x1006]));
    let tables: Vec<&WasmInst> =
        body.iter().filter(|inst| matches!(inst, WasmInst::BrTable { .. })).collect();
    assert_eq!(tables.len(), 1);
    match tables[0] {
        WasmInst::BrTable { labels, default } => {
            assert_eq!(labels, &vec![1, 2, 0, 3]);
            assert_eq!(*default, 0);
        }
        _ => unreachable!(),
    }
    // one block for each entry, the outer block and the default block
    assert_eq!(body.iter().filter(|inst| matches!(inst, WasmInst::Block { .. })).count(), 5);
}

#[test]
fn if_chain_compares_with_every_address() {
    let body = dispatch_body(&make_module(&[0x1000, 0x1002, 0x1000 + 2 * 65536]));
    let compared: Vec<i32> = body
        .windows(2)
        .filter_map(|w| match (&w[0], &w[1]) {
            (WasmInst::I32Const { value }, WasmInst::I32Eq) => Some(*value),
            _ => None,
        })
        .collect();
    assert_eq!(compared, vec![-1, 0x1000, 0x1002, 0x21000]);
}

#[test]
fn empty_module_is_laid_out_bit_for_bit() {
    let bytes = build(&make_module(&[])).unwrap();
    let mut want: Vec<u8> = vec![0x00, 0x61, 0x73, 0x6D, 0x01, 0x00, 0x00, 0x00];
    // type section: (i32)->i32, (i32,i32)->i32, (i32,i32)->i32
    want.extend([0x01, 18, 3]);
    want.extend([0x60, 1, 0x7F, 1, 0x7F]);
    want.extend([0x60, 2, 0x7F, 0x7F, 1, 0x7F]);
    want.extend([0x60, 2, 0x7F, 0x7F, 1, 0x7F]);
    // import section: env.memory with limits 8..32, env.syscall of type 2
    want.extend([0x02, 30, 2]);
    want.extend([3, b'e', b'n', b'v', 6, b'm', b'e', b'm', b'o', b'r', b'y', 0x02, 0x01, 8, 32]);
    want.extend([3, b'e', b'n', b'v', 7, b's', b'y', b's', b'c', b'a', b'l', b'l', 0x00, 2]);
    // function section: the dispatcher, of type 1
    want.extend([0x03, 2, 1, 1]);
    // table section: funcref, min = max = 0
    want.extend([0x04, 5, 1, 0x70, 0x01, 0, 0]);
    // export section: "run" is function 1
    want.extend([0x07, 7, 1, 3, b'r', b'u', b'n', 0x00, 1]);
    // element section: active, table 0, offset 0, no function
    want.extend([0x09, 8, 1, 0x02, 0x00, 0x41, 0x00, 0x0B, 0x00, 0]);
    // code section: the dispatcher
    let dispatcher: Vec<u8> = vec![
        1, 1, 0x7F, // one local of type i32
        0x20, 1, 0x21, 2, // pc = start_pc
        0x03, 0x40, // loop
        0x20, 2, 0x41, 0x7F, 0x46, 0x04, 0x40, 0x41, 0, 0x0F, 0x0B, // pc == -1: return 0
        0x20, 2, 0x41, 0x80, 0x80, 0x80, 0x80, 0x78, 0x71, 0x04, 0x40, // pc & 0x80000000
        0x20, 0, 0x20, 2, 0x10, 0, 0x21, 2, 0x0C, 1, 0x0B, // pc = syscall(m, pc); continue
        0x41, 0, 0x0F, // no block: return 0
        0x0C, 0, 0x0B, // continue; end loop
        0x41, 0, 0x0B, // 0; end
    ];
    want.extend([0x0A, (dispatcher.len() + 2) as u8, 1, dispatcher.len() as u8]);
    want.extend(dispatcher);
    assert_eq!(bytes, want);
}

#[test]
fn block_functions_are_transcribed_with_their_alignments() {
    let module = WasmModule {
        functions: vec![WasmFunction {
            name: "block_1000".to_string(),
            block_addr: 0x1000,
            body: vec![
                WasmInst::Comment { text: "not encoded".to_string() },
                WasmInst::LocalGet { idx: 0 },
                WasmInst::LocalGet { idx: 0 },
                WasmInst::I64Load { offset: 40 },
                WasmInst::I64Const { value: -1 },
                WasmInst::I64Add,
                WasmInst::I64Store { offset: 200 },
                WasmInst::LocalGet { idx: 0 },
                WasmInst::I64Load8U { offset: 0 },
                WasmInst::I64Store16 { offset: 1 },
                WasmInst::LocalGet { idx: 0 },
                WasmInst::I32Load { offset: 2 },
                WasmInst::F64Store { offset: 384 },
                WasmInst::I32Const { value: 0x1004 },
                WasmInst::Return,
            ],
            num_locals: 4,
        }],
        memory_pages: 8,
        entry: 0x1000,
        block_to_func: HashMap::new(),
    };
    let bytes = build(&module).unwrap();
    let body: Vec<u8> = vec![
        1, 4, 0x7E, // four locals of type i64
        0x20, 0, 0x20, 0, // local.get 0 twice
        0x29, 3, 40, // i64.load align=3 offset=40
        0x42, 0x7F, // i64.const -1
        0x7C, // i64.add
        0x37, 3, 0xC8, 0x01, // i64.store align=3 offset=200
        0x20, 0, 0x31, 0, 0, // i64.load8_u align=0
        0x3D, 1, 1, // i64.store16 align=1
        0x20, 0, 0x28, 2, 2, // i32.load align=2
        0x39, 3, 0x80, 0x03, // f64.store align=3 offset=384
        0x41, 0x84, 0x20, // i32.const 0x1004
        0x0F, // return
        0x0B, // end
    ];
    let tail = &bytes[bytes.len() - body.len() - 1..];
    assert_eq!(tail[0] as usize, body.len());
    assert_eq!(&tail[1..], &body[..]);
    // the export of the block under its name, as function 2
    let export: Vec<u8> =
        vec![10, b'b', b'l', b'o', b'c', b'k', b'_', b'1', b'0', b'0', b'0', 0x00, 2];
    assert!(bytes.windows(export.len()).any(|w| w == &export[..]));
}

#[test]
fn run_time_module_imports_memory_without_a_ceiling() {
    let mut module = make_module(&[0x1000]);
    module.memory_pages = 0;
    let bytes = build(&module).unwrap();
    let import: Vec<u8> =
        vec![3, b'e', b'n', b'v', 6, b'm', b'e', b'm', b'o', b'r', b'y', 0x02, 0x00, 0];
    assert!(bytes.windows(import.len()).any(|w| w == &import[..]));
}
