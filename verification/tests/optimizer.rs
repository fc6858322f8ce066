use rv2wasm::disasm::decode_32bit;
use rv2wasm::ir::{WasmFunction, WasmInst};
use rv2wasm::optimize::{
    cache_gpr_i64_values, fold_i32_binop, fold_i64_binop, fold_integer_constants,
    fold_local_set_get, forward_i64_store_loads, optimize_function,
};
use rv2wasm::translate::lower;

fn make_test_function(body: Vec<WasmInst>) -> WasmFunction {
    WasmFunction { name: "test".to_string(), block_addr: 0x1000, body, num_locals: 4 }
}

#[test]
fn optimize_removes_comments() {
    let mut func = make_test_function(vec![
        WasmInst::Comment { text: "debug".to_string() },
        WasmInst::I64Const { value: 1 },
    ]);

    optimize_function(&mut func);

    assert_eq!(func.body.len(), 1);
    assert!(matches!(func.body[0], WasmInst::I64Const { value: 1 }));
}

#[test]
fn optimize_folds_integer_constants() {
    let mut func = make_test_function(vec![
        WasmInst::I64Const { value: 0x12345000 },
        WasmInst::I64Const { value: 0x678 },
        WasmInst::I64Add,
        WasmInst::I32Const { value: 8 },
        WasmInst::I32Const { value: 2 },
        WasmInst::I32Shl,
    ]);

    optimize_function(&mut func);

    assert!(func
        .body
        .iter()
        .any(|inst| matches!(inst, WasmInst::I64Const { value } if *value == 0x12345678)));
    assert!(func
        .body
        .iter()
        .any(|inst| matches!(inst, WasmInst::I32Const { value } if *value == 32)));
    assert!(!func
        .body
        .iter()
        .any(|inst| matches!(inst, WasmInst::I64Add | WasmInst::I32Shl)));
}

#[test]
fn optimize_forwards_i64_store_load() {
    let mut func = make_test_function(vec![
        WasmInst::LocalGet { idx: 0 },
        WasmInst::I64Const { value: 42 },
        WasmInst::I64Store { offset: 40 },
        WasmInst::LocalGet { idx: 0 },
        WasmInst::I64Load { offset: 40 },
        WasmInst::I64Const { value: 1 },
        WasmInst::I64Add,
    ]);

    optimize_function(&mut func);

    assert!(func.num_locals >= 5);
    assert!(func
        .body
        .iter()
        .any(|inst| matches!(inst, WasmInst::LocalTee { idx } if *idx == 4)));
    assert!(func
        .body
        .iter()
        .any(|inst| matches!(inst, WasmInst::LocalGet { idx } if *idx == 4)));
    assert!(!func
        .body
        .iter()
        .any(|inst| matches!(inst, WasmInst::I64Load { offset } if *offset == 40)));
}

#[test]
fn optimize_preserves_non_matching_store_load() {
    let mut func = make_test_function(vec![
        WasmInst::LocalGet { idx: 0 },
        WasmInst::I64Const { value: 1 },
        WasmInst::I64Store { offset: 40 },
        WasmInst::LocalGet { idx: 0 },
        WasmInst::I64Load { offset: 48 },
    ]);

    optimize_function(&mut func);

    assert!(func.num_locals >= 4);
    assert!(func
        .body
        .iter()
        .any(|inst| matches!(inst, WasmInst::I64Load { offset } if *offset == 48)));
}

#[test]
fn optimize_folds_local_set_get_to_local_tee() {
    let mut func = make_test_function(vec![
        WasmInst::I64Const { value: 3 },
        WasmInst::LocalSet { idx: 2 },
        WasmInst::LocalGet { idx: 2 },
        WasmInst::I64Const { value: 4 },
        WasmInst::I64Add,
    ]);

    optimize_function(&mut func);

    assert!(func
        .body
        .iter()
        .any(|inst| matches!(inst, WasmInst::LocalTee { idx } if *idx == 2)));
    assert!(!func.body.windows(2).any(|window| matches!(
        (&window[0], &window[1]),
        (WasmInst::LocalSet { idx: 2 }, WasmInst::LocalGet { idx: 2 })
    )));
}

#[test]
fn optimize_caches_register_store_and_reuses_local_for_later_load() {
    let mut func = make_test_function(vec![
        // x5 = 7
        WasmInst::LocalGet { idx: 0 },
        WasmInst::I64Const { value: 7 },
        WasmInst::I64Store { offset: 40 },
        // x6 = x5 + 1
        WasmInst::LocalGet { idx: 0 },
        WasmInst::LocalGet { idx: 0 },
        WasmInst::I64Load { offset: 40 },
        WasmInst::I64Const { value: 1 },
        WasmInst::I64Add,
        WasmInst::I64Store { offset: 48 },
    ]);

    optimize_function(&mut func);

    // local 4 caches x5 (offset 40), local 5 caches x6 (offset 48)
    assert!(func.num_locals >= 6);
    assert!(func
        .body
        .iter()
        .any(|inst| matches!(inst, WasmInst::LocalTee { idx } if *idx == 4)));
    assert!(func
        .body
        .iter()
        .any(|inst| matches!(inst, WasmInst::LocalGet { idx } if *idx == 4)));
    assert!(!func
        .body
        .iter()
        .any(|inst| matches!(inst, WasmInst::I64Load { offset } if *offset == 40)));
}

#[test]
fn optimize_does_not_cache_offset_zero_memory_loads() {
    let mut func = make_test_function(vec![
        // Generic memory load path (address already on stack).
        WasmInst::LocalGet { idx: 0 },
        WasmInst::I64Load { offset: 0 },
    ]);

    optimize_function(&mut func);

    // Offset 0 is intentionally not rewritten by register-cache pass.
    assert!(func
        .body
        .iter()
        .any(|inst| matches!(inst, WasmInst::I64Load { offset } if *offset == 0)));
}

#[test]
fn optimize_register_cache_pass_is_idempotent() {
    let mut func = make_test_function(vec![
        WasmInst::LocalGet { idx: 0 },
        WasmInst::I64Const { value: 9 },
        WasmInst::I64Store { offset: 80 },
        WasmInst::LocalGet { idx: 0 },
        WasmInst::I64Load { offset: 80 },
        WasmInst::I64Const { value: 1 },
        WasmInst::I64Add,
    ]);

    optimize_function(&mut func);
    let first_body_dbg = format!("{:?}", func.body);
    let first_locals = func.num_locals;

    optimize_function(&mut func);

    assert_eq!(format!("{:?}", func.body), first_body_dbg);
    assert_eq!(func.num_locals, first_locals);
}

#[test]
fn forwarding_rewrites_both_patterns_with_fresh_locals() {
    let body = vec![
        WasmInst::I64Store { offset: 40 },
        WasmInst::LocalGet { idx: 0 },
        WasmInst::I64Load { offset: 40 },
        WasmInst::I64Store { offset: 48 },
        WasmInst::LocalGet { idx: 0 },
        WasmInst::LocalGet { idx: 0 },
        WasmInst::I64Load { offset: 48 },
    ];
    let mut next_local = 4;
    let (out, changes) = forward_i64_store_loads(body, &mut next_local);
    assert_eq!(changes, 2);
    assert_eq!(next_local, 6);
    assert_eq!(
        format!("{:?}", out),
        format!(
            "{:?}",
            vec![
                WasmInst::LocalTee { idx: 4 },
                WasmInst::I64Store { offset: 40 },
                WasmInst::LocalGet { idx: 4 },
                WasmInst::LocalTee { idx: 5 },
                WasmInst::I64Store { offset: 48 },
                WasmInst::LocalGet { idx: 0 },
                WasmInst::LocalGet { idx: 5 },
            ]
        )
    );
}

#[test]
fn forwarding_leaves_a_reload_of_another_offset() {
    let body = vec![
        WasmInst::I64Store { offset: 40 },
        WasmInst::LocalGet { idx: 0 },
        WasmInst::I64Load { offset: 48 },
    ];
    let mut next_local = 4;
    let (out, changes) = forward_i64_store_loads(body, &mut next_local);
    assert_eq!(changes, 0);
    assert_eq!(next_local, 4);
    assert_eq!(out.len(), 3);
    assert!(matches!(out[2], WasmInst::I64Load { offset: 48 }));
}

#[test]
fn tee_folding_needs_the_same_local() {
    let (out, changes) = fold_local_set_get(vec![
        WasmInst::LocalSet { idx: 1 },
        WasmInst::LocalGet { idx: 2 },
        WasmInst::LocalSet { idx: 3 },
        WasmInst::LocalGet { idx: 3 },
    ]);
    assert_eq!(changes, 1);
    assert_eq!(
        format!("{:?}", out),
        format!(
            "{:?}",
            vec![
                WasmInst::LocalSet { idx: 1 },
                WasmInst::LocalGet { idx: 2 },
                WasmInst::LocalTee { idx: 3 },
            ]
        )
    );
}

#[test]
fn register_cache_tees_stores_and_rewrites_reloads() {
    let body = vec![
        WasmInst::LocalGet { idx: 0 },
        WasmInst::I64Const { value: 7 },
        WasmInst::I64Store { offset: 40 },
        WasmInst::LocalGet { idx: 0 },
        WasmInst::I64Load { offset: 40 },
        WasmInst::LocalGet { idx: 0 },
        WasmInst::I64Load { offset: 48 },
        WasmInst::LocalGet { idx: 0 },
        WasmInst::I64Load { offset: 0 },
        WasmInst::LocalGet { idx: 0 },
        WasmInst::I64Load { offset: 256 },
        WasmInst::LocalGet { idx: 0 },
        WasmInst::I64Load { offset: 44 },
    ];
    let mut next_local = 4;
    let (out, changes) = cache_gpr_i64_values(body, &mut next_local);
    assert_eq!(changes, 2);
    assert_eq!(next_local, 5);
    assert_eq!(
        format!("{:?}", out),
        format!(
            "{:?}",
            vec![
                WasmInst::LocalGet { idx: 0 },
                WasmInst::I64Const { value: 7 },
                WasmInst::LocalTee { idx: 4 },
                WasmInst::I64Store { offset: 40 },
                WasmInst::LocalGet { idx: 4 },
                WasmInst::LocalGet { idx: 0 },
                WasmInst::I64Load { offset: 48 },
                WasmInst::LocalGet { idx: 0 },
                WasmInst::I64Load { offset: 0 },
                WasmInst::LocalGet { idx: 0 },
                WasmInst::I64Load { offset: 256 },
                WasmInst::LocalGet { idx: 0 },
                WasmInst::I64Load { offset: 44 },
            ]
        )
    );
}

#[test]
fn register_cache_follows_the_latest_tee_of_a_register() {
    // two stores to x5, each behind its own tee: the reload reads the later local
    let body = vec![
        WasmInst::LocalTee { idx: 7 },
        WasmInst::I64Store { offset: 40 },
        WasmInst::LocalTee { idx: 9 },
        WasmInst::I64Store { offset: 40 },
        WasmInst::LocalGet { idx: 0 },
        WasmInst::I64Load { offset: 40 },
    ];
    let mut next_local = 10;
    let (out, changes) = cache_gpr_i64_values(body, &mut next_local);
    assert_eq!(changes, 1);
    assert_eq!(next_local, 10);
    assert!(matches!(out[4], WasmInst::LocalGet { idx: 9 }));
}

#[test]
fn constant_folding_computes_as_wasm_does() {
    assert_eq!(fold_i64_binop(&WasmInst::I64Add, i64::MAX, 1), Some(i64::MIN));
    assert_eq!(fold_i64_binop(&WasmInst::I64Sub, i64::MIN, 1), Some(i64::MAX));
    assert_eq!(fold_i64_binop(&WasmInst::I64And, 0b1100, 0b1010), Some(0b1000));
    assert_eq!(fold_i64_binop(&WasmInst::I64Or, 0b1100, 0b1010), Some(0b1110));
    assert_eq!(fold_i64_binop(&WasmInst::I64Xor, 0b1100, 0b1010), Some(0b0110));
    assert_eq!(fold_i64_binop(&WasmInst::I64Shl, 1, 65), Some(2));
    assert_eq!(fold_i64_binop(&WasmInst::I64ShrS, -8, 1), Some(-4));
    assert_eq!(fold_i64_binop(&WasmInst::I64ShrU, -8, 60), Some(15));
    assert_eq!(fold_i64_binop(&WasmInst::I64Mul, 2, 3), None);
    assert_eq!(fold_i32_binop(&WasmInst::I32Add, i32::MAX, 1), Some(i32::MIN));
    assert_eq!(fold_i32_binop(&WasmInst::I32Sub, 5, 7), Some(-2));
    assert_eq!(fold_i32_binop(&WasmInst::I32Shl, 8, 2), Some(32));
    assert_eq!(fold_i32_binop(&WasmInst::I32Shl, 1, 33), Some(2));
    assert_eq!(fold_i32_binop(&WasmInst::I32ShrS, -8, 1), Some(-4));
    assert_eq!(fold_i32_binop(&WasmInst::I32ShrU, -8, 28), Some(15));
    assert_eq!(fold_i32_binop(&WasmInst::I64Add, 1, 2), None);
}

#[test]
fn constant_folding_needs_two_constants_of_the_width() {
    let (out, changes) = fold_integer_constants(vec![
        WasmInst::I64Const { value: 1 },
        WasmInst::I32Const { value: 2 },
        WasmInst::I64Add,
        WasmInst::I64Const { value: 1 },
        WasmInst::I64Const { value: 2 },
        WasmInst::I32Add,
    ]);
    assert_eq!(changes, 0);
    assert_eq!(out.len(), 6);
}

#[test]
fn optimized_body_holds_no_constant_triple() {
    let mut func = make_test_function(vec![
        WasmInst::I64Const { value: 1 },
        WasmInst::I64Const { value: 2 },
        WasmInst::I64Const { value: 3 },
        WasmInst::I64Add,
        WasmInst::I64Add,
    ]);
    optimize_function(&mut func);
    assert_eq!(func.body.len(), 1);
    assert!(matches!(func.body[0], WasmInst::I64Const { value: 6 }));
    assert_eq!(func.num_locals, 4);
}

#[test]
fn optimizing_twice_changes_nothing_more() {
    let mut func = make_test_function(vec![
        WasmInst::Comment { text: "x5 = 7".to_string() },
        WasmInst::LocalGet { idx: 0 },
        WasmInst::I64Const { value: 7 },
        WasmInst::I64Store { offset: 40 },
        WasmInst::LocalGet { idx: 0 },
        WasmInst::LocalGet { idx: 0 },
        WasmInst::I64Load { offset: 40 },
        WasmInst::I64Const { value: 4 },
        WasmInst::I64Add,
        WasmInst::I64Store { offset: 48 },
        WasmInst::I64Const { value: 3 },
        WasmInst::LocalSet { idx: 2 },
        WasmInst::LocalGet { idx: 2 },
        WasmInst::I32Const { value: 8 },
        WasmInst::I32Const { value: 2 },
        WasmInst::I32Shl,
    ]);
    optimize_function(&mut func);
    let once = format!("{:?}", func.body);
    let locals = func.num_locals;
    optimize_function(&mut func);
    assert_eq!(format!("{:?}", func.body), once);
    assert_eq!(func.num_locals, locals);
    assert!(!func.body.iter().any(|inst| matches!(inst, WasmInst::Comment { .. })));
}

#[test]
fn optimizing_lowered_code_twice_changes_nothing_more() {
    let mut word: u32 = 0x1357_9bdf;
    let mut body = Vec::new();
    for _ in 0..3000 {
        word = word.wrapping_mul(1_664_525).wrapping_add(1_013_904_223);
        body.extend(lower(&decode_32bit(0x1000, word)));
    }
    let mut func = make_test_function(body);
    optimize_function(&mut func);
    let once = format!("{:?}", func.body);
    let locals = func.num_locals;
    assert!(!func.body.windows(3).any(|w| matches!(
        (&w[0], &w[1], &w[2]),
        (WasmInst::I64Const { .. }, WasmInst::I64Const { .. }, WasmInst::I64Add)
    )));
    optimize_function(&mut func);
    assert_eq!(format!("{:?}", func.body), once);
    assert_eq!(func.num_locals, locals);
}
