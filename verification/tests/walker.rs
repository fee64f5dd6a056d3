use wasm_exports::export_line;
use wasm_exports::export_lines;
use wasm_exports::CustomDisplay;
use wasm_exports::Export;
use wasm_exports::ExternSignature;
use wasm_exports::FuncSignature;
use wasm_exports::GlobalSignature;
use wasm_exports::MemorySignature;
use wasm_exports::Mutability;
use wasm_exports::TableSignature;
use wasm_exports::ValueType;

fn sample_exports() -> Vec<Export> {
    vec![
        Export::new(
            String::from("run"),
            ExternSignature::Func(FuncSignature {
                params: vec![ValueType::I32, ValueType::I64],
                results: vec![ValueType::F32],
            }),
        ),
        Export::new(
            String::from("counter"),
            ExternSignature::Global(GlobalSignature {
                mutability: Mutability::Var,
                ty: ValueType::F64,
            }),
        ),
        Export::new(
            String::from("run"),
            ExternSignature::Table(TableSignature {
                elem: ValueType::FuncRef,
                min: 0,
                max: None,
            }),
        ),
        Export::new(
            String::from("mem"),
            ExternSignature::Memory(MemorySignature {
                shared: false,
                is64: false,
                min: 0,
                max: None,
            }),
        ),
    ]
}

#[test]
fn one_line_per_export_in_input_order() {
    let exports = sample_exports();
    let lines = export_lines(&exports);
    assert_eq!(lines.len(), exports.len());
    assert_eq!(lines[0], "run: fn(i32, i64) -> (f32)\n");
    assert_eq!(lines[1], "counter: global var f64\n");
    assert_eq!(lines[2], "run: table $func [0..]\n");
    assert_eq!(lines[3], "mem: memory 32 [0..]\n");
}

#[test]
fn duplicate_names_are_kept_and_not_reordered() {
    let exports = sample_exports();
    let lines = export_lines(&exports);
    assert_eq!(lines[0], "run: fn(i32, i64) -> (f32)\n");
    assert_eq!(lines[2], "run: table $func [0..]\n");
}

#[test]
fn no_exports_means_no_lines() {
    let exports: Vec<Export> = vec![];
    let lines = export_lines(&exports);
    assert!(lines.is_empty());
}

#[test]
fn line_matches_name_and_rendered_signature() {
    let export = Export::new(
        String::from("table0"),
        ExternSignature::Table(TableSignature {
            elem: ValueType::ExternRef,
            min: 2,
            max: Some(5),
        }),
    );
    assert_eq!(export_line(&export), "table0: table $extern [2..5]\n");
}

#[test]
fn rendering_twice_yields_identical_text() {
    for export in sample_exports() {
        let first = export_line(&export);
        let second = export_line(&export);
        assert_eq!(first, second);
        let sig_first = CustomDisplay::new(export.signature.clone()).render();
        let sig_second = CustomDisplay::new(export.signature.clone()).render();
        assert_eq!(sig_first, sig_second);
    }
}

#[test]
fn decode_failure_reports_error_before_any_line_is_rendered() {
    let engine = wasmtime::Engine::default();
    let decoded = wasmtime::Module::new(&engine, &b"not a module"[..]);
    assert!(decoded.is_err());
    let exports: Vec<Export> = match decoded {
        Ok(_) => unreachable!(),
        Err(_) => vec![],
    };
    assert!(export_lines(&exports).is_empty());
}
