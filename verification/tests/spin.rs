use spindle_macros::compile::CompilationStatus;
use spindle_macros::db::{DbInOut, DbMap, DbPrimitive};
use spindle_macros::spin::{RawSpinInput, RawSpinInputs, SpinInputs, UnionInput};
use spindle_macros::spindle_crate::{db_dir, join_path, status_plan, CargoStep, OutputSource, SpindleCrate};
use spindle_macros::tokens::{ParseError, ParseErrorKind, Tok};

fn ident(s: &str) -> Tok {
    Tok::Ident(s.to_string())
}

/// `#test_example_01_spin, U = i32 | f64`
fn example_01_tokens() -> Vec<Tok> {
    vec![
        Tok::Punct('#'),
        ident("test_example_01_spin"),
        Tok::Punct(','),
        ident("U"),
        Tok::Punct('='),
        ident("i32"),
        Tok::Punct('|'),
        ident("f64"),
    ]
}

fn i32_to_f64_map() -> DbMap {
    DbMap {
        uuid: "some_uuid".to_string(),
        ident: "i32_to_f64".to_string(),
        content: "fn i32_to_f64 (x : i32) -> f64 { x as f64 }".to_string(),
        in_outs: vec![DbInOut {
            input: Some(DbPrimitive { uuid: "a".to_string(), ident: "i32".to_string() }),
            output: Some(DbPrimitive { uuid: "b".to_string(), ident: "f64".to_string() }),
        }],
    }
}

#[test]
fn example_01_spin() {
    // now we parse the spin input
    let spin_inputs: SpinInputs = SpinInputs::parse(&example_01_tokens()).unwrap();
    let spindle_crate = SpindleCrate::new(spin_inputs, "target", vec![i32_to_f64_map()]);
    let SpindleCrate { home, maps, tag, unions } = &spindle_crate;
    // test the home directory
    let expected_home = "target/spindle/crates/test_example_01_spin";
    assert_eq!(home, expected_home);
    assert_eq!(tag.to_string(), "test_example_01_spin");
    // test the map
    assert_eq!(maps.len(), 1);
    let map = maps.get(0).unwrap();
    assert_eq!(map.ident, "i32_to_f64");
    assert_eq!(map.in_outs.len(), 1);
    let in_out = map.in_outs.get(0).unwrap();
    assert_eq!(in_out.input.as_ref().unwrap().ident.as_str(), "i32");
    assert_eq!(in_out.output.as_ref().unwrap().ident.as_str(), "f64");
    // test the union
    assert_eq!(unions.len(), 1);
    match &unions[0] {
        UnionInput::New(u, fields) => {
            assert_eq!(u.0, "U");
            let names: Vec<&str> = fields.iter().map(|p| p.0.as_str()).collect();
            assert_eq!(names, vec!["i32", "f64"]);
        }
        UnionInput::InScope(_) => panic!("expected a new union"),
    }

    let kernel_rs = spindle_crate.lib_rs();
    assert_eq!(kernel_rs.union_ident, "U");
    assert_eq!(kernel_rs.kernels.len(), 1);
    assert_eq!(kernel_rs.kernels[0].kernel_ident, "i32_to_f64_kernel");
    assert_eq!(kernel_rs.kernels[0].map_ident, "i32_to_f64");

    let device = spindle_crate.device_rs();
    assert_eq!(device.map_contents, vec![map.content.clone()]);
    assert_eq!(device.union_ident, "U");
    assert_eq!(
        device.union_fields,
        vec![("_0".to_string(), "i32".to_string()), ("_1".to_string(), "f64".to_string())]
    );
    assert_eq!(device.methods, vec!["i32_to_f64".to_string()]);

    assert_eq!(
        spindle_crate.ptx_path(),
        "target/spindle/crates/test_example_01_spin/target/nvptx64-nvidia-cuda/release/kernel.ptx"
    );
}

#[test]
fn spin_inputs_with_several_unions() {
    // `#t, U = i32 | f64, V, W = bool,`
    let toks = vec![
        Tok::Punct('#'),
        ident("t"),
        Tok::Punct(','),
        ident("U"),
        Tok::Punct('='),
        ident("i32"),
        Tok::Punct('|'),
        ident("f64"),
        Tok::Punct(','),
        ident("V"),
        Tok::Punct(','),
        ident("W"),
        Tok::Punct('='),
        ident("bool"),
        Tok::Punct(','),
    ];
    let inputs = SpinInputs::parse(&toks).unwrap();
    assert_eq!(inputs.unions.len(), 3);
    assert!(matches!(&inputs.unions[1], UnionInput::InScope(v) if v.0 == "V"));
    let def = inputs.unions[0].union_def().unwrap();
    assert_eq!(def.ident, "U");
    assert_eq!(
        def.fields,
        vec![("_0".to_string(), "i32".to_string()), ("_1".to_string(), "f64".to_string())]
    );
    assert_eq!(def.raw_converts, vec!["i32".to_string(), "f64".to_string()]);
    assert!(inputs.unions[1].union_def().is_none());
}

#[test]
fn spin_inputs_errors() {
    // a union name that is not upper camel case
    let toks = vec![Tok::Punct('#'), ident("t"), Tok::Punct(','), ident("u")];
    assert_eq!(
        SpinInputs::parse(&toks).unwrap_err(),
        ParseError { at: 3, kind: ParseErrorKind::UpperCamel }
    );
    // a field that is not a primitive type
    let toks = vec![
        Tok::Punct('#'),
        ident("t"),
        Tok::Punct(','),
        ident("U"),
        Tok::Punct('='),
        ident("String"),
    ];
    assert_eq!(
        SpinInputs::parse(&toks).unwrap_err(),
        ParseError { at: 5, kind: ParseErrorKind::Primitive }
    );
    // no union at all
    let toks = vec![Tok::Punct('#'), ident("t")];
    assert_eq!(
        SpinInputs::parse(&toks).unwrap_err(),
        ParseError { at: 2, kind: ParseErrorKind::Punct(',') }
    );
}

#[test]
fn raw_spin_inputs_sorted_by_kind() {
    // `#t, U, V = i32 | u8, my_map,`
    let toks = vec![
        Tok::Punct('#'),
        ident("t"),
        Tok::Punct(','),
        ident("U"),
        Tok::Punct(','),
        ident("V"),
        Tok::Punct('='),
        ident("i32"),
        Tok::Punct('|'),
        ident("u8"),
        Tok::Punct(','),
        ident("my_map"),
        Tok::Punct(','),
    ];
    let (raw, end) = RawSpinInputs::parse(&toks).unwrap();
    assert_eq!(end, toks.len());
    assert_eq!(raw._crate_tag.to_string(), "t");
    assert_eq!(raw._unions_in_scope.len(), 1);
    assert_eq!(raw._unions_in_scope[0].0 .0, "U");
    assert_eq!(raw._new_unions.len(), 1);
    assert_eq!(raw._new_unions[0].0 .0, "V");
    assert_eq!(raw._new_unions[0].1.len(), 2);
    assert_eq!(raw._map_fns_in_scope.len(), 1);
    assert_eq!(raw._map_fns_in_scope[0].0 .0, "my_map");

    let bad = vec![ident("i32")];
    assert_eq!(
        RawSpinInput::parse(&bad, 0).unwrap_err(),
        ParseError { at: 0, kind: ParseErrorKind::PrimitiveNotAllowed }
    );
    let bad = vec![ident("Foo_bar")];
    assert_eq!(
        RawSpinInput::parse(&bad, 0).unwrap_err(),
        ParseError { at: 0, kind: ParseErrorKind::UnknownCase }
    );
}

#[test]
fn crate_layout_and_build_arguments() {
    assert_eq!(join_path("a", "b"), "a/b");
    assert_eq!(join_path("a/", "b"), "a/b");
    assert_eq!(join_path("", "b"), "b");
    assert_eq!(db_dir("target"), "target/spindle/db/");
    let inputs = SpinInputs::parse(&example_01_tokens()).unwrap();
    let c = SpindleCrate::new(inputs, "out", vec![]);
    assert_eq!(c.home, "out/spindle/crates/test_example_01_spin");
    assert_eq!(c.home_join("out_colorful.txt"), "out/spindle/crates/test_example_01_spin/out_colorful.txt");
    assert_eq!(
        c.cargo_args(CargoStep::Build),
        vec!["+nightly", "-Z", "unstable-options", "-C", "out/spindle/crates/test_example_01_spin", "build", "--release"]
    );
    assert_eq!(
        c.cargo_args(CargoStep::BuildColorless),
        vec![
            "+nightly",
            "-Z",
            "unstable-options",
            "-C",
            "out/spindle/crates/test_example_01_spin",
            "build",
            "--release",
            "--color",
            "never"
        ]
    );
    assert_eq!(
        c.cargo_args(CargoStep::Fmt),
        vec!["+nightly", "-Z", "unstable-options", "-C", "out/spindle/crates/test_example_01_spin", "fmt"]
    );
    // no maps: no kernels and no methods
    assert!(c.lib_rs().kernels.is_empty());
    assert!(c.device_rs().methods.is_empty());
}

#[test]
fn compilation_status_from_kernel() {
    let ok = CompilationStatus::from_outputs("c".to_string(), "p".to_string(), true);
    assert!(ok.is_success());
    assert!(ok.failure_message().is_none());
    assert_eq!(ok.colorful_output(), "c");
    let failed = CompilationStatus::from_outputs("c".to_string(), "p".to_string(), false);
    assert!(!failed.is_success());
    assert_eq!(failed.failure_message().unwrap(), "p");
    assert_eq!(failed.colorless_output(), "p");
}

#[test]
fn status_plan_reads_cached_outputs() {
    let p = status_plan(false, false, false);
    assert!(p.populate);
    assert_eq!(p.colored, OutputSource::Build);
    let p = status_plan(true, true, false);
    assert!(!p.populate);
    assert_eq!(p.colored, OutputSource::Cached);
    assert_eq!(p.colorless, OutputSource::Build);
}

#[test]
fn raw_spin_input_needs_an_item() {
    let toks = vec![Tok::Punct('#'), ident("t"), Tok::Punct(',')];
    assert_eq!(RawSpinInputs::parse(&toks).unwrap_err(), ParseError { at: 3, kind: ParseErrorKind::Ident });
}

#[test]
fn raw_spin_input_refuses_a_primitive_item() {
    // `#t, U, i32, f`
    let toks = vec![
        Tok::Punct('#'),
        ident("t"),
        Tok::Punct(','),
        ident("U"),
        Tok::Punct(','),
        ident("i32"),
        Tok::Punct(','),
        ident("f"),
    ];
    assert_eq!(
        RawSpinInputs::parse(&toks).unwrap_err(),
        ParseError { at: 5, kind: ParseErrorKind::PrimitiveNotAllowed }
    );
}
