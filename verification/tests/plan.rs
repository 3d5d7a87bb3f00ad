use ferrilator::err::Error;
use ferrilator::example::Example;
use ferrilator::example::ShimOp;
use ferrilator::extract::AttrDecl;
use ferrilator::extract::FieldDecl;
use ferrilator::extract::StructDecl;
use ferrilator::orchestrate::BuildPlan;
use ferrilator::orchestrate::BuildStep;
use ferrilator::orchestrate::Command;
use ferrilator::orchestrate::build_plan;
use ferrilator::orchestrate::is_older;
use ferrilator::shim::shim_source;
use ferrilator::model::Module;

fn field(name: &str, ty: &str, markers: &[&str]) -> FieldDecl {
    FieldDecl {
        vis: String::new(),
        name: Some(name.to_string()),
        ty: ty.to_string(),
        markers: markers.iter().map(|m| m.to_string()).collect(),
    }
}

fn counter_decl() -> StructDecl {
    StructDecl {
        vis: String::new(),
        ident: "Counter".to_string(),
        attrs: vec![AttrDecl {
            is_list: true,
            name: "ferrilate".to_string(),
            tokens: "counter".to_string(),
        }],
        fields: vec![
            field("clk", "bool", &["clock", "input"]),
            field("reset", "bool", &["input"]),
            field("enable", "bool", &["input"]),
            field("value", "u8", &["output"]),
            field("overflow", "bool", &["output"]),
        ],
    }
}

fn plan_for(
    exists: &[bool],
    runtime_mtime: Option<u64>,
    runtime_src_mtime: Option<u64>,
) -> Result<BuildPlan, Error> {
    build_plan(
        &counter_decl(),
        "target/hw",
        "/usr/share/verilator",
        &vec!["counter.v".to_string(), "alu.v".to_string()],
        &exists.to_vec(),
        runtime_mtime,
        runtime_src_mtime,
    )
}

#[test]
fn is_older_cases() {
    assert!(is_older(None, None));
    assert!(is_older(None, Some(5)));
    assert!(is_older(Some(5), None));
    assert!(is_older(Some(1), Some(2)));
    assert!(!is_older(Some(2), Some(1)));
    assert!(!is_older(Some(2), Some(2)));
}

#[test]
fn fail_fast_on_missing_source() {
    let err = plan_for(&[true, false], None, None).unwrap_err();
    assert_eq!(err, Error::Input("file alu.v does not exist".to_string()));
    assert_eq!(err.message(), "input: file alu.v does not exist");

    // The first missing path is the one named.
    let err = plan_for(&[false, false], None, None).unwrap_err();
    assert_eq!(err, Error::Input("file counter.v does not exist".to_string()));
}

#[test]
fn runtime_cache_skips_rebuild() {
    // The runtime archive is present and newer than its source: the second
    // orchestration run carries no runtime-build invocation at all.
    let plan = plan_for(&[true, true], Some(100), Some(50)).unwrap();
    assert_eq!(plan.steps.len(), 6);
    for step in &plan.steps {
        if let BuildStep::Run(cmd) = step {
            for arg in &cmd.args {
                assert!(!arg.contains("verilated.cpp"));
                assert!(!arg.contains("libverilated.a"));
            }
        }
    }
}

#[test]
fn runtime_rebuild_when_stale() {
    // Archive older than its source, or missing: the two runtime steps run.
    let plan = plan_for(&[true, true], Some(50), Some(100)).unwrap();
    assert_eq!(plan.steps.len(), 8);
    assert_eq!(
        plan.steps[6],
        BuildStep::Run(Command {
            program: "g++".to_string(),
            args: vec![
                "-I/usr/share/verilator/include".to_string(),
                "-c".to_string(),
                "/usr/share/verilator/include/verilated.cpp".to_string(),
                "-o".to_string(),
                "target/hw/counter_verilated/verilated.o".to_string(),
            ],
        })
    );
    assert_eq!(
        plan.steps[7],
        BuildStep::Run(Command {
            program: "ar".to_string(),
            args: vec![
                "rcs".to_string(),
                "target/hw/counter_verilated/libverilated.a".to_string(),
                "target/hw/counter_verilated/verilated.o".to_string(),
            ],
        })
    );

    let missing = plan_for(&[true, true], None, Some(100)).unwrap();
    assert_eq!(missing.steps.len(), 8);
}

#[test]
fn plan_steps_and_directives() {
    let plan = plan_for(&[true, true], Some(100), Some(50)).unwrap();
    let vdir = "target/hw/counter_verilated";
    let bsrc = "target/hw/counter_verilated/counter_binding.cc";
    let bobj = "target/hw/counter_verilated/counter_binding.o";

    assert_eq!(plan.steps[0], BuildStep::MakeDir(vdir.to_string()));

    let module = Module::from_struct("counter".to_string(), &counter_decl()).unwrap();
    let shim = shim_source("counter", &module);
    assert_eq!(plan.steps[1], BuildStep::WriteFile(bsrc.to_string(), shim));

    assert_eq!(
        plan.steps[2],
        BuildStep::Run(Command {
            program: "verilator".to_string(),
            args: vec![
                "--cc".to_string(),
                "--build".to_string(),
                "--top-module".to_string(),
                "counter".to_string(),
                "--Mdir".to_string(),
                vdir.to_string(),
                "counter.v".to_string(),
                "alu.v".to_string(),
                bsrc.to_string(),
            ],
        })
    );
    assert_eq!(
        plan.steps[3],
        BuildStep::Run(Command {
            program: "g++".to_string(),
            args: vec![
                "-I/usr/share/verilator/include".to_string(),
                format!("-I{vdir}"),
                "-c".to_string(),
                bsrc.to_string(),
                "-o".to_string(),
                bobj.to_string(),
            ],
        })
    );
    assert_eq!(
        plan.steps[4],
        BuildStep::CopyFile(
            format!("{vdir}/Vcounter__ALL.a"),
            format!("{vdir}/libVcounter.a"),
        )
    );
    assert_eq!(
        plan.steps[5],
        BuildStep::Run(Command {
            program: "ar".to_string(),
            args: vec![
                "rcs".to_string(),
                format!("{vdir}/libVcounter.a"),
                bobj.to_string(),
                bobj.to_string(),
            ],
        })
    );

    assert_eq!(
        plan.directives,
        vec![
            format!("cargo:rustc-link-search=native={vdir}"),
            "cargo:rustc-link-lib=static=Vcounter".to_string(),
            "cargo:rustc-link-lib=static=verilated".to_string(),
            "cargo:rustc-link-lib=dylib=stdc++".to_string(),
            "cargo:rerun-if-changed=counter.v".to_string(),
            "cargo:rerun-if-changed=alu.v".to_string(),
        ]
    );
}

#[test]
fn plan_rejects_declaration_errors_before_any_step() {
    // A missing module-name attribute fails planning outright.
    let mut decl = counter_decl();
    decl.attrs.clear();
    let err = build_plan(
        &decl,
        "target/hw",
        "/usr/share/verilator",
        &vec![],
        &vec![],
        None,
        None,
    )
    .unwrap_err();
    assert_eq!(
        err,
        Error::Input("struct Counter has no 'ferrilate' attribute".to_string())
    );

    // A bad field shape reaches the extractor and fails there.
    let mut decl = counter_decl();
    decl.fields[0].name = None;
    let err = build_plan(
        &decl,
        "target/hw",
        "/usr/share/verilator",
        &vec![],
        &vec![],
        None,
        None,
    )
    .unwrap_err();
    assert_eq!(err, Error::Input("fields must be named".to_string()));
}

#[test]
fn tick_is_edge_pair() {
    let mut ticked = Example::new();
    ticked.tick();

    let mut manual = Example::new();
    manual.set_clk(true);
    manual.eval();
    manual.set_clk(false);
    manual.eval();

    assert_eq!(ticked.calls(), manual.calls());
    assert_eq!(
        ticked.calls(),
        &vec![
            ShimOp::SetClk(true),
            ShimOp::Eval,
            ShimOp::SetClk(false),
            ShimOp::Eval,
        ]
    );
}

#[test]
fn example_records_every_forwarded_call() {
    let mut dut = Example::new();
    assert!(dut.calls().is_empty());
    dut.set_a(255);
    dut.eval();
    dut.set_a(0);
    assert_eq!(dut.get_b(), 0);
    assert_eq!(
        dut.calls(),
        &vec![ShimOp::SetA(255), ShimOp::Eval, ShimOp::SetA(0)]
    );
}

#[test]
fn io_error_message() {
    let err = Error::Io("disk gone".to_string());
    assert_eq!(err.message(), "io: disk gone");
}
