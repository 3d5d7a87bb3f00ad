//! The build orchestrator: a strictly sequential plan from a declared
//! interface to a linked, cached static library.
//!
//! Planning is pure: the caller reports which source paths exist and the
//! modification times that gate the runtime cache, and receives either the
//! exact list of steps to carry out in order — directories to make, files to
//! write, files to copy, external commands to run — plus the build-signal
//! directives to print, or the first failure.  Any external process exiting
//! non-zero aborts the whole pipeline on the caller's side; there are no
//! retries and no partial success.

use vstd::prelude::*;

use crate::err::Error;
use crate::err::ErrV;
use crate::extract::StructDecl;
use crate::extract::StructV;
use crate::extract::spec_from_struct;
use crate::extract::spec_read_module_name;
use crate::extract::read_module_name;
use crate::model::Module;
use crate::shim::shim_source;
use crate::shim::shim_text;

verus! {

/// The mathematical value of a [`Command`].
pub struct CommandV {
    pub program: Seq<char>,
    pub args: Seq<Seq<char>>,
}

/// One external command invocation: the program and its argument list.
#[derive(Debug, PartialEq)]
pub struct Command {
    pub program: String,
    pub args: Vec<String>,
}

impl View for Command {
    type V = CommandV;

    open spec fn view(&self) -> CommandV {
        CommandV { program: self.program@, args: self.args.deep_view() }
    }
}

impl DeepView for Command {
    type V = CommandV;

    open spec fn deep_view(&self) -> CommandV {
        self.view()
    }
}

/// The mathematical value of a [`BuildStep`].
pub enum StepV {
    MakeDir(Seq<char>),
    WriteFile(Seq<char>, Seq<char>),
    CopyFile(Seq<char>, Seq<char>),
    Run(CommandV),
}

/// One step of the pipeline, to be carried out in order: ensure a directory
/// exists, write a file with given contents, copy a file, or run an external
/// command and abort on a non-zero exit.
#[derive(Debug, PartialEq)]
pub enum BuildStep {
    MakeDir(String),
    WriteFile(String, String),
    CopyFile(String, String),
    Run(Command),
}

impl View for BuildStep {
    type V = StepV;

    open spec fn view(&self) -> StepV {
        match self {
            BuildStep::MakeDir(d) => StepV::MakeDir(d@),
            BuildStep::WriteFile(p, c) => StepV::WriteFile(p@, c@),
            BuildStep::CopyFile(f, t) => StepV::CopyFile(f@, t@),
            BuildStep::Run(c) => StepV::Run(c@),
        }
    }
}

impl DeepView for BuildStep {
    type V = StepV;

    open spec fn deep_view(&self) -> StepV {
        self.view()
    }
}

/// The mathematical value of a [`BuildPlan`].
pub struct PlanV {
    pub steps: Seq<StepV>,
    pub directives: Seq<Seq<char>>,
}

/// The whole plan: the steps in order, then the line-oriented build-signal
/// directives to hand to the build driver.
#[derive(Debug, PartialEq)]
pub struct BuildPlan {
    pub steps: Vec<BuildStep>,
    pub directives: Vec<String>,
}

impl View for BuildPlan {
    type V = PlanV;

    open spec fn view(&self) -> PlanV {
        PlanV { steps: self.steps.deep_view(), directives: self.directives.deep_view() }
    }
}

/// The build-scoped, module-named output directory.
pub open spec fn verilated_dir(out_dir: Seq<char>, m: Seq<char>) -> Seq<char> {
    out_dir + "/"@ + m + "_verilated"@
}

/// The path of the generated shim source.
pub open spec fn binding_src_path(out_dir: Seq<char>, m: Seq<char>) -> Seq<char> {
    verilated_dir(out_dir, m) + "/"@ + m + "_binding.cc"@
}

/// The path of the compiled shim object.
pub open spec fn binding_obj_path(out_dir: Seq<char>, m: Seq<char>) -> Seq<char> {
    verilated_dir(out_dir, m) + "/"@ + m + "_binding.o"@
}

/// The toolchain's aggregate archive for the module.
pub open spec fn all_archive_path(out_dir: Seq<char>, m: Seq<char>) -> Seq<char> {
    verilated_dir(out_dir, m) + "/V"@ + m + "__ALL.a"@
}

/// The self-contained module archive this pipeline produces.
pub open spec fn module_archive_path(out_dir: Seq<char>, m: Seq<char>) -> Seq<char> {
    verilated_dir(out_dir, m) + "/libV"@ + m + ".a"@
}

/// The toolchain's header-and-runtime directory under its install root.
pub open spec fn toolchain_include_dir(root: Seq<char>) -> Seq<char> {
    root + "/incl"@ + "ude"@
}

/// The runtime-support source under the toolchain root.
pub open spec fn runtime_src_path(root: Seq<char>) -> Seq<char> {
    toolchain_include_dir(root) + "/verilated.cpp"@
}

/// The compiled runtime-support object.
pub open spec fn runtime_obj_path(out_dir: Seq<char>, m: Seq<char>) -> Seq<char> {
    verilated_dir(out_dir, m) + "/verilated.o"@
}

/// The shared runtime-support archive.
pub open spec fn runtime_archive_path(out_dir: Seq<char>, m: Seq<char>) -> Seq<char> {
    verilated_dir(out_dir, m) + "/libverilated.a"@
}

/// Whether the left artifact is older than the right: true when either
/// modification time is unavailable, else a strict comparison.  This is the
/// one stateful decision of the pipeline: it gates the runtime rebuild.
pub open spec fn spec_is_older(lhs: Option<u64>, rhs: Option<u64>) -> bool {
    match (lhs, rhs) {
        (Some(l), Some(r)) => l < r,
        _ => true,
    }
}

/// Compares two optional modification times as [`spec_is_older`] states.
pub fn is_older(lhs: Option<u64>, rhs: Option<u64>) -> (r: bool)
    ensures
        r == spec_is_older(lhs, rhs),
{
    match (lhs, rhs) {
        (Some(l), Some(r)) => l < r,
        _ => true,
    }
}

/// The compiler invocation that builds the simulation model from the
/// supplied sources plus the generated shim, targeting the module name.
pub open spec fn verilator_cmd(
    m: Seq<char>,
    vdir: Seq<char>,
    files: Seq<Seq<char>>,
    bsrc: Seq<char>,
) -> CommandV {
    CommandV {
        program: "verilator"@,
        args: seq!["--cc"@, "--build"@, "--top-module"@, m, "--Mdir"@, vdir] + files + seq![bsrc],
    }
}

/// The native-compiler invocation that compiles the shim against the
/// toolchain's and the model's headers.
pub open spec fn compile_binding_cmd(
    vinc: Seq<char>,
    vdir: Seq<char>,
    bsrc: Seq<char>,
    bobj: Seq<char>,
) -> CommandV {
    CommandV {
        program: "g++"@,
        args: seq!["-I"@ + vinc, "-I"@ + vdir, "-c"@, bsrc, "-o"@, bobj],
    }
}

/// The archiver invocation that appends the shim objects into the module
/// archive.
pub open spec fn archive_module_cmd(
    mpath: Seq<char>,
    obj1: Seq<char>,
    obj2: Seq<char>,
) -> CommandV {
    CommandV { program: "ar"@, args: seq!["rcs"@, mpath, obj1, obj2] }
}

/// The native-compiler invocation that rebuilds the runtime-support object.
pub open spec fn compile_runtime_cmd(vinc: Seq<char>, rsrc: Seq<char>, robj: Seq<char>) -> CommandV {
    CommandV { program: "g++"@, args: seq!["-I"@ + vinc, "-c"@, rsrc, "-o"@, robj] }
}

/// The archiver invocation that packages the runtime-support archive.
pub open spec fn archive_runtime_cmd(rpath: Seq<char>, robj: Seq<char>) -> CommandV {
    CommandV { program: "ar"@, args: seq!["rcs"@, rpath, robj] }
}

/// The six base steps of every successful plan, in order; with `rebuild`
/// set, the two runtime-cache steps follow.
pub open spec fn spec_plan_steps(
    m: Seq<char>,
    out_dir: Seq<char>,
    root: Seq<char>,
    files: Seq<Seq<char>>,
    shim: Seq<char>,
    rebuild: bool,
) -> Seq<StepV> {
    let vdir = verilated_dir(out_dir, m);
    let vinc = toolchain_include_dir(root);
    let bsrc = binding_src_path(out_dir, m);
    let bobj = binding_obj_path(out_dir, m);
    let base = seq![
        StepV::MakeDir(vdir),
        StepV::WriteFile(bsrc, shim),
        StepV::Run(verilator_cmd(m, vdir, files, bsrc)),
        StepV::Run(compile_binding_cmd(vinc, vdir, bsrc, bobj)),
        StepV::CopyFile(all_archive_path(out_dir, m), module_archive_path(out_dir, m)),
        StepV::Run(archive_module_cmd(module_archive_path(out_dir, m), bobj, bobj)),
    ];
    if rebuild {
        base + seq![
            StepV::Run(compile_runtime_cmd(vinc, runtime_src_path(root), runtime_obj_path(out_dir, m))),
            StepV::Run(archive_runtime_cmd(runtime_archive_path(out_dir, m), runtime_obj_path(out_dir, m))),
        ]
    } else {
        base
    }
}

/// The build-signal directives: the library search path, the static link
/// against the module archive, the static link against the runtime archive,
/// the dynamic link against the native runtime library, then one rerun
/// declaration per hardware-description source.
pub open spec fn spec_directives(m: Seq<char>, out_dir: Seq<char>, files: Seq<Seq<char>>) -> Seq<
    Seq<char>,
> {
    seq![
        "cargo:rustc-link-search=native="@ + verilated_dir(out_dir, m),
        "cargo:rustc-link-lib=static=V"@ + m,
        "cargo:rustc-link-lib=static=verilated"@,
        "cargo:rustc-link-lib=dylib=stdc++"@,
    ] + files.map_values(|f: Seq<char>| "cargo:rerun-if-changed="@ + f)
}

/// The first source path reported missing, if any.
pub open spec fn first_missing(files: Seq<Seq<char>>, exists: Seq<bool>) -> Option<Seq<char>>
    decreases files.len(),
{
    if files.len() == 0 {
        None
    } else if !exists[0] {
        Some(files[0])
    } else {
        first_missing(files.drop_first(), exists.drop_first())
    }
}

/// The message with which a missing source path is rejected.
pub open spec fn missing_file_msg(f: Seq<char>) -> Seq<char> {
    "file "@ + f + " does not exist"@
}

/// What planning a whole build yields: fail-fast on the first missing
/// source, then the module name off the declaration, then extraction, then
/// the exact steps and directives.
pub open spec fn spec_build_plan(
    s: StructV,
    out_dir: Seq<char>,
    root: Seq<char>,
    files: Seq<Seq<char>>,
    exists: Seq<bool>,
    runtime_mtime: Option<u64>,
    runtime_src_mtime: Option<u64>,
) -> Result<PlanV, ErrV> {
    match first_missing(files, exists) {
        Some(f) => Err(ErrV::Input(missing_file_msg(f))),
        None => match spec_read_module_name(s.attrs, s.ident) {
            Err(e) => Err(e),
            Ok(name) => match spec_from_struct(name, s) {
                Err(e) => Err(e),
                Ok(module) => Ok(
                    PlanV {
                        steps: spec_plan_steps(
                            name,
                            out_dir,
                            root,
                            files,
                            shim_text(name, module.ports),
                            spec_is_older(runtime_mtime, runtime_src_mtime),
                        ),
                        directives: spec_directives(name, out_dir, files),
                    },
                ),
            },
        },
    }
}

/// Joins path or directive fragments: `a + b`.
fn cat2(a: &str, b: &str) -> (r: String)
    ensures
        r@ == a@ + b@,
{
    let mut s = String::from_str(a);
    s.append(b);
    proof {
        assert(s@ =~= a@ + b@);
    }
    s
}

/// Joins path or directive fragments: `a + b + c`.
fn cat3(a: &str, b: &str, c: &str) -> (r: String)
    ensures
        r@ == a@ + b@ + c@,
{
    let mut s = String::from_str(a);
    s.append(b);
    s.append(c);
    proof {
        assert(s@ =~= a@ + b@ + c@);
    }
    s
}

/// Joins path fragments: `a + b + c + d`.
fn cat4(a: &str, b: &str, c: &str, d: &str) -> (r: String)
    ensures
        r@ == a@ + b@ + c@ + d@,
{
    let mut s = String::from_str(a);
    s.append(b);
    s.append(c);
    s.append(d);
    proof {
        assert(s@ =~= a@ + b@ + c@ + d@);
    }
    s
}

/// Pushes one fresh argument.
fn push_arg(args: &mut Vec<String>, s: &str)
    ensures
        final(args).deep_view() == old(args).deep_view().push(s@),
{
    args.push(String::from_str(s));
    proof {
        assert(args.deep_view() =~= old(args).deep_view().push(s@));
    }
}

/// Pushes one owned argument.
fn push_string(args: &mut Vec<String>, s: String)
    ensures
        final(args).deep_view() == old(args).deep_view().push(s@),
{
    args.push(s);
    proof {
        assert(args.deep_view() =~= old(args).deep_view().push(s@));
    }
}

/// Builds the whole pipeline plan for one declaration.  The caller supplies
/// the build-output directory and toolchain root, the hardware-description
/// sources paired with whether each exists, and the modification times of
/// the runtime archive and its source (`None` when unavailable).  On success
/// the plan holds exactly the steps of [`spec_plan_steps`] — the runtime
/// steps exactly when the archive is missing or older than its source — and
/// the directives of [`spec_directives`]; a missing source, a missing or
/// malformed module-name attribute, or a failing extraction is the exact
/// failure [`spec_build_plan`] states, and yields no step at all.
#[verifier::loop_isolation(false)]
#[verifier::rlimit(100)]
pub fn build_plan(
    defn: &StructDecl,
    out_dir: &str,
    verilator_root: &str,
    verilog_files: &Vec<String>,
    verilog_exists: &Vec<bool>,
    runtime_mtime: Option<u64>,
    runtime_src_mtime: Option<u64>,
) -> (r: Result<BuildPlan, Error>)
    requires
        verilog_exists@.len() == verilog_files@.len(),
    ensures
        (match r {
            Ok(p) => spec_build_plan(
                defn@,
                out_dir@,
                verilator_root@,
                verilog_files.deep_view(),
                verilog_exists@,
                runtime_mtime,
                runtime_src_mtime,
            ) == Ok::<PlanV, ErrV>(p@),
            Err(e) => spec_build_plan(
                defn@,
                out_dir@,
                verilator_root@,
                verilog_files.deep_view(),
                verilog_exists@,
                runtime_mtime,
                runtime_src_mtime,
            ) == Err::<PlanV, ErrV>(e@),
        }),
{
    let ghost filesv = verilog_files.deep_view();
    let ghost existsv = verilog_exists@;
    // Fail fast: every referenced source path must exist before any other
    // work is considered.
    let n = verilog_files.len();
    let mut i: usize = 0;
    proof {
        assert(filesv.skip(0) =~= filesv);
        assert(existsv.skip(0) =~= existsv);
        assert(filesv.len() == n);
    }
    while i < n
        invariant
            i <= n,
            first_missing(filesv, existsv) == first_missing(
                filesv.skip(i as int),
                existsv.skip(i as int),
            ),
        decreases n - i,
    {
        proof {
            assert(filesv.skip(i as int)[0] == filesv[i as int]);
            assert(existsv.skip(i as int)[0] == existsv[i as int]);
            assert(filesv.skip(i as int).drop_first() =~= filesv.skip(i as int + 1));
            assert(existsv.skip(i as int).drop_first() =~= existsv.skip(i as int + 1));
        }
        if !verilog_exists[i] {
            let mut msg = String::from_str("file ");
            msg.append(verilog_files[i].as_str());
            msg.append(" does not exist");
            proof {
                assert(msg@ =~= missing_file_msg(filesv[i as int]));
            }
            return Err(Error::Input(msg));
        }
        i = i + 1;
    }
    proof {
        assert(filesv.skip(n as int) =~= Seq::<Seq<char>>::empty());
        assert(existsv.skip(n as int) =~= Seq::<bool>::empty());
        assert(first_missing(filesv, existsv) is None);
    }
    // Extraction.
    let module_name = match read_module_name(defn) {
        Ok(m) => m,
        Err(e) => {
            return Err(e);
        },
    };
    let module = match Module::from_struct(module_name.clone(), defn) {
        Ok(m) => m,
        Err(e) => {
            return Err(e);
        },
    };
    let ghost mv = module_name@;
    // Generation.
    let shim = shim_source(module_name.as_str(), &module);
    // Paths.
    let vdir = cat3(out_dir, "/", module_name.as_str());
    let vdir = {
        let mut v = vdir;
        v.append("_verilated");
        v
    };
    proof {
        assert(vdir@ =~= verilated_dir(out_dir@, mv));
    }
    let bsrc = cat4(vdir.as_str(), "/", module_name.as_str(), "_binding.cc");
    let bobj = cat4(vdir.as_str(), "/", module_name.as_str(), "_binding.o");
    let all_path = cat4(vdir.as_str(), "/V", module_name.as_str(), "__ALL.a");
    let mod_archive = cat4(vdir.as_str(), "/libV", module_name.as_str(), ".a");
    let vinc = cat3(verilator_root, "/incl", "ude");
    let rsrc = cat2(vinc.as_str(), "/verilated.cpp");
    let robj = cat2(vdir.as_str(), "/verilated.o");
    let rpath = cat2(vdir.as_str(), "/libverilated.a");
    proof {
        assert(bsrc@ =~= binding_src_path(out_dir@, mv));
        assert(bobj@ =~= binding_obj_path(out_dir@, mv));
        assert(all_path@ =~= all_archive_path(out_dir@, mv));
        assert(mod_archive@ =~= module_archive_path(out_dir@, mv));
        assert(vinc@ =~= toolchain_include_dir(verilator_root@));
        assert(rsrc@ =~= runtime_src_path(verilator_root@));
        assert(robj@ =~= runtime_obj_path(out_dir@, mv));
        assert(rpath@ =~= runtime_archive_path(out_dir@, mv));
    }
    // The model-compiler command.
    let mut vargs: Vec<String> = Vec::new();
    proof {
        assert(vargs.deep_view() =~= Seq::<Seq<char>>::empty());
    }
    push_arg(&mut vargs, "--cc");
    push_arg(&mut vargs, "--build");
    push_arg(&mut vargs, "--top-module");
    push_string(&mut vargs, module_name.clone());
    push_arg(&mut vargs, "--Mdir");
    push_string(&mut vargs, vdir.clone());
    let ghost vfixed = seq!["--cc"@, "--build"@, "--top-module"@, mv, "--Mdir"@, vdir@];
    proof {
        assert(vargs.deep_view() =~= vfixed);
        assert(filesv.take(0) =~= Seq::<Seq<char>>::empty());
        assert(vargs.deep_view() =~= vfixed + filesv.take(0));
    }
    let mut i: usize = 0;
    while i < n
        invariant
            i <= n,
            vargs.deep_view() == vfixed + filesv.take(i as int),
        decreases n - i,
    {
        let ghost pre = vargs.deep_view();
        push_string(&mut vargs, verilog_files[i].clone());
        proof {
            assert(vargs.deep_view() =~= pre.push(filesv[i as int]));
            assert(filesv.take(i as int + 1) =~= filesv.take(i as int).push(filesv[i as int]));
            assert(vargs.deep_view() =~= vfixed + filesv.take(i as int + 1));
        }
        i = i + 1;
    }
    proof {
        assert(filesv.take(n as int) =~= filesv);
    }
    let ghost pre = vargs.deep_view();
    push_string(&mut vargs, bsrc.clone());
    proof {
        assert(vargs.deep_view() =~= pre.push(bsrc@));
        assert(vargs.deep_view() =~= (vfixed + filesv) + seq![bsrc@]);
    }
    let verilator = Command { program: String::from_str("verilator"), args: vargs };
    proof {
        assert(verilator@ == verilator_cmd(mv, vdir@, filesv, bsrc@));
    }
    // The shim-compiler command.
    let mut gargs: Vec<String> = Vec::new();
    proof {
        assert(gargs.deep_view() =~= Seq::<Seq<char>>::empty());
    }
    push_string(&mut gargs, cat2("-I", vinc.as_str()));
    push_string(&mut gargs, cat2("-I", vdir.as_str()));
    push_arg(&mut gargs, "-c");
    push_string(&mut gargs, bsrc.clone());
    push_arg(&mut gargs, "-o");
    push_string(&mut gargs, bobj.clone());
    let compile_binding = Command { program: String::from_str("g++"), args: gargs };
    proof {
        assert(compile_binding@.args =~= compile_binding_cmd(vinc@, vdir@, bsrc@, bobj@).args);
        assert(compile_binding@ == compile_binding_cmd(vinc@, vdir@, bsrc@, bobj@));
    }
    // The module-archive command.
    let mut aargs: Vec<String> = Vec::new();
    proof {
        assert(aargs.deep_view() =~= Seq::<Seq<char>>::empty());
    }
    push_arg(&mut aargs, "rcs");
    push_string(&mut aargs, mod_archive.clone());
    push_string(&mut aargs, bobj.clone());
    push_string(&mut aargs, bobj.clone());
    let archive_module = Command { program: String::from_str("ar"), args: aargs };
    proof {
        assert(archive_module@.args =~= archive_module_cmd(mod_archive@, bobj@, bobj@).args);
        assert(archive_module@ == archive_module_cmd(mod_archive@, bobj@, bobj@));
    }
    // The steps, in order; the runtime cache gates the last two.
    let rebuild = is_older(runtime_mtime, runtime_src_mtime);
    let mut steps: Vec<BuildStep> = Vec::new();
    steps.push(BuildStep::MakeDir(vdir.clone()));
    steps.push(BuildStep::WriteFile(bsrc.clone(), shim));
    steps.push(BuildStep::Run(verilator));
    steps.push(BuildStep::Run(compile_binding));
    steps.push(BuildStep::CopyFile(all_path, mod_archive));
    steps.push(BuildStep::Run(archive_module));
    let ghost base_steps = spec_plan_steps(
        mv,
        out_dir@,
        verilator_root@,
        filesv,
        shim_text(mv, module@.ports),
        false,
    );
    proof {
        assert(steps.deep_view() =~= base_steps);
    }
    if rebuild {
        let mut cargs: Vec<String> = Vec::new();
        proof {
            assert(cargs.deep_view() =~= Seq::<Seq<char>>::empty());
        }
        push_string(&mut cargs, cat2("-I", vinc.as_str()));
        push_arg(&mut cargs, "-c");
        push_string(&mut cargs, rsrc);
        push_arg(&mut cargs, "-o");
        push_string(&mut cargs, robj.clone());
        let compile_runtime = Command { program: String::from_str("g++"), args: cargs };
        proof {
            assert(compile_runtime@.args =~= compile_runtime_cmd(vinc@, runtime_src_path(verilator_root@), robj@).args);
            assert(compile_runtime@ == compile_runtime_cmd(
                vinc@,
                runtime_src_path(verilator_root@),
                robj@,
            ));
        }
        let mut rargs: Vec<String> = Vec::new();
        proof {
            assert(rargs.deep_view() =~= Seq::<Seq<char>>::empty());
        }
        push_arg(&mut rargs, "rcs");
        push_string(&mut rargs, rpath);
        push_string(&mut rargs, robj);
        let archive_runtime = Command { program: String::from_str("ar"), args: rargs };
        proof {
            assert(archive_runtime@.args =~= archive_runtime_cmd(runtime_archive_path(out_dir@, mv), robj@).args);
            assert(archive_runtime@ == archive_runtime_cmd(
                runtime_archive_path(out_dir@, mv),
                robj@,
            ));
        }
        steps.push(BuildStep::Run(compile_runtime));
        steps.push(BuildStep::Run(archive_runtime));
        proof {
            assert(steps.deep_view() =~= spec_plan_steps(
                mv,
                out_dir@,
                verilator_root@,
                filesv,
                shim_text(mv, module@.ports),
                true,
            ));
        }
    }
    // The directives.
    let mut directives: Vec<String> = Vec::new();
    proof {
        assert(directives.deep_view() =~= Seq::<Seq<char>>::empty());
    }
    push_string(&mut directives, cat2("cargo:rustc-link-search=native=", vdir.as_str()));
    push_string(&mut directives, cat2("cargo:rustc-link-lib=static=V", module_name.as_str()));
    push_arg(&mut directives, "cargo:rustc-link-lib=static=verilated");
    push_arg(&mut directives, "cargo:rustc-link-lib=dylib=stdc++");
    let ghost dirs_fixed = seq![
        "cargo:rustc-link-search=native="@ + verilated_dir(out_dir@, mv),
        "cargo:rustc-link-lib=static=V"@ + mv,
        "cargo:rustc-link-lib=static=verilated"@,
        "cargo:rustc-link-lib=dylib=stdc++"@,
    ];
    let ghost rerun_of = |f: Seq<char>| "cargo:rerun-if-changed="@ + f;
    proof {
        assert(directives.deep_view() =~= dirs_fixed);
        assert(filesv.map_values(rerun_of).take(0) =~= Seq::<Seq<char>>::empty());
        assert(directives.deep_view() =~= dirs_fixed + filesv.map_values(rerun_of).take(0));
    }
    let mut i: usize = 0;
    while i < n
        invariant
            i <= n,
            directives.deep_view() == dirs_fixed + filesv.map_values(rerun_of).take(i as int),
        decreases n - i,
    {
        let ghost pre = directives.deep_view();
        push_string(&mut directives, cat2("cargo:rerun-if-changed=", verilog_files[i].as_str()));
        proof {
            let ghost mapped = filesv.map_values(rerun_of);
            assert(mapped[i as int] == rerun_of(filesv[i as int]));
            assert(directives.deep_view() =~= pre.push(mapped[i as int]));
            assert(mapped.take(i as int + 1) =~= mapped.take(i as int).push(mapped[i as int]));
            assert(directives.deep_view() =~= dirs_fixed + mapped.take(i as int + 1));
        }
        i = i + 1;
    }
    proof {
        assert(filesv.map_values(rerun_of).take(n as int) =~= filesv.map_values(rerun_of));
        assert(filesv.map_values(rerun_of) =~= filesv.map_values(
            |f: Seq<char>| "cargo:rerun-if-changed="@ + f,
        ));
    }
    let plan = BuildPlan { steps, directives };
    proof {
        assert(plan@.directives =~= spec_directives(mv, out_dir@, filesv));
    }
    Ok(plan)
}

/// With the runtime archive present and at least as new as its own source,
/// a successful plan carries exactly the six base steps — no tool is
/// reinvoked for the runtime; with the archive missing or older, exactly
/// the two runtime steps follow them.  This modification-time comparison is
/// the only caching in the pipeline.
pub proof fn lemma_runtime_cache(
    s: StructV,
    out_dir: Seq<char>,
    root: Seq<char>,
    files: Seq<Seq<char>>,
    exists: Seq<bool>,
    runtime_mtime: Option<u64>,
    runtime_src_mtime: Option<u64>,
)
    requires
        spec_build_plan(s, out_dir, root, files, exists, runtime_mtime, runtime_src_mtime) is Ok,
    ensures
        ({
            let plan = spec_build_plan(
                s,
                out_dir,
                root,
                files,
                exists,
                runtime_mtime,
                runtime_src_mtime,
            )->Ok_0;
            let name = spec_read_module_name(s.attrs, s.ident)->Ok_0;
            let vinc = toolchain_include_dir(root);
            &&& (!spec_is_older(runtime_mtime, runtime_src_mtime) ==> plan.steps.len() == 6)
            &&& (spec_is_older(runtime_mtime, runtime_src_mtime) ==> plan.steps.len() == 8
                && plan.steps[6] == StepV::Run(
                compile_runtime_cmd(vinc, runtime_src_path(root), runtime_obj_path(out_dir, name)),
            ) && plan.steps[7] == StepV::Run(
                archive_runtime_cmd(
                    runtime_archive_path(out_dir, name),
                    runtime_obj_path(out_dir, name),
                ),
            ))
            &&& plan.steps[0] == StepV::MakeDir(verilated_dir(out_dir, name))
            &&& plan.steps[2] is Run && (plan.steps[2]->Run_0).program == "verilator"@
            &&& plan.steps[3] is Run && (plan.steps[3]->Run_0).program == "g++"@
            &&& plan.steps[5] is Run && (plan.steps[5]->Run_0).program == "ar"@
        }),
{
}

/// A hardware-description source path that does not exist fails planning at
/// once with an `Input` failure naming the first missing path; no step is
/// produced, so no external tool is ever invoked for such an input.
pub proof fn lemma_fail_fast(
    s: StructV,
    out_dir: Seq<char>,
    root: Seq<char>,
    files: Seq<Seq<char>>,
    exists: Seq<bool>,
    runtime_mtime: Option<u64>,
    runtime_src_mtime: Option<u64>,
    k: int,
)
    requires
        exists.len() == files.len(),
        0 <= k < files.len(),
        !exists[k],
    ensures
        first_missing(files, exists) is Some,
        spec_build_plan(s, out_dir, root, files, exists, runtime_mtime, runtime_src_mtime)
            == Err::<PlanV, ErrV>(ErrV::Input(missing_file_msg(first_missing(files, exists)->0))),
{
    lemma_first_missing_finds(files, exists, k);
}

/// Some reported-missing path makes [`first_missing`] find one.
proof fn lemma_first_missing_finds(files: Seq<Seq<char>>, exists: Seq<bool>, k: int)
    requires
        exists.len() == files.len(),
        0 <= k < files.len(),
        !exists[k],
    ensures
        first_missing(files, exists) is Some,
    decreases files.len(),
{
    if !exists[0] {
    } else {
        assert(files.drop_first()[k - 1] == files[k]);
        assert(exists.drop_first()[k - 1] == exists[k]);
        lemma_first_missing_finds(files.drop_first(), exists.drop_first(), k - 1);
    }
}

} // verus!
