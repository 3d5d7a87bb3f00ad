//! The shim generator: from a module to the text of one native compilation
//! unit with C-compatible linkage over the compiled simulation model.
//!
//! The unit holds a constructor, a destructor and a settle-step entry for
//! the simulation instance, one setter per input-capable port and one getter
//! per output-capable port, in the module's port order.  A side-effect-free
//! `Model -> Text` transform; writing the text out is the caller's business.

use vstd::prelude::*;

use crate::model::Module;
use crate::model::PortV;

verus! {

/// The fixed head of the shim unit: the model header, the opening of the
/// C-linkage block, and the constructor, destructor and settle-step entries.
pub open spec fn shim_header(m: Seq<char>) -> Seq<char> {
    "#incl"@ + "ude <V"@ + m + ".h>\n\n"@ + "ext"@ + "ern \"C\" {\n"@ + "V"@ + m + "* "@ + m
        + "_new() {\n  return new V"@ + m + ";\n}\n"@ + "void "@ + m + "_del(V"@ + m
        + "* dut) {\n  delete dut;\n}\n"@ + "void "@ + m + "_eval(V"@ + m
        + "* dut) {\n  dut->eval();\n}\n"@
}

/// The setter the shim exposes for one input-capable port: assigns the
/// model's field of that name.
pub open spec fn shim_set_fn(m: Seq<char>, p: Seq<char>, c: Seq<char>) -> Seq<char> {
    "void "@ + m + "_set_"@ + p + "(V"@ + m + "* dut, "@ + c + " value) {\n  dut->"@ + p
        + " = value;\n}\n"@
}

/// The getter the shim exposes for one output-capable port: reads the
/// model's field of that name.
pub open spec fn shim_get_fn(m: Seq<char>, p: Seq<char>, c: Seq<char>) -> Seq<char> {
    c + " "@ + m + "_get_"@ + p + "(V"@ + m + "* dut) {\n  return dut->"@ + p + ";\n}\n"@
}

/// What the shim emits for one port: its setter if input-capable, then its
/// getter if output-capable, over the port type's native ABI name.
pub open spec fn shim_port_text(m: Seq<char>, p: PortV) -> Seq<char> {
    (if p.input {
        shim_set_fn(m, p.name, p.data_type.spec_c_name())
    } else {
        Seq::empty()
    }) + (if p.output {
        shim_get_fn(m, p.name, p.data_type.spec_c_name())
    } else {
        Seq::empty()
    })
}

/// What the shim emits for a port list, in order.
pub open spec fn shim_ports_text(m: Seq<char>, ports: Seq<PortV>) -> Seq<char>
    decreases ports.len(),
{
    if ports.len() == 0 {
        Seq::empty()
    } else {
        shim_ports_text(m, ports.drop_last()) + shim_port_text(m, ports.last())
    }
}

/// The whole shim unit for a module name and its port list.
pub open spec fn shim_text(m: Seq<char>, ports: Seq<PortV>) -> Seq<char> {
    shim_header(m) + shim_ports_text(m, ports) + "}\n"@
}

/// Appends the fixed head of the shim unit.
fn append_shim_header(out: &mut String, m: &str)
    ensures
        final(out)@ == old(out)@ + shim_header(m@),
{
    out.append("#incl");
    out.append("ude <V");
    out.append(m);
    out.append(".h>\n\n");
    out.append("ext");
    out.append("ern \"C\" {\n");
    out.append("V");
    out.append(m);
    out.append("* ");
    out.append(m);
    out.append("_new() {\n  return new V");
    out.append(m);
    out.append(";\n}\n");
    out.append("void ");
    out.append(m);
    out.append("_del(V");
    out.append(m);
    out.append("* dut) {\n  delete dut;\n}\n");
    out.append("void ");
    out.append(m);
    out.append("_eval(V");
    out.append(m);
    out.append("* dut) {\n  dut->eval();\n}\n");
    proof {
        assert(out@ =~= old(out)@ + shim_header(m@));
    }
}

/// Appends the setter of one input-capable port.
fn append_shim_set(out: &mut String, m: &str, p: &str, c: &str)
    ensures
        final(out)@ == old(out)@ + shim_set_fn(m@, p@, c@),
{
    out.append("void ");
    out.append(m);
    out.append("_set_");
    out.append(p);
    out.append("(V");
    out.append(m);
    out.append("* dut, ");
    out.append(c);
    out.append(" value) {\n  dut->");
    out.append(p);
    out.append(" = value;\n}\n");
    proof {
        assert(out@ =~= old(out)@ + shim_set_fn(m@, p@, c@));
    }
}

/// Appends the getter of one output-capable port.
fn append_shim_get(out: &mut String, m: &str, p: &str, c: &str)
    ensures
        final(out)@ == old(out)@ + shim_get_fn(m@, p@, c@),
{
    out.append(c);
    out.append(" ");
    out.append(m);
    out.append("_get_");
    out.append(p);
    out.append("(V");
    out.append(m);
    out.append("* dut) {\n  return dut->");
    out.append(p);
    out.append(";\n}\n");
    proof {
        assert(out@ =~= old(out)@ + shim_get_fn(m@, p@, c@));
    }
}

/// Emits the shim compilation unit for the module: header, one accessor per
/// port direction in declaration order, and the closing of the C-linkage
/// block, character for character as [`shim_text`] states.
#[verifier::loop_isolation(false)]
pub fn shim_source(module_name: &str, module: &Module) -> (r: String)
    ensures
        r@ == shim_text(module_name@, module@.ports),
{
    let ghost mv = module_name@;
    let ghost psv = module@.ports;
    let ports_vec = module.ports();
    let mut out = String::new();
    append_shim_header(&mut out, module_name);
    proof {
        assert(out@ =~= shim_header(mv));
        assert(psv.take(0) =~= Seq::<PortV>::empty());
        assert(out@ =~= shim_header(mv) + shim_ports_text(mv, psv.take(0)));
    }
    let n = ports_vec.len();
    proof {
        assert(psv.len() == n);
    }
    let mut i: usize = 0;
    while i < n
        invariant
            i <= n,
            out@ == shim_header(mv) + shim_ports_text(mv, psv.take(i as int)),
        decreases n - i,
    {
        let port = &ports_vec[i];
        proof {
            assert(psv[i as int] == port@);
        }
        let pname = port.name();
        let ghost pre = out@;
        if port.input() {
            let c = port.data_type().as_c();
            append_shim_set(&mut out, module_name, pname.as_str(), c.as_str());
        }
        if port.output() {
            let c = port.data_type().as_c();
            append_shim_get(&mut out, module_name, pname.as_str(), c.as_str());
        }
        proof {
            assert(out@ =~= pre + shim_port_text(mv, psv[i as int]));
            assert(psv.take(i as int + 1).drop_last() =~= psv.take(i as int));
            assert(psv.take(i as int + 1).last() == psv[i as int]);
            assert(out@ =~= shim_header(mv) + shim_ports_text(mv, psv.take(i as int + 1)));
        }
        i = i + 1;
    }
    proof {
        assert(psv.take(n as int) =~= psv);
    }
    out.append("}\n");
    proof {
        assert(out@ =~= shim_text(mv, psv));
    }
    out
}

} // verus!
