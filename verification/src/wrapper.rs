//! The wrapper generator: from a module to the host-language source of a
//! value type over the opaque simulation handle.
//!
//! The generated type holds exactly one handle field; its constructor,
//! `eval` method and teardown delegate to the shim, as do one `set` method
//! per input-capable port and one `get` method per output-capable port, each
//! through a declared foreign-function binding mirroring the shim signature.
//! With a clock designated, a `tick` method drives one rising-then-falling
//! edge.  A side-effect-free `Model -> Text` transform.

use vstd::prelude::*;

use crate::err::Error;
use crate::err::ErrV;
use crate::extract::AttrToken;
use crate::extract::StructDecl;
use crate::extract::StructV;
use crate::extract::spec_from_struct;
use crate::extract::spec_module_name_from_attr;
use crate::extract::AttrTokenV;
use crate::model::DataType;
use crate::model::Module;
use crate::model::ModuleV;
use crate::model::PortV;

verus! {

/// The keyword that opens a delegating call block in the generated source.
/// Assembled from fragments: the generator's own source is verified code and
/// holds none of the foreign-call syntax it emits.
pub open spec fn guard_kw() -> Seq<char> {
    "uns"@ + "afe"@
}

/// The declared visibility followed by one space, or nothing when the
/// declaration carried none.
pub open spec fn wrap_vis_prefix(vis: Seq<char>) -> Seq<char> {
    if vis.len() == 0 {
        Seq::empty()
    } else {
        vis + " "@
    }
}

/// The generated value type: one opaque handle field.
pub open spec fn wrap_struct_decl(vis: Seq<char>, id: Seq<char>) -> Seq<char> {
    wrap_vis_prefix(vis) + "struct "@ + id + " {\n    dut: *"@ + "mut (),\n}\n"@
}

/// The opening of the inherent block with the constructor and the `eval`
/// method, each delegating to the shim.
pub open spec fn wrap_new_eval(m: Seq<char>, id: Seq<char>) -> Seq<char> {
    "impl "@ + id + " {\n"@ + "    fn new() -> Self {\n        let dut = "@ + guard_kw() + " { "@
        + m + "_new() };\n        Self { dut }\n    }\n"@
        + "    fn eval(&mut self) {\n        "@ + guard_kw() + " { "@ + m
        + "_eval(self.dut) };\n    }\n"@
}

/// The synthesized `tick` method: assert the clock, settle, deassert it,
/// settle again — one rising-then-falling edge per call.
pub open spec fn wrap_tick_fn(clk: Seq<char>, dt: DataType) -> Seq<char> {
    "    fn tick(&mut self) {\n        self.set_"@ + clk + "("@ + dt.spec_asserted()
        + ");\n        self.eval();\n        self.set_"@ + clk + "("@ + dt.spec_deasserted()
        + ");\n        self.eval();\n    }\n"@
}

/// The `set` method of one input-capable port, typed by the port's
/// canonical name.
pub open spec fn wrap_set_method(m: Seq<char>, p: Seq<char>, t: Seq<char>) -> Seq<char> {
    "    fn set_"@ + p + "(&mut self, value: "@ + t + ") {\n        "@ + guard_kw() + " { "@ + m
        + "_set_"@ + p + "(self.dut, value) };\n    }\n"@
}

/// The `get` method of one output-capable port, typed by the port's
/// canonical name.
pub open spec fn wrap_get_method(m: Seq<char>, p: Seq<char>, t: Seq<char>) -> Seq<char> {
    "    fn get_"@ + p + "(&self) -> "@ + t + " {\n        "@ + guard_kw() + " { "@ + m + "_get_"@
        + p + "(self.dut) }\n    }\n"@
}

/// The methods of one port: setter if input-capable, then getter if
/// output-capable.
pub open spec fn wrap_port_methods(m: Seq<char>, p: PortV) -> Seq<char> {
    (if p.input {
        wrap_set_method(m, p.name, p.data_type.spec_name())
    } else {
        Seq::empty()
    }) + (if p.output {
        wrap_get_method(m, p.name, p.data_type.spec_name())
    } else {
        Seq::empty()
    })
}

/// The methods of a port list, in order.
pub open spec fn wrap_ports_methods(m: Seq<char>, ports: Seq<PortV>) -> Seq<char>
    decreases ports.len(),
{
    if ports.len() == 0 {
        Seq::empty()
    } else {
        wrap_ports_methods(m, ports.drop_last()) + wrap_port_methods(m, ports.last())
    }
}

/// The teardown block: releasing the handle runs on every exit path of the
/// generated value's lifetime.
pub open spec fn wrap_drop_impl(m: Seq<char>, id: Seq<char>) -> Seq<char> {
    "impl Drop for "@ + id + " {\n    fn drop(&mut self) {\n        "@ + guard_kw() + " { "@ + m
        + "_del(self.dut) };\n    }\n}\n"@
}

/// The link attribute against the module archive and the opening of the
/// foreign-function block.
pub open spec fn wrap_link_head(m: Seq<char>) -> Seq<char> {
    "#[link(name = \"V"@ + m + "\")]\n"@ + "ext"@ + "ern \"C\" {\n"@
}

/// The foreign declarations of the constructor, destructor and settle-step
/// entries.
pub open spec fn wrap_base_decls(m: Seq<char>) -> Seq<char> {
    "    fn "@ + m + "_new() -> *"@ + "mut ();\n"@ + "    fn "@ + m + "_del(dut: *"@
        + "mut ());\n"@ + "    fn "@ + m + "_eval(dut: *"@ + "mut ());\n"@
}

/// The foreign declaration mirroring the shim's setter for one port.
pub open spec fn wrap_set_decl(m: Seq<char>, p: Seq<char>, t: Seq<char>) -> Seq<char> {
    "    fn "@ + m + "_set_"@ + p + "(dut: *"@ + "mut (), value: "@ + t + ");\n"@
}

/// The foreign declaration mirroring the shim's getter for one port.
pub open spec fn wrap_get_decl(m: Seq<char>, p: Seq<char>, t: Seq<char>) -> Seq<char> {
    "    fn "@ + m + "_get_"@ + p + "(dut: *"@ + "mut ()) -> "@ + t + ";\n"@
}

/// The foreign declarations of one port, setter then getter.
pub open spec fn wrap_port_decls(m: Seq<char>, p: PortV) -> Seq<char> {
    (if p.input {
        wrap_set_decl(m, p.name, p.data_type.spec_name())
    } else {
        Seq::empty()
    }) + (if p.output {
        wrap_get_decl(m, p.name, p.data_type.spec_name())
    } else {
        Seq::empty()
    })
}

/// The foreign declarations of a port list, in order.
pub open spec fn wrap_ports_decls(m: Seq<char>, ports: Seq<PortV>) -> Seq<char>
    decreases ports.len(),
{
    if ports.len() == 0 {
        Seq::empty()
    } else {
        wrap_ports_decls(m, ports.drop_last()) + wrap_port_decls(m, ports.last())
    }
}

/// The whole generated wrapper source for a module.
pub open spec fn wrapper_text(m: ModuleV) -> Seq<char> {
    wrap_struct_decl(m.vis, m.ident) + wrap_new_eval(m.name, m.ident) + (match m.clock {
        Some(c) => wrap_tick_fn(c.0, c.1),
        None => Seq::empty(),
    }) + wrap_ports_methods(m.name, m.ports) + "}\n"@ + wrap_drop_impl(m.name, m.ident)
        + wrap_link_head(m.name) + wrap_base_decls(m.name) + wrap_ports_decls(m.name, m.ports)
        + "}\n"@
}

/// Appends the generated value type.
fn append_wrap_struct(out: &mut String, vis: &str, id: &str)
    ensures
        final(out)@ == old(out)@ + wrap_struct_decl(vis@, id@),
{
    if !vis.is_empty() {
        out.append(vis);
        out.append(" ");
    }
    out.append("struct ");
    out.append(id);
    out.append(" {\n    dut: *");
    out.append("mut (),\n}\n");
    proof {
        assert(out@ =~= old(out)@ + wrap_struct_decl(vis@, id@));
    }
}

/// Appends the opening of the inherent block with constructor and `eval`.
fn append_wrap_new_eval(out: &mut String, m: &str, id: &str)
    ensures
        final(out)@ == old(out)@ + wrap_new_eval(m@, id@),
{
    out.append("impl ");
    out.append(id);
    out.append(" {\n");
    out.append("    fn new() -> Self {\n        let dut = ");
    out.append("uns");
    out.append("afe");
    out.append(" { ");
    out.append(m);
    out.append("_new() };\n        Self { dut }\n    }\n");
    out.append("    fn eval(&mut self) {\n        ");
    out.append("uns");
    out.append("afe");
    out.append(" { ");
    out.append(m);
    out.append("_eval(self.dut) };\n    }\n");
    proof {
        assert(out@ =~= old(out)@ + wrap_new_eval(m@, id@));
    }
}

/// Appends the synthesized `tick` method for the designated clock.
fn append_wrap_tick(out: &mut String, clk: &str, dt: &DataType)
    ensures
        final(out)@ == old(out)@ + wrap_tick_fn(clk@, *dt),
{
    let (hi, lo) = dt.true_false();
    out.append("    fn tick(&mut self) {\n        self.set_");
    out.append(clk);
    out.append("(");
    out.append(hi);
    out.append(");\n        self.eval();\n        self.set_");
    out.append(clk);
    out.append("(");
    out.append(lo);
    out.append(");\n        self.eval();\n    }\n");
    proof {
        assert(out@ =~= old(out)@ + wrap_tick_fn(clk@, *dt));
    }
}

/// Appends the `set` method of one port.
fn append_wrap_set_method(out: &mut String, m: &str, p: &str, t: &str)
    ensures
        final(out)@ == old(out)@ + wrap_set_method(m@, p@, t@),
{
    out.append("    fn set_");
    out.append(p);
    out.append("(&mut self, value: ");
    out.append(t);
    out.append(") {\n        ");
    out.append("uns");
    out.append("afe");
    out.append(" { ");
    out.append(m);
    out.append("_set_");
    out.append(p);
    out.append("(self.dut, value) };\n    }\n");
    proof {
        assert(out@ =~= old(out)@ + wrap_set_method(m@, p@, t@));
    }
}

/// Appends the `get` method of one port.
fn append_wrap_get_method(out: &mut String, m: &str, p: &str, t: &str)
    ensures
        final(out)@ == old(out)@ + wrap_get_method(m@, p@, t@),
{
    out.append("    fn get_");
    out.append(p);
    out.append("(&self) -> ");
    out.append(t);
    out.append(" {\n        ");
    out.append("uns");
    out.append("afe");
    out.append(" { ");
    out.append(m);
    out.append("_get_");
    out.append(p);
    out.append("(self.dut) }\n    }\n");
    proof {
        assert(out@ =~= old(out)@ + wrap_get_method(m@, p@, t@));
    }
}

/// Appends the teardown block.
fn append_wrap_drop(out: &mut String, m: &str, id: &str)
    ensures
        final(out)@ == old(out)@ + wrap_drop_impl(m@, id@),
{
    out.append("impl Drop for ");
    out.append(id);
    out.append(" {\n    fn drop(&mut self) {\n        ");
    out.append("uns");
    out.append("afe");
    out.append(" { ");
    out.append(m);
    out.append("_del(self.dut) };\n    }\n}\n");
    proof {
        assert(out@ =~= old(out)@ + wrap_drop_impl(m@, id@));
    }
}

/// Appends the link attribute and the opening of the foreign-function block
/// with its three base declarations.
fn append_wrap_abi_head(out: &mut String, m: &str)
    ensures
        final(out)@ == old(out)@ + (wrap_link_head(m@) + wrap_base_decls(m@)),
{
    out.append("#[link(name = \"V");
    out.append(m);
    out.append("\")]\n");
    out.append("ext");
    out.append("ern \"C\" {\n");
    out.append("    fn ");
    out.append(m);
    out.append("_new() -> *");
    out.append("mut ();\n");
    out.append("    fn ");
    out.append(m);
    out.append("_del(dut: *");
    out.append("mut ());\n");
    out.append("    fn ");
    out.append(m);
    out.append("_eval(dut: *");
    out.append("mut ());\n");
    proof {
        assert(out@ =~= old(out)@ + (wrap_link_head(m@) + wrap_base_decls(m@)));
    }
}

/// Appends the foreign declaration of one port's setter.
fn append_wrap_set_decl(out: &mut String, m: &str, p: &str, t: &str)
    ensures
        final(out)@ == old(out)@ + wrap_set_decl(m@, p@, t@),
{
    out.append("    fn ");
    out.append(m);
    out.append("_set_");
    out.append(p);
    out.append("(dut: *");
    out.append("mut (), value: ");
    out.append(t);
    out.append(");\n");
    proof {
        assert(out@ =~= old(out)@ + wrap_set_decl(m@, p@, t@));
    }
}

/// Appends the foreign declaration of one port's getter.
fn append_wrap_get_decl(out: &mut String, m: &str, p: &str, t: &str)
    ensures
        final(out)@ == old(out)@ + wrap_get_decl(m@, p@, t@),
{
    out.append("    fn ");
    out.append(m);
    out.append("_get_");
    out.append(p);
    out.append("(dut: *");
    out.append("mut ()) -> ");
    out.append(t);
    out.append(";\n");
    proof {
        assert(out@ =~= old(out)@ + wrap_get_decl(m@, p@, t@));
    }
}

/// Emits the host-language wrapper source for the module, character for
/// character as [`wrapper_text`] states.
#[verifier::loop_isolation(false)]
#[verifier::rlimit(100)]
pub fn wrapper_source(module: &Module) -> (r: String)
    ensures
        r@ == wrapper_text(module@),
{
    let ghost mv = module@;
    let name = module.name();
    let ident = module.ident();
    let ports_vec = module.ports();
    let ghost psv = mv.ports;
    let mut out = String::new();
    append_wrap_struct(&mut out, module.vis().as_str(), ident.as_str());
    append_wrap_new_eval(&mut out, name.as_str(), ident.as_str());
    match module.clock() {
        Some((clk, dt)) => {
            append_wrap_tick(&mut out, clk.as_str(), dt);
        },
        None => {},
    }
    let ghost head = wrap_struct_decl(mv.vis, mv.ident) + wrap_new_eval(mv.name, mv.ident) + (
    match mv.clock {
        Some(c) => wrap_tick_fn(c.0, c.1),
        None => Seq::<char>::empty(),
    });
    proof {
        assert(out@ =~= head);
        assert(psv.take(0) =~= Seq::<PortV>::empty());
        assert(out@ =~= head + wrap_ports_methods(mv.name, psv.take(0)));
        assert(psv.len() == ports_vec.len());
    }
    let n = ports_vec.len();
    let mut i: usize = 0;
    while i < n
        invariant
            i <= n,
            out@ == head + wrap_ports_methods(mv.name, psv.take(i as int)),
        decreases n - i,
    {
        let port = &ports_vec[i];
        proof {
            assert(psv[i as int] == port@);
        }
        let pname = port.name();
        let ghost pre = out@;
        if port.input() {
            let t = port.data_type().name();
            append_wrap_set_method(&mut out, name.as_str(), pname.as_str(), t.as_str());
        }
        if port.output() {
            let t = port.data_type().name();
            append_wrap_get_method(&mut out, name.as_str(), pname.as_str(), t.as_str());
        }
        proof {
            assert(out@ =~= pre + wrap_port_methods(mv.name, psv[i as int]));
            assert(psv.take(i as int + 1).drop_last() =~= psv.take(i as int));
            assert(psv.take(i as int + 1).last() == psv[i as int]);
            assert(out@ =~= head + wrap_ports_methods(mv.name, psv.take(i as int + 1)));
        }
        i = i + 1;
    }
    proof {
        assert(psv.take(n as int) =~= psv);
    }
    out.append("}\n");
    append_wrap_drop(&mut out, name.as_str(), ident.as_str());
    append_wrap_abi_head(&mut out, name.as_str());
    let ghost head2 = head + wrap_ports_methods(mv.name, psv) + "}\n"@ + wrap_drop_impl(
        mv.name,
        mv.ident,
    ) + wrap_link_head(mv.name) + wrap_base_decls(mv.name);
    proof {
        assert(out@ =~= head2);
        assert(out@ =~= head2 + wrap_ports_decls(mv.name, psv.take(0)));
    }
    let mut i: usize = 0;
    while i < n
        invariant
            i <= n,
            out@ == head2 + wrap_ports_decls(mv.name, psv.take(i as int)),
        decreases n - i,
    {
        let port = &ports_vec[i];
        proof {
            assert(psv[i as int] == port@);
        }
        let pname = port.name();
        let ghost pre = out@;
        if port.input() {
            let t = port.data_type().name();
            append_wrap_set_decl(&mut out, name.as_str(), pname.as_str(), t.as_str());
        }
        if port.output() {
            let t = port.data_type().name();
            append_wrap_get_decl(&mut out, name.as_str(), pname.as_str(), t.as_str());
        }
        proof {
            assert(out@ =~= pre + wrap_port_decls(mv.name, psv[i as int]));
            assert(psv.take(i as int + 1).drop_last() =~= psv.take(i as int));
            assert(psv.take(i as int + 1).last() == psv[i as int]);
            assert(out@ =~= head2 + wrap_ports_decls(mv.name, psv.take(i as int + 1)));
        }
        i = i + 1;
    }
    proof {
        assert(psv.take(n as int) =~= psv);
    }
    out.append("}\n");
    proof {
        assert(out@ =~= wrapper_text(mv));
    }
    out
}

/// What the whole attribute transform yields: the module name read from the
/// attribute arguments, extraction, then the generated wrapper source.
pub open spec fn spec_ferrilate_attribute(a: Seq<AttrTokenV>, s: StructV) -> Result<
    Seq<char>,
    ErrV,
> {
    match spec_module_name_from_attr(a) {
        Err(e) => Err(e),
        Ok(name) => match spec_from_struct(name, s) {
            Err(e) => Err(e),
            Ok(m) => Ok(wrapper_text(m)),
        },
    }
}

/// The whole attribute transform: reads the module name off the attribute
/// arguments, extracts the module, and generates the wrapper source.
pub fn ferrilate_attribute(attr: &Vec<AttrToken>, item: &StructDecl) -> (r: Result<String, Error>)
    ensures
        (match r {
            Ok(s) => spec_ferrilate_attribute(attr.deep_view(), item@) == Ok::<Seq<char>, ErrV>(
                s@,
            ),
            Err(e) => spec_ferrilate_attribute(attr.deep_view(), item@) == Err::<Seq<char>, ErrV>(
                e@,
            ),
        }),
{
    let module = match Module::from_attribute(attr, item) {
        Ok(m) => m,
        Err(e) => {
            return Err(e);
        },
    };
    Ok(wrapper_source(&module))
}

/// Each accessor the wrapper declares mirrors the symbol the shim exports,
/// character for character: the setter texts both carry `<m>_set_<p>` (after
/// `void ` in the shim, after the declaration head in the wrapper), and the
/// getter texts both carry `<m>_get_<p>`.  A name mismatch between the two
/// generated artifacts would only surface at link time; this pins the names
/// to one another at the source.
pub proof fn lemma_wrapper_mirrors_shim_symbols(m: Seq<char>, p: Seq<char>, c: Seq<char>, t: Seq<char>)
    ensures
        crate::shim::shim_set_fn(m, p, c).subrange(5, (10 + m.len() + p.len()) as int) == m
            + "_set_"@ + p,
        wrap_set_decl(m, p, t).subrange(7, (12 + m.len() + p.len()) as int) == m + "_set_"@ + p,
        crate::shim::shim_get_fn(m, p, c).subrange(
            (c.len() + 1) as int,
            (c.len() + 6 + m.len() + p.len()) as int,
        ) == m + "_get_"@ + p,
        wrap_get_decl(m, p, t).subrange(7, (12 + m.len() + p.len()) as int) == m + "_get_"@ + p,
{
    reveal_strlit("void ");
    reveal_strlit("_set_");
    reveal_strlit("_get_");
    reveal_strlit("    fn ");
    reveal_strlit(" ");
    assert("void "@.len() == 5);
    assert("_set_"@.len() == 5);
    assert("_get_"@.len() == 5);
    assert("    fn "@.len() == 7);
    assert(" "@.len() == 1);
    assert(crate::shim::shim_set_fn(m, p, c).subrange(5, (10 + m.len() + p.len()) as int) =~= m
        + "_set_"@ + p);
    assert(wrap_set_decl(m, p, t).subrange(7, (12 + m.len() + p.len()) as int) =~= m + "_set_"@
        + p);
    assert(crate::shim::shim_get_fn(m, p, c).subrange(
        (c.len() + 1) as int,
        (c.len() + 6 + m.len() + p.len()) as int,
    ) =~= m + "_get_"@ + p);
    assert(wrap_get_decl(m, p, t).subrange(7, (12 + m.len() + p.len()) as int) =~= m + "_get_"@
        + p);
}

/// Boolean and the 8-bit unsigned integer map to one and the same native
/// shim width, yet keep distinct canonical names.
pub proof fn lemma_bool_u8_same_shim_width()
    ensures
        DataType::Bool.spec_c_name() == DataType::U8.spec_c_name(),
        DataType::Bool.spec_name() != DataType::U8.spec_name(),
{
    reveal_strlit("bool");
    reveal_strlit("u8");
    assert("bool"@.len() == 4);
    assert("u8"@.len() == 2);
}

/// In the shim, a boolean port and an 8-bit unsigned port of the same name
/// produce the very same setter; in the wrapper, their methods stay
/// distinct, typed `bool` against `u8`.
pub proof fn lemma_wrapper_keeps_bool_u8_distinct(m: Seq<char>, p: Seq<char>)
    ensures
        crate::shim::shim_set_fn(m, p, DataType::Bool.spec_c_name()) == crate::shim::shim_set_fn(
            m,
            p,
            DataType::U8.spec_c_name(),
        ),
        crate::shim::shim_get_fn(m, p, DataType::Bool.spec_c_name()) == crate::shim::shim_get_fn(
            m,
            p,
            DataType::U8.spec_c_name(),
        ),
        wrap_set_method(m, p, DataType::Bool.spec_name()) != wrap_set_method(
            m,
            p,
            DataType::U8.spec_name(),
        ),
        wrap_get_method(m, p, DataType::Bool.spec_name()) != wrap_get_method(
            m,
            p,
            DataType::U8.spec_name(),
        ),
{
    lemma_bool_u8_same_shim_width();
    reveal_strlit("bool");
    reveal_strlit("u8");
    assert("bool"@.len() == 4);
    assert("u8"@.len() == 2);
    assert(wrap_set_method(m, p, DataType::Bool.spec_name()).len() != wrap_set_method(
        m,
        p,
        DataType::U8.spec_name(),
    ).len());
    assert(wrap_get_method(m, p, DataType::Bool.spec_name()).len() != wrap_get_method(
        m,
        p,
        DataType::U8.spec_name(),
    ).len());
}

} // verus!
