//! The interface extractor: from an annotated structure declaration to a
//! [`Module`].
//!
//! The input is a plain record of what the extractor reads off a structure
//! declaration: the declared visibility, the identifier, the attributes on
//! the structure itself, and the field list in source order, each field with
//! its visibility, optional name, type token and marker set.  Extraction is a
//! pure transform: no side effects, and the same declaration always yields
//! the same module.

use vstd::prelude::*;

use crate::err::Error;
use crate::err::ErrV;
use crate::model::DataType;
use crate::model::Module;
use crate::model::ModuleV;
use crate::model::Port;
use crate::model::PortV;
use crate::model::clock_v;
use crate::model::type_err_msg;
use crate::text::str_eq;

verus! {

/// The mathematical value of an [`AttrToken`].
pub struct AttrTokenV {
    pub is_ident: bool,
    pub text: Seq<char>,
}

/// One token of an attribute's argument list: whether it is a bare
/// identifier, and its text.
#[derive(Debug, PartialEq)]
pub struct AttrToken {
    pub is_ident: bool,
    pub text: String,
}

impl View for AttrToken {
    type V = AttrTokenV;

    open spec fn view(&self) -> AttrTokenV {
        AttrTokenV { is_ident: self.is_ident, text: self.text@ }
    }
}

impl DeepView for AttrToken {
    type V = AttrTokenV;

    open spec fn deep_view(&self) -> AttrTokenV {
        self.view()
    }
}

/// The mathematical value of an [`AttrDecl`].
pub struct AttrV {
    pub is_list: bool,
    pub name: Seq<char>,
    pub tokens: Seq<char>,
}

/// One attribute on the structure declaration: whether it carries an
/// argument list, the last segment of its path, and the text of its
/// arguments.
#[derive(Debug, PartialEq)]
pub struct AttrDecl {
    pub is_list: bool,
    pub name: String,
    pub tokens: String,
}

impl View for AttrDecl {
    type V = AttrV;

    open spec fn view(&self) -> AttrV {
        AttrV { is_list: self.is_list, name: self.name@, tokens: self.tokens@ }
    }
}

impl DeepView for AttrDecl {
    type V = AttrV;

    open spec fn deep_view(&self) -> AttrV {
        self.view()
    }
}

/// The mathematical value of a [`FieldDecl`].
pub struct FieldV {
    pub vis: Seq<char>,
    pub name: Option<Seq<char>>,
    pub ty: Seq<char>,
    pub markers: Seq<Seq<char>>,
}

/// One field of the structure declaration: the text of its visibility
/// qualifier (empty when none is written), its optional name, its type
/// token, and the bare-path markers applied to it, in source order.
#[derive(Debug, PartialEq)]
pub struct FieldDecl {
    pub vis: String,
    pub name: Option<String>,
    pub ty: String,
    pub markers: Vec<String>,
}

impl View for FieldDecl {
    type V = FieldV;

    open spec fn view(&self) -> FieldV {
        FieldV {
            vis: self.vis@,
            name: match self.name {
                Some(n) => Some(n@),
                None => None,
            },
            ty: self.ty@,
            markers: self.markers.deep_view(),
        }
    }
}

impl DeepView for FieldDecl {
    type V = FieldV;

    open spec fn deep_view(&self) -> FieldV {
        self.view()
    }
}

/// The mathematical value of a [`StructDecl`].
pub struct StructV {
    pub vis: Seq<char>,
    pub ident: Seq<char>,
    pub attrs: Seq<AttrV>,
    pub fields: Seq<FieldV>,
}

/// A structure declaration, reduced to what extraction reads: declared
/// visibility, identifier, the attributes on the structure, and the fields
/// in source order.
#[derive(Debug, PartialEq)]
pub struct StructDecl {
    pub vis: String,
    pub ident: String,
    pub attrs: Vec<AttrDecl>,
    pub fields: Vec<FieldDecl>,
}

impl View for StructDecl {
    type V = StructV;

    open spec fn view(&self) -> StructV {
        StructV {
            vis: self.vis@,
            ident: self.ident@,
            attrs: self.attrs.deep_view(),
            fields: self.fields.deep_view(),
        }
    }
}

/// The direction-and-clock state accumulated while scanning one field's
/// markers.
pub struct ScanV {
    pub input: bool,
    pub output: bool,
    pub clock: Option<(Seq<char>, DataType)>,
}

/// What scanning one field's markers yields.  `input`, `output` and `clock`
/// accumulate; a `clock` marker on a field while another field (or the same
/// one) already holds the designation is a conflict naming both.
/// Unrecognized markers are ignored.
pub open spec fn scan_markers(
    ms: Seq<Seq<char>>,
    fname: Seq<char>,
    dt: DataType,
    acc: ScanV,
) -> Result<ScanV, ErrV>
    decreases ms.len(),
{
    if ms.len() == 0 {
        Ok(acc)
    } else if ms[0] == "input"@ {
        scan_markers(ms.drop_first(), fname, dt, ScanV { input: true, ..acc })
    } else if ms[0] == "output"@ {
        scan_markers(ms.drop_first(), fname, dt, ScanV { output: true, ..acc })
    } else if ms[0] == "clock"@ {
        match acc.clock {
            Some(prev) => Err(ErrV::Conflict(prev.0, fname)),
            None => scan_markers(
                ms.drop_first(),
                fname,
                dt,
                ScanV { clock: Some((fname, dt)), ..acc },
            ),
        }
    } else {
        scan_markers(ms.drop_first(), fname, dt, acc)
    }
}

/// What extracting one field yields: its port, and the clock designation
/// after the field.  Each check is a hard failure: the field must be
/// private, named, and of a supported scalar type.
pub open spec fn extract_field(f: FieldV, clock: Option<(Seq<char>, DataType)>) -> Result<
    (PortV, Option<(Seq<char>, DataType)>),
    ErrV,
> {
    if f.vis.len() != 0 {
        Err(ErrV::Input("fields must be private"@))
    } else {
        match f.name {
            None => Err(ErrV::Input("fields must be named"@)),
            Some(fname) => match DataType::spec_parse(f.ty) {
                None => Err(ErrV::Type(type_err_msg(f.ty))),
                Some(dt) => match scan_markers(
                    f.markers,
                    fname,
                    dt,
                    ScanV { input: false, output: false, clock },
                ) {
                    Err(e) => Err(e),
                    Ok(sc) => Ok(
                        (
                            PortV { name: fname, data_type: dt, input: sc.input, output: sc.output },
                            sc.clock,
                        ),
                    ),
                },
            },
        }
    }
}

/// The ports and clock designation accumulated over a field list.
pub struct ExtractedV {
    pub ports: Seq<PortV>,
    pub clock: Option<(Seq<char>, DataType)>,
}

/// What extracting a field list yields: one port per field, in order, and
/// the final clock designation; or the first failure.
pub open spec fn extract_fields(
    fs: Seq<FieldV>,
    ports: Seq<PortV>,
    clock: Option<(Seq<char>, DataType)>,
) -> Result<ExtractedV, ErrV>
    decreases fs.len(),
{
    if fs.len() == 0 {
        Ok(ExtractedV { ports, clock })
    } else {
        match extract_field(fs[0], clock) {
            Err(e) => Err(e),
            Ok(pc) => extract_fields(fs.drop_first(), ports.push(pc.0), pc.1),
        }
    }
}

/// What extraction of a whole declaration yields, given the target module
/// name.
pub open spec fn spec_from_struct(name: Seq<char>, s: StructV) -> Result<ModuleV, ErrV> {
    match extract_fields(s.fields, Seq::<PortV>::empty(), None) {
        Err(e) => Err(e),
        Ok(ex) => Ok(
            ModuleV {
                name,
                vis: s.vis,
                ident: s.ident,
                clock: ex.clock,
                ports: ex.ports,
            },
        ),
    }
}

/// The module name carried by the structure's attributes: the argument text
/// of the first list attribute whose path ends in `ferrilate`.
pub open spec fn spec_read_module_name(attrs: Seq<AttrV>, ident: Seq<char>) -> Result<
    Seq<char>,
    ErrV,
>
    decreases attrs.len(),
{
    if attrs.len() == 0 {
        Err(ErrV::Input("struct "@ + ident + " has no 'ferrilate' attribute"@))
    } else if attrs[0].is_list && attrs[0].name == "ferrilate"@ {
        Ok(attrs[0].tokens)
    } else {
        spec_read_module_name(attrs.drop_first(), ident)
    }
}

/// The module name given as attribute arguments: exactly one identifier.
pub open spec fn spec_module_name_from_attr(ts: Seq<AttrTokenV>) -> Result<Seq<char>, ErrV> {
    if ts.len() == 0 {
        Err(ErrV::Input("expected module name, found nothing"@))
    } else if !ts[0].is_ident {
        Err(ErrV::Input("expected module name, found "@ + ts[0].text))
    } else if ts.len() > 1 {
        Err(ErrV::Input("unexpected attr value: "@ + ts[1].text))
    } else {
        Ok(ts[0].text)
    }
}

/// One entry, carrying the field's name, for each `clock` marker among `ms`,
/// in order.  The branch chain mirrors the marker scan.
pub open spec fn clock_marks_in_markers(ms: Seq<Seq<char>>, fname: Seq<char>) -> Seq<Seq<char>>
    decreases ms.len(),
{
    if ms.len() == 0 {
        Seq::empty()
    } else if ms[0] == "input"@ {
        clock_marks_in_markers(ms.drop_first(), fname)
    } else if ms[0] == "output"@ {
        clock_marks_in_markers(ms.drop_first(), fname)
    } else if ms[0] == "clock"@ {
        seq![fname] + clock_marks_in_markers(ms.drop_first(), fname)
    } else {
        clock_marks_in_markers(ms.drop_first(), fname)
    }
}

/// One entry, carrying the field's name, for each `clock` marker in the
/// whole field list, in declaration order.
pub open spec fn clock_marks(fs: Seq<FieldV>) -> Seq<Seq<char>>
    decreases fs.len(),
{
    if fs.len() == 0 {
        Seq::empty()
    } else {
        clock_marks_in_markers(fs[0].markers, fs[0].name->0) + clock_marks(fs.drop_first())
    }
}

/// Every entry of [`clock_marks_in_markers`] is the field's name.
proof fn lemma_clock_marks_const(ms: Seq<Seq<char>>, fname: Seq<char>)
    ensures
        forall|k: int|
            0 <= k < clock_marks_in_markers(ms, fname).len() ==> #[trigger] clock_marks_in_markers(
                ms,
                fname,
            )[k] == fname,
    decreases ms.len(),
{
    if ms.len() == 0 {
    } else {
        lemma_clock_marks_const(ms.drop_first(), fname);
        let rest = clock_marks_in_markers(ms.drop_first(), fname);
        let whole = clock_marks_in_markers(ms, fname);
        assert forall|k: int| 0 <= k < whole.len() implies whole[k] == fname by {
            if whole == seq![fname] + rest {
                if k == 0 {
                    assert(whole[0] == fname);
                } else {
                    assert(whole[k] == rest[k - 1]);
                }
            } else {
                assert(whole == rest);
                assert(whole[k] == rest[k]);
            }
        }
    }
}

/// A nonempty sequence holds an element exactly when its head is that
/// element or its tail holds it.
proof fn lemma_contains_unfold(s: Seq<Seq<char>>, x: Seq<char>)
    requires
        s.len() > 0,
    ensures
        s.contains(x) == (s[0] == x || s.drop_first().contains(x)),
{
    if s.drop_first().contains(x) {
        let j = choose|j: int| 0 <= j < s.drop_first().len() && s.drop_first()[j] == x;
        assert(s[j + 1] == x);
    }
    if s.contains(x) && s[0] != x {
        let j = choose|j: int| 0 <= j < s.len() && s[j] == x;
        assert(s.drop_first()[j - 1] == x);
    }
}

/// A successful marker scan sets each direction exactly when the marker
/// occurs, and touches the clock designation only through a `clock` marker
/// naming this field.
proof fn lemma_scan_markers_directions(ms: Seq<Seq<char>>, fname: Seq<char>, dt: DataType, acc: ScanV)
    ensures
        (scan_markers(ms, fname, dt, acc) matches Ok(sc) ==> {
            &&& sc.input == (acc.input || ms.contains("input"@))
            &&& sc.output == (acc.output || ms.contains("output"@))
            &&& (sc.clock == acc.clock || (sc.clock == Some((fname, dt)) && ms.contains(
                "clock"@,
            )))
        }),
    decreases ms.len(),
{
    reveal_strlit("input");
    reveal_strlit("output");
    reveal_strlit("clock");
    assert("input"@.len() == 5);
    assert("output"@.len() == 6);
    assert("clock"@.len() == 5);
    assert("input"@[0] == 'i');
    assert("clock"@[0] == 'c');
    assert("input"@ != "output"@);
    assert("input"@ != "clock"@);
    assert("output"@ != "clock"@);
    if ms.len() == 0 {
        assert(!ms.contains("input"@));
        assert(!ms.contains("output"@));
    } else {
        lemma_contains_unfold(ms, "input"@);
        lemma_contains_unfold(ms, "output"@);
        lemma_contains_unfold(ms, "clock"@);
        if ms[0] == "input"@ {
            lemma_scan_markers_directions(ms.drop_first(), fname, dt, ScanV { input: true, ..acc });
        } else if ms[0] == "output"@ {
            lemma_scan_markers_directions(
                ms.drop_first(),
                fname,
                dt,
                ScanV { output: true, ..acc },
            );
        } else if ms[0] == "clock"@ {
            match acc.clock {
                Some(_) => {},
                None => {
                    lemma_scan_markers_directions(
                        ms.drop_first(),
                        fname,
                        dt,
                        ScanV { clock: Some((fname, dt)), ..acc },
                    );
                },
            }
        } else {
            lemma_scan_markers_directions(ms.drop_first(), fname, dt, acc);
        }
    }
}

/// How the marker scan treats the clock designation, stated over the number
/// of `clock` markers: none leaves the designation as it was; the first
/// takes it when it is free; any further occurrence, or one arriving while
/// another field holds it, is a conflict naming the holder and this field.
proof fn lemma_scan_markers_clock(ms: Seq<Seq<char>>, fname: Seq<char>, dt: DataType, acc: ScanV)
    ensures
        ({
            let occ = clock_marks_in_markers(ms, fname);
            let r = scan_markers(ms, fname, dt, acc);
            &&& (acc.clock is None && occ.len() == 0 ==> r is Ok && r->Ok_0.clock is None)
            &&& (acc.clock is None && occ.len() == 1 ==> r is Ok && r->Ok_0.clock == Some(
                (fname, dt),
            ))
            &&& (acc.clock is None && occ.len() >= 2 ==> r == Err::<ScanV, ErrV>(
                ErrV::Conflict(fname, fname),
            ))
            &&& (acc.clock is Some && occ.len() == 0 ==> r is Ok && r->Ok_0.clock == acc.clock)
            &&& (acc.clock is Some && occ.len() >= 1 ==> r == Err::<ScanV, ErrV>(
                ErrV::Conflict((acc.clock->0).0, fname),
            ))
        }),
    decreases ms.len(),
{
    if ms.len() == 0 {
    } else if ms[0] == "input"@ {
        lemma_scan_markers_clock(ms.drop_first(), fname, dt, ScanV { input: true, ..acc });
    } else if ms[0] == "output"@ {
        lemma_scan_markers_clock(ms.drop_first(), fname, dt, ScanV { output: true, ..acc });
    } else if ms[0] == "clock"@ {
        match acc.clock {
            Some(_) => {},
            None => {
                lemma_scan_markers_clock(
                    ms.drop_first(),
                    fname,
                    dt,
                    ScanV { clock: Some((fname, dt)), ..acc },
                );
            },
        }
    } else {
        lemma_scan_markers_clock(ms.drop_first(), fname, dt, acc);
    }
}

/// How extraction treats the clock designation over a whole field list of
/// acceptable shape, stated over the list of `clock` marker occurrences.
proof fn lemma_extract_fields_clock(
    fs: Seq<FieldV>,
    ports: Seq<PortV>,
    clock: Option<(Seq<char>, DataType)>,
)
    requires
        forall|k: int|
            0 <= k < fs.len() ==> (#[trigger] fs[k]).vis.len() == 0 && fs[k].name is Some
                && DataType::spec_parse(fs[k].ty) is Some,
    ensures
        ({
            let occ = clock_marks(fs);
            let r = extract_fields(fs, ports, clock);
            &&& (clock is None && occ.len() == 0 ==> r is Ok && r->Ok_0.clock is None)
            &&& (clock is None && occ.len() == 1 ==> r is Ok && r->Ok_0.clock is Some
                && (r->Ok_0.clock->0).0 == occ[0])
            &&& (clock is None && occ.len() >= 2 ==> r == Err::<ExtractedV, ErrV>(
                ErrV::Conflict(occ[0], occ[1]),
            ))
            &&& (clock is Some && occ.len() == 0 ==> r is Ok && r->Ok_0.clock == clock)
            &&& (clock is Some && occ.len() >= 1 ==> r == Err::<ExtractedV, ErrV>(
                ErrV::Conflict((clock->0).0, occ[0]),
            ))
        }),
    decreases fs.len(),
{
    if fs.len() == 0 {
    } else {
        let f = fs[0];
        let fname = f.name->0;
        let dt = DataType::spec_parse(f.ty)->0;
        let occ0 = clock_marks_in_markers(f.markers, fname);
        let occrest = clock_marks(fs.drop_first());
        let occ = clock_marks(fs);
        assert(occ == occ0 + occrest);
        lemma_clock_marks_const(f.markers, fname);
        lemma_scan_markers_clock(
            f.markers,
            fname,
            dt,
            ScanV { input: false, output: false, clock },
        );
        let step = extract_field(f, clock);
        match clock {
            None => {
                if occ0.len() == 0 {
                    assert(occ =~= occrest);
                    let sc = scan_markers(
                        f.markers,
                        fname,
                        dt,
                        ScanV { input: false, output: false, clock },
                    )->Ok_0;
                    lemma_extract_fields_clock(fs.drop_first(), ports.push(step->Ok_0.0), None);
                } else if occ0.len() == 1 {
                    let sc = scan_markers(
                        f.markers,
                        fname,
                        dt,
                        ScanV { input: false, output: false, clock },
                    )->Ok_0;
                    assert(sc.clock == Some((fname, dt)));
                    assert(occ[0] == occ0[0]);
                    assert(occ0[0] == fname);
                    lemma_extract_fields_clock(
                        fs.drop_first(),
                        ports.push(step->Ok_0.0),
                        Some((fname, dt)),
                    );
                    if occrest.len() >= 1 {
                        assert(occ[1] == occrest[0]);
                    }
                } else {
                    assert(occ[0] == occ0[0] && occ[1] == occ0[1]);
                    assert(occ0[0] == fname && occ0[1] == fname);
                }
            },
            Some(prev) => {
                if occ0.len() == 0 {
                    assert(occ =~= occrest);
                    lemma_extract_fields_clock(fs.drop_first(), ports.push(step->Ok_0.0), clock);
                } else {
                    assert(occ[0] == occ0[0]);
                    assert(occ0[0] == fname);
                }
            },
        }
    }
}

/// A successful extraction carries, for each starting port and each field,
/// the corresponding port unchanged or freshly built: one port per field, in
/// declaration order, named after the field, typed by the resolved token;
/// and every field was private, named and of a supported type.
proof fn lemma_extract_fields_shape(
    fs: Seq<FieldV>,
    ports: Seq<PortV>,
    clock: Option<(Seq<char>, DataType)>,
)
    requires
        extract_fields(fs, ports, clock) is Ok,
    ensures
        ({
            let res = extract_fields(fs, ports, clock)->Ok_0;
            &&& res.ports.len() == ports.len() + fs.len()
            &&& (forall|k: int| 0 <= k < ports.len() ==> res.ports[k] == ports[k])
            &&& (forall|k: int|
                0 <= k < fs.len() ==> {
                    &&& (#[trigger] fs[k]).vis.len() == 0
                    &&& fs[k].name is Some
                    &&& DataType::spec_parse(fs[k].ty) is Some
                    &&& res.ports[ports.len() + k].name == fs[k].name->0
                    &&& res.ports[ports.len() + k].data_type == DataType::spec_parse(fs[k].ty)->0
                    &&& res.ports[ports.len() + k].input == fs[k].markers.contains("input"@)
                    &&& res.ports[ports.len() + k].output == fs[k].markers.contains("output"@)
                })
        }),
    decreases fs.len(),
{
    if fs.len() == 0 {
    } else {
        let step = extract_field(fs[0], clock);
        assert(step is Ok);
        let pc = step->Ok_0;
        lemma_scan_markers_directions(
            fs[0].markers,
            fs[0].name->0,
            DataType::spec_parse(fs[0].ty)->0,
            ScanV { input: false, output: false, clock },
        );
        lemma_extract_fields_shape(fs.drop_first(), ports.push(pc.0), pc.1);
        assert(extract_fields(fs, ports, clock) == extract_fields(
            fs.drop_first(),
            ports.push(pc.0),
            pc.1,
        ));
        let res = extract_fields(fs, ports, clock)->Ok_0;
        assert(res.ports.len() == ports.len() + fs.len());
        assert forall|k: int| 0 <= k < ports.len() implies res.ports[k] == ports[k] by {
            assert(res.ports[k] == ports.push(pc.0)[k]);
        }
        assert forall|k: int| 0 <= k < fs.len() implies {
            &&& (#[trigger] fs[k]).vis.len() == 0
            &&& fs[k].name is Some
            &&& DataType::spec_parse(fs[k].ty) is Some
            &&& res.ports[ports.len() + k].name == fs[k].name->0
            &&& res.ports[ports.len() + k].data_type == DataType::spec_parse(fs[k].ty)->0
            &&& res.ports[ports.len() + k].input == fs[k].markers.contains("input"@)
            &&& res.ports[ports.len() + k].output == fs[k].markers.contains("output"@)
        } by {
            if k == 0 {
                assert(res.ports[ports.len() as int] == ports.push(pc.0)[ports.len() as int]);
                assert(ports.push(pc.0)[ports.len() as int] == pc.0);
                assert(pc.0.input == fs[0].markers.contains("input"@));
                assert(pc.0.output == fs[0].markers.contains("output"@));
            } else {
                assert(fs.drop_first()[k - 1] == fs[k]);
            }
        }
    }
}

/// Extraction is deterministic and order-preserving: a successful extraction
/// yields exactly one port per declared field, in declaration order, each
/// port carrying its field's name and resolved type, its direction set
/// exactly as marked, and the module carries the given name and the
/// declaration's visibility and identifier.
pub proof fn lemma_extraction_order_preserving(name: Seq<char>, s: StructV)
    requires
        spec_from_struct(name, s) is Ok,
    ensures
        ({
            let m = spec_from_struct(name, s)->Ok_0;
            &&& m.ports.len() == s.fields.len()
            &&& (forall|k: int|
                0 <= k < s.fields.len() ==> {
                    &&& (#[trigger] m.ports[k]).name == s.fields[k].name->0
                    &&& m.ports[k].data_type == DataType::spec_parse(s.fields[k].ty)->0
                    &&& m.ports[k].input == s.fields[k].markers.contains("input"@)
                    &&& m.ports[k].output == s.fields[k].markers.contains("output"@)
                })
            &&& m.name == name
            &&& m.vis == s.vis
            &&& m.ident == s.ident
        }),
{
    lemma_extract_fields_shape(s.fields, Seq::<PortV>::empty(), None);
}

/// The clock designation a successful extraction carries is either the one
/// it started with or comes from a clock-marked field, with that field's
/// name and resolved type.
proof fn lemma_clock_origin(
    fs: Seq<FieldV>,
    ports: Seq<PortV>,
    clock: Option<(Seq<char>, DataType)>,
)
    requires
        extract_fields(fs, ports, clock) is Ok,
    ensures
        ({
            let cl = extract_fields(fs, ports, clock)->Ok_0.clock;
            cl is Some ==> (cl == clock || exists|k: int|
                0 <= k < fs.len() && (#[trigger] fs[k]).name == Some((cl->0).0)
                    && DataType::spec_parse(fs[k].ty) == Some((cl->0).1)
                    && fs[k].markers.contains("clock"@))
        }),
    decreases fs.len(),
{
    if fs.len() == 0 {
    } else {
        let step = extract_field(fs[0], clock);
        let pc = step->Ok_0;
        lemma_scan_markers_directions(
            fs[0].markers,
            fs[0].name->0,
            DataType::spec_parse(fs[0].ty)->0,
            ScanV { input: false, output: false, clock },
        );
        lemma_clock_origin(fs.drop_first(), ports.push(pc.0), pc.1);
        let cl = extract_fields(fs, ports, clock)->Ok_0.clock;
        if cl is Some && cl != clock {
            if cl == pc.1 {
                assert(pc.1 != clock);
                assert(fs[0].name == Some((cl->0).0) && DataType::spec_parse(fs[0].ty) == Some(
                    (cl->0).1,
                ) && fs[0].markers.contains("clock"@));
            } else {
                let rest = fs.drop_first();
                let k = choose|k: int|
                    0 <= k < rest.len() && (#[trigger] rest[k]).name == Some((cl->0).0)
                        && DataType::spec_parse(rest[k].ty) == Some((cl->0).1)
                        && rest[k].markers.contains("clock"@);
                assert(fs[k + 1] == rest[k]);
            }
        }
    }
}

/// A module extracted from a declaration whose field names are unique, and
/// whose clock-marked fields are also input-marked, satisfies the data
/// model's invariants: port names are unique, at most one port is
/// designated clock (by construction), and the designated clock names an
/// input-capable port of its own type.
pub proof fn lemma_extraction_well_formed(name: Seq<char>, s: StructV)
    requires
        spec_from_struct(name, s) is Ok,
        forall|i: int, j: int|
            0 <= i < j < s.fields.len() ==> (#[trigger] s.fields[i]).name != (
            #[trigger] s.fields[j]).name,
        forall|k: int|
            0 <= k < s.fields.len() && (#[trigger] s.fields[k]).markers.contains("clock"@)
                ==> s.fields[k].markers.contains("input"@),
    ensures
        spec_from_struct(name, s)->Ok_0.wf(),
{
    lemma_extract_fields_shape(s.fields, Seq::<PortV>::empty(), None);
    lemma_clock_origin(s.fields, Seq::<PortV>::empty(), None);
    let m = spec_from_struct(name, s)->Ok_0;
    assert forall|i: int, j: int| 0 <= i < j < m.ports.len() implies m.ports[i].name
        != m.ports[j].name by {
        assert(m.ports[i].name == s.fields[i].name->0);
        assert(m.ports[j].name == s.fields[j].name->0);
        assert(s.fields[i].name != s.fields[j].name);
        assert(s.fields[i].name is Some && s.fields[j].name is Some);
    }
    match m.clock {
        Some(c) => {
            let k = choose|k: int|
                0 <= k < s.fields.len() && (#[trigger] s.fields[k]).name == Some(c.0)
                    && DataType::spec_parse(s.fields[k].ty) == Some(c.1)
                    && s.fields[k].markers.contains("clock"@);
            assert(m.ports[k].name == c.0);
            assert(m.ports[k].data_type == c.1);
            assert(s.fields[k].markers.contains("input"@));
            assert(m.ports[k].input);
            assert(0 <= k < m.ports.len() && (#[trigger] m.ports[k]).name == c.0
                && m.ports[k].data_type == c.1 && m.ports[k].input);
        },
        None => {},
    }
}

/// A field with non-private visibility, an unnamed field, or a field whose
/// type token is outside the supported table fails extraction.
pub proof fn lemma_field_shape_rejected(name: Seq<char>, s: StructV, k: int)
    requires
        0 <= k < s.fields.len(),
        s.fields[k].vis.len() != 0 || s.fields[k].name is None || DataType::spec_parse(
            s.fields[k].ty,
        ) is None,
    ensures
        spec_from_struct(name, s) is Err,
{
    if spec_from_struct(name, s) is Ok {
        lemma_extract_fields_shape(s.fields, Seq::<PortV>::empty(), None);
    }
}

/// Two fields both designated clock make extraction fail with a conflict
/// naming both fields, in declaration order; this is the only failure once
/// every field is private, named and of a supported type.
pub proof fn lemma_clock_conflict(name: Seq<char>, s: StructV)
    requires
        forall|k: int|
            0 <= k < s.fields.len() ==> (#[trigger] s.fields[k]).vis.len() == 0
                && s.fields[k].name is Some && DataType::spec_parse(s.fields[k].ty) is Some,
        clock_marks(s.fields).len() >= 2,
    ensures
        spec_from_struct(name, s) == Err::<ModuleV, ErrV>(
            ErrV::Conflict(clock_marks(s.fields)[0], clock_marks(s.fields)[1]),
        ),
{
    lemma_extract_fields_clock(s.fields, Seq::<PortV>::empty(), None);
}

/// With exactly one clock-designated field, extraction succeeds and the
/// clock resolves to that field's name; with none, no clock is designated.
pub proof fn lemma_clock_resolution(name: Seq<char>, s: StructV)
    requires
        forall|k: int|
            0 <= k < s.fields.len() ==> (#[trigger] s.fields[k]).vis.len() == 0
                && s.fields[k].name is Some && DataType::spec_parse(s.fields[k].ty) is Some,
        clock_marks(s.fields).len() <= 1,
    ensures
        spec_from_struct(name, s) is Ok,
        clock_marks(s.fields).len() == 0 ==> spec_from_struct(name, s)->Ok_0.clock is None,
        clock_marks(s.fields).len() == 1 ==> spec_from_struct(name, s)->Ok_0.clock is Some
            && (spec_from_struct(name, s)->Ok_0.clock->0).0 == clock_marks(s.fields)[0],
{
    lemma_extract_fields_clock(s.fields, Seq::<PortV>::empty(), None);
}

/// Reads the module name off the structure's own attributes (the first list
/// attribute whose path ends in `ferrilate`); failing that, rejects the
/// declaration naming its identifier.
pub fn read_module_name(defn: &StructDecl) -> (r: Result<String, Error>)
    ensures
        (match r {
            Ok(n) => spec_read_module_name(defn@.attrs, defn@.ident) == Ok::<Seq<char>, ErrV>(n@),
            Err(e) => spec_read_module_name(defn@.attrs, defn@.ident) == Err::<Seq<char>, ErrV>(
                e@,
            ),
        }),
{
    let ghost attrs = defn@.attrs;
    let n = defn.attrs.len();
    let mut i: usize = 0;
    proof {
        assert(attrs.skip(0) =~= attrs);
    }
    while i < n
        invariant
            n == defn.attrs.len(),
            attrs == defn@.attrs,
            i <= n,
            spec_read_module_name(attrs, defn@.ident) == spec_read_module_name(
                attrs.skip(i as int),
                defn@.ident,
            ),
        decreases n - i,
    {
        let attr = &defn.attrs[i];
        proof {
            assert(attrs.skip(i as int)[0] == attrs[i as int]);
            assert(attrs.skip(i as int).drop_first() =~= attrs.skip(i as int + 1));
        }
        if attr.is_list && str_eq(attr.name.as_str(), "ferrilate") {
            return Ok(attr.tokens.clone());
        }
        i = i + 1;
    }
    proof {
        assert(attrs.skip(n as int) =~= Seq::<AttrV>::empty());
    }
    let mut m = String::from_str("struct ");
    m.append(defn.ident.as_str());
    m.append(" has no 'ferrilate' attribute");
    Err(Error::Input(m))
}

/// Reads the module name out of attribute arguments: exactly one identifier
/// token is accepted.
pub fn module_name_from_attr(ts: &Vec<AttrToken>) -> (r: Result<String, Error>)
    ensures
        (match r {
            Ok(n) => spec_module_name_from_attr(ts.deep_view()) == Ok::<Seq<char>, ErrV>(n@),
            Err(e) => spec_module_name_from_attr(ts.deep_view()) == Err::<Seq<char>, ErrV>(e@),
        }),
{
    if ts.len() == 0 {
        return Err(Error::Input(String::from_str("expected module name, found nothing")));
    }
    let first = &ts[0];
    if !first.is_ident {
        let mut m = String::from_str("expected module name, found ");
        m.append(first.text.as_str());
        return Err(Error::Input(m));
    }
    if ts.len() > 1 {
        let mut m = String::from_str("unexpected attr value: ");
        m.append(ts[1].text.as_str());
        return Err(Error::Input(m));
    }
    Ok(first.text.clone())
}

impl Module {
    /// Extracts a module from a structure declaration, given the target
    /// module name.  Ports come out in declaration order; the clock resolves
    /// to the marked field's name and type.  A pure transform.
    #[verifier::loop_isolation(false)]
    pub fn from_struct(name: String, defn: &StructDecl) -> (r: Result<Module, Error>)
        ensures
            (match r {
                Ok(m) => spec_from_struct(name@, defn@) == Ok::<ModuleV, ErrV>(m@),
                Err(e) => spec_from_struct(name@, defn@) == Err::<ModuleV, ErrV>(e@),
            }),
    {
        let ghost fsv = defn@.fields;
        let mut clock: Option<(String, DataType)> = None;
        let mut ports: Vec<Port> = Vec::new();
        let n = defn.fields.len();
        let mut i: usize = 0;
        proof {
            assert(ports.deep_view() =~= Seq::<PortV>::empty());
            assert(fsv.skip(0) =~= fsv);
        }
        while i < n
            invariant
                n == defn.fields.len(),
                fsv == defn@.fields,
                i <= n,
                extract_fields(fsv, Seq::<PortV>::empty(), None) == extract_fields(
                    fsv.skip(i as int),
                    ports.deep_view(),
                    clock_v(clock),
                ),
            decreases n - i,
        {
            let ghost clock0 = clock_v(clock);
            let ghost ports0 = ports.deep_view();
            let field = &defn.fields[i];
            proof {
                assert(fsv.len() == n);
                assert(fsv[i as int] == field@);
                assert(fsv.skip(i as int)[0] == fsv[i as int]);
                assert(fsv.skip(i as int).drop_first() =~= fsv.skip(i as int + 1));
            }
            if !field.vis.as_str().is_empty() {
                let e = Error::Input(String::from_str("fields must be private"));
                proof {
                    assert(extract_field(fsv[i as int], clock0) == Err::<
                        (PortV, Option<(Seq<char>, DataType)>),
                        ErrV,
                    >(e@));
                    assert(extract_fields(fsv.skip(i as int), ports0, clock0) == Err::<
                        ExtractedV,
                        ErrV,
                    >(e@));
                }
                return Err(e);
            }
            let fname: &String = match &field.name {
                Some(id) => id,
                None => {
                    let e = Error::Input(String::from_str("fields must be named"));
                    proof {
                        assert(extract_field(fsv[i as int], clock0) == Err::<
                            (PortV, Option<(Seq<char>, DataType)>),
                            ErrV,
                        >(e@));
                        assert(extract_fields(fsv.skip(i as int), ports0, clock0) == Err::<
                            ExtractedV,
                            ErrV,
                        >(e@));
                    }
                    return Err(e);
                },
            };
            let data_type = match DataType::parse(field.ty.as_str()) {
                Ok(dt) => dt,
                Err(e) => {
                    proof {
                        assert(extract_field(fsv[i as int], clock0) == Err::<
                            (PortV, Option<(Seq<char>, DataType)>),
                            ErrV,
                        >(e@));
                        assert(extract_fields(fsv.skip(i as int), ports0, clock0) == Err::<
                            ExtractedV,
                            ErrV,
                        >(e@));
                    }
                    return Err(e);
                },
            };
            let ghost mkv = field@.markers;
            let mut input = false;
            let mut output = false;
            let m = field.markers.len();
            let mut j: usize = 0;
            proof {
                assert(mkv.skip(0) =~= mkv);
            }
            while j < m
                invariant
                    m == field.markers.len(),
                    mkv == field@.markers,
                    j <= m,
                    scan_markers(
                        mkv,
                        fname@,
                        data_type,
                        ScanV { input: false, output: false, clock: clock0 },
                    ) == scan_markers(
                        mkv.skip(j as int),
                        fname@,
                        data_type,
                        ScanV { input, output, clock: clock_v(clock) },
                    ),
                decreases m - j,
            {
                let marker = &field.markers[j];
                proof {
                    assert(mkv[j as int] == marker@);
                    assert(mkv.skip(j as int)[0] == mkv[j as int]);
                    assert(mkv.skip(j as int).drop_first() =~= mkv.skip(j as int + 1));
                }
                if str_eq(marker.as_str(), "input") {
                    input = true;
                } else if str_eq(marker.as_str(), "output") {
                    output = true;
                } else if str_eq(marker.as_str(), "clock") {
                    match &clock {
                        Some(prev) => {
                            let e = Error::Conflict(prev.0.clone(), fname.clone());
                            proof {
                                assert(mkv.skip(j as int).len() != 0);
                                assert(scan_markers(
                                    mkv.skip(j as int),
                                    fname@,
                                    data_type,
                                    ScanV { input, output, clock: clock_v(clock) },
                                ) == Err::<ScanV, ErrV>(e@));
                                assert(scan_markers(
                                    mkv,
                                    fname@,
                                    data_type,
                                    ScanV { input: false, output: false, clock: clock0 },
                                ) == Err::<ScanV, ErrV>(e@));
                                assert(extract_field(fsv[i as int], clock0) == Err::<
                                    (PortV, Option<(Seq<char>, DataType)>),
                                    ErrV,
                                >(e@));
                                assert(extract_fields(fsv.skip(i as int), ports0, clock0)
                                    == Err::<ExtractedV, ErrV>(e@));
                            }
                            return Err(e);
                        },
                        None => {
                            clock = Some((fname.clone(), data_type));
                        },
                    }
                }
                j = j + 1;
            }
            proof {
                assert(mkv.skip(m as int) =~= Seq::<Seq<char>>::empty());
                assert(scan_markers(
                    mkv,
                    fname@,
                    data_type,
                    ScanV { input: false, output: false, clock: clock0 },
                ) == Ok::<ScanV, ErrV>(ScanV { input, output, clock: clock_v(clock) }));
            }
            let port = Port::new(fname.clone(), data_type, input, output);
            proof {
                assert(extract_field(fsv[i as int], clock0) == Ok::<
                    (PortV, Option<(Seq<char>, DataType)>),
                    ErrV,
                >((port@, clock_v(clock))));
            }
            ports.push(port);
            proof {
                assert(ports.deep_view() =~= ports0.push(port@));
            }
            i = i + 1;
        }
        proof {
            assert(fsv.skip(n as int) =~= Seq::<FieldV>::empty());
        }
        let module = Module::new(
            name,
            defn.vis.clone(),
            defn.ident.clone(),
            clock,
            ports,
        );
        Ok(module)
    }

    /// Extracts a module where the name arrives as attribute arguments: the
    /// arguments must be exactly one identifier, which names the module.
    pub fn from_attribute(attr: &Vec<AttrToken>, defn: &StructDecl) -> (r: Result<Module, Error>)
        ensures
            (match r {
                Ok(m) => (match spec_module_name_from_attr(attr.deep_view()) {
                    Ok(n) => spec_from_struct(n, defn@) == Ok::<ModuleV, ErrV>(m@),
                    Err(_) => false,
                }),
                Err(e) => (match spec_module_name_from_attr(attr.deep_view()) {
                    Ok(n) => spec_from_struct(n, defn@) == Err::<ModuleV, ErrV>(e@),
                    Err(ae) => ae == e@,
                }),
            }),
    {
        let name = match module_name_from_attr(attr) {
            Ok(n) => n,
            Err(e) => {
                return Err(e);
            },
        };
        Module::from_struct(name, defn)
    }
}

} // verus!

