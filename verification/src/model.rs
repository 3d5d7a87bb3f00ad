//! The interface model: one hardware module's externally visible interface,
//! as a plain ordered list of named, typed, direction-marked ports.

use vstd::prelude::*;

use crate::err::Error;
use crate::err::ErrV;

verus! {

/// The scalar kind of one signal: boolean, or a signed/unsigned integer of
/// width 8, 16, 32 or 64 bits.
#[derive(Clone, Copy, Debug, PartialEq, Eq, Structural)]
pub enum DataType {
    Bool,
    U8,
    U16,
    U32,
    U64,
    I8,
    I16,
    I32,
    I64,
}

/// The message with which a type token outside the supported table is
/// rejected.
pub open spec fn type_err_msg(token: Seq<char>) -> Seq<char> {
    "cannot convert '"@ + token + "' to DataType"@
}

impl DataType {
    /// The canonical name of the type, as the host language writes it.
    pub open spec fn spec_name(self) -> Seq<char> {
        match self {
            DataType::Bool => "bool"@,
            DataType::U8 => "u8"@,
            DataType::U16 => "u16"@,
            DataType::U32 => "u32"@,
            DataType::U64 => "u64"@,
            DataType::I8 => "i8"@,
            DataType::I16 => "i16"@,
            DataType::I32 => "i32"@,
            DataType::I64 => "i64"@,
        }
    }

    /// The native ABI type the shim uses for the type.  Boolean and the
    /// 8-bit unsigned integer share the same native width; every other kind
    /// keeps its own width and signedness.
    pub open spec fn spec_c_name(self) -> Seq<char> {
        match self {
            DataType::Bool => "uint8_t"@,
            DataType::U8 => "uint8_t"@,
            DataType::U16 => "uint16_t"@,
            DataType::U32 => "uint32_t"@,
            DataType::U64 => "uint64_t"@,
            DataType::I8 => "int8_t"@,
            DataType::I16 => "int16_t"@,
            DataType::I32 => "int32_t"@,
            DataType::I64 => "int64_t"@,
        }
    }

    /// The literal written to drive a signal of this type high.
    pub open spec fn spec_asserted(self) -> Seq<char> {
        match self {
            DataType::Bool => "true"@,
            _ => "1"@,
        }
    }

    /// The literal written to drive a signal of this type low.
    pub open spec fn spec_deasserted(self) -> Seq<char> {
        match self {
            DataType::Bool => "false"@,
            _ => "0"@,
        }
    }

    /// The fixed table from type tokens to scalar kinds; any other token is
    /// unsupported.
    pub open spec fn spec_parse(token: Seq<char>) -> Option<DataType> {
        if token == "bool"@ {
            Some(DataType::Bool)
        } else if token == "u8"@ {
            Some(DataType::U8)
        } else if token == "u16"@ {
            Some(DataType::U16)
        } else if token == "u32"@ {
            Some(DataType::U32)
        } else if token == "u64"@ {
            Some(DataType::U64)
        } else if token == "i8"@ {
            Some(DataType::I8)
        } else if token == "i16"@ {
            Some(DataType::I16)
        } else if token == "i32"@ {
            Some(DataType::I32)
        } else if token == "i64"@ {
            Some(DataType::I64)
        } else {
            None
        }
    }

    /// Resolves a type token through the fixed table, rejecting any token
    /// outside it with a `Type` failure naming the token.
    pub fn parse(s: &str) -> (r: Result<DataType, Error>)
        ensures
            match r {
                Ok(dt) => Self::spec_parse(s@) == Some(dt),
                Err(e) => Self::spec_parse(s@) is None && e@ == ErrV::Type(type_err_msg(s@)),
            },
    {
        if crate::text::str_eq(s, "bool") {
            Ok(DataType::Bool)
        } else if crate::text::str_eq(s, "u8") {
            Ok(DataType::U8)
        } else if crate::text::str_eq(s, "u16") {
            Ok(DataType::U16)
        } else if crate::text::str_eq(s, "u32") {
            Ok(DataType::U32)
        } else if crate::text::str_eq(s, "u64") {
            Ok(DataType::U64)
        } else if crate::text::str_eq(s, "i8") {
            Ok(DataType::I8)
        } else if crate::text::str_eq(s, "i16") {
            Ok(DataType::I16)
        } else if crate::text::str_eq(s, "i32") {
            Ok(DataType::I32)
        } else if crate::text::str_eq(s, "i64") {
            Ok(DataType::I64)
        } else {
            let mut m = String::from_str("cannot convert '");
            m.append(s);
            m.append("' to DataType");
            Err(Error::Type(m))
        }
    }

    /// The canonical name of the type, as a fresh string.
    pub fn name(&self) -> (r: String)
        ensures
            r@ == self.spec_name(),
    {
        String::from_str(
            match self {
                DataType::Bool => "bool",
                DataType::U8 => "u8",
                DataType::U16 => "u16",
                DataType::U32 => "u32",
                DataType::U64 => "u64",
                DataType::I8 => "i8",
                DataType::I16 => "i16",
                DataType::I32 => "i32",
                DataType::I64 => "i64",
            },
        )
    }

    /// The native ABI type name the shim uses for this type.
    pub fn as_c(&self) -> (r: String)
        ensures
            r@ == self.spec_c_name(),
    {
        String::from_str(
            match self {
                DataType::Bool => "uint8_t",
                DataType::U8 => "uint8_t",
                DataType::U16 => "uint16_t",
                DataType::U32 => "uint32_t",
                DataType::U64 => "uint64_t",
                DataType::I8 => "int8_t",
                DataType::I16 => "int16_t",
                DataType::I32 => "int32_t",
                DataType::I64 => "int64_t",
            },
        )
    }

    /// The asserted/deasserted literal pair of the type.
    pub fn true_false(&self) -> (r: (&'static str, &'static str))
        ensures
            r.0@ == self.spec_asserted(),
            r.1@ == self.spec_deasserted(),
    {
        match self {
            DataType::Bool => ("true", "false"),
            DataType::U8 => ("1", "0"),
            DataType::U16 => ("1", "0"),
            DataType::U32 => ("1", "0"),
            DataType::U64 => ("1", "0"),
            DataType::I8 => ("1", "0"),
            DataType::I16 => ("1", "0"),
            DataType::I32 => ("1", "0"),
            DataType::I64 => ("1", "0"),
        }
    }
}

/// The mathematical value of a [`Port`].
pub struct PortV {
    pub name: Seq<char>,
    pub data_type: DataType,
    pub input: bool,
    pub output: bool,
}

/// One named signal crossing the module boundary: a scalar type and a
/// direction set (input, output, or both).  Declaration order is significant
/// and preserved by extraction.
#[derive(Debug, PartialEq)]
pub struct Port {
    pub(crate) name: String,
    pub(crate) data_type: DataType,
    pub(crate) input: bool,
    pub(crate) output: bool,
}

impl View for Port {
    type V = PortV;

    closed spec fn view(&self) -> PortV {
        PortV {
            name: self.name@,
            data_type: self.data_type,
            input: self.input,
            output: self.output,
        }
    }
}

impl DeepView for Port {
    type V = PortV;

    open spec fn deep_view(&self) -> PortV {
        self.view()
    }
}

impl Port {
    /// Builds one port record.
    pub fn new(name: String, data_type: DataType, input: bool, output: bool) -> (r: Port)
        ensures
            r@ == (PortV { name: name@, data_type, input, output }),
    {
        Port { name, data_type, input, output }
    }

    /// The signal's name.
    pub fn name(&self) -> (r: &String)
        ensures
            r@ == self@.name,
    {
        &self.name
    }

    /// The signal's scalar kind.
    pub fn data_type(&self) -> (r: &DataType)
        ensures
            *r == self@.data_type,
    {
        &self.data_type
    }

    /// Whether the signal can be driven from outside the module.
    pub fn input(&self) -> (r: bool)
        ensures
            r == self@.input,
    {
        self.input
    }

    /// Whether the signal can be read from outside the module.
    pub fn output(&self) -> (r: bool)
        ensures
            r == self@.output,
    {
        self.output
    }
}

/// The mathematical value of a [`Module`].
pub struct ModuleV {
    pub name: Seq<char>,
    pub vis: Seq<char>,
    pub ident: Seq<char>,
    pub clock: Option<(Seq<char>, DataType)>,
    pub ports: Seq<PortV>,
}

impl ModuleV {
    /// The data-model invariants of a module: port names are unique, and a
    /// designated clock names an input-capable port carrying its type.  At
    /// most one port is designated clock by construction.
    pub open spec fn wf(self) -> bool {
        &&& (forall|i: int, j: int|
            0 <= i < j < self.ports.len() ==> (#[trigger] self.ports[i]).name != (
            #[trigger] self.ports[j]).name)
        &&& (match self.clock {
            Some(c) => exists|i: int|
                0 <= i < self.ports.len() && (#[trigger] self.ports[i]).name == c.0
                    && self.ports[i].data_type == c.1 && self.ports[i].input,
            None => true,
        })
    }
}

/// The value of an optional clock designation.
pub open spec fn clock_v(c: Option<(String, DataType)>) -> Option<(Seq<char>, DataType)> {
    match c {
        Some((n, dt)) => Some((n@, dt)),
        None => None,
    }
}

/// One interface unit: the identifier used for all generated symbols and for
/// the top-level entity (`name`), the declared accessibility and identifier
/// of the wrapper type to generate (`vis`, `ident`), the distinguished clock
/// port if one was designated, and the ordered list of ports.
///
/// A module is built exactly once per generation invocation, directly from a
/// parsed structure declaration, and never mutated afterwards.
#[derive(Debug, PartialEq)]
pub struct Module {
    pub(crate) name: String,
    pub(crate) vis: String,
    pub(crate) ident: String,
    pub(crate) clock: Option<(String, DataType)>,
    pub(crate) ports: Vec<Port>,
}

impl View for Module {
    type V = ModuleV;

    closed spec fn view(&self) -> ModuleV {
        ModuleV {
            name: self.name@,
            vis: self.vis@,
            ident: self.ident@,
            clock: clock_v(self.clock),
            ports: self.ports.deep_view(),
        }
    }
}

impl Module {
    /// Builds one module record.
    pub fn new(
        name: String,
        vis: String,
        ident: String,
        clock: Option<(String, DataType)>,
        ports: Vec<Port>,
    ) -> (r: Module)
        ensures
            r@ == (ModuleV {
                name: name@,
                vis: vis@,
                ident: ident@,
                clock: clock_v(clock),
                ports: ports.deep_view(),
            }),
    {
        Module { name, vis, ident, clock, ports }
    }

    /// The ordered list of ports.
    pub fn ports(&self) -> (r: &Vec<Port>)
        ensures
            r.deep_view() == self@.ports,
    {
        &self.ports
    }

    /// The identifier used for all generated symbols.
    pub fn name(&self) -> (r: &String)
        ensures
            r@ == self@.name,
    {
        &self.name
    }

    /// The declared accessibility of the wrapper type to generate.
    pub fn vis(&self) -> (r: &String)
        ensures
            r@ == self@.vis,
    {
        &self.vis
    }

    /// The identifier of the wrapper type to generate.
    pub fn ident(&self) -> (r: &String)
        ensures
            r@ == self@.ident,
    {
        &self.ident
    }

    /// The distinguished clock port, if one was designated.
    pub fn clock(&self) -> (r: &Option<(String, DataType)>)
        ensures
            clock_v(*r) == self@.clock,
    {
        &self.clock
    }
}

} // verus!
