use ferrilator::err::Error;
use ferrilator::extract::AttrDecl;
use ferrilator::extract::AttrToken;
use ferrilator::extract::FieldDecl;
use ferrilator::extract::StructDecl;
use ferrilator::extract::module_name_from_attr;
use ferrilator::extract::read_module_name;
use ferrilator::model::DataType;
use ferrilator::model::Module;
use ferrilator::model::Port;

fn field(name: &str, ty: &str, markers: &[&str]) -> FieldDecl {
    FieldDecl {
        vis: String::new(),
        name: Some(name.to_string()),
        ty: ty.to_string(),
        markers: markers.iter().map(|m| m.to_string()).collect(),
    }
}

fn example_decl() -> StructDecl {
    StructDecl {
        vis: "pub".to_string(),
        ident: "Example".to_string(),
        attrs: vec![],
        fields: vec![
            field("clk", "bool", &["clock", "input"]),
            field("a", "u8", &["input"]),
            field("b", "u64", &["output"]),
        ],
    }
}

fn ident_attr(text: &str) -> Vec<AttrToken> {
    vec![AttrToken { is_ident: true, text: text.to_string() }]
}

#[test]
fn module_from_attribute() {
    let module = Module::from_attribute(&ident_attr("ex_module"), &example_decl()).unwrap();

    assert_eq!(
        module,
        Module::new(
            "ex_module".to_string(),
            "pub".to_string(),
            "Example".to_string(),
            Some(("clk".to_string(), DataType::Bool)),
            vec![
                Port::new("clk".to_string(), DataType::Bool, true, false),
                Port::new("a".to_string(), DataType::U8, true, false),
                Port::new("b".to_string(), DataType::U64, false, true),
            ],
        )
    );
}

#[test]
fn extraction_preserves_declaration_order() {
    let module = Module::from_struct("ex_module".to_string(), &example_decl()).unwrap();
    let ports = module.ports();
    assert_eq!(ports.len(), 3);
    assert_eq!(ports[0].name().as_str(), "clk");
    assert_eq!(ports[1].name().as_str(), "a");
    assert_eq!(ports[2].name().as_str(), "b");
    assert_eq!(*ports[0].data_type(), DataType::Bool);
    assert_eq!(*ports[1].data_type(), DataType::U8);
    assert_eq!(*ports[2].data_type(), DataType::U64);
    assert_eq!(
        module.clock(),
        &Some(("clk".to_string(), DataType::Bool))
    );
}

#[test]
fn clock_conflict_names_both_fields() {
    let decl = StructDecl {
        vis: String::new(),
        ident: "Two".to_string(),
        attrs: vec![],
        fields: vec![
            field("clk", "bool", &["clock", "input"]),
            field("clk2", "bool", &["clock", "input"]),
        ],
    };
    let err = Module::from_struct("two".to_string(), &decl).unwrap_err();
    assert_eq!(err, Error::Conflict("clk".to_string(), "clk2".to_string()));
    assert_eq!(
        err.message(),
        "input: fields clk and clk2 cannot both be declared clock"
    );
}

#[test]
fn clock_conflict_within_one_field() {
    let decl = StructDecl {
        vis: String::new(),
        ident: "One".to_string(),
        attrs: vec![],
        fields: vec![field("clk", "bool", &["clock", "clock"])],
    };
    let err = Module::from_struct("one".to_string(), &decl).unwrap_err();
    assert_eq!(err, Error::Conflict("clk".to_string(), "clk".to_string()));
}

#[test]
fn non_private_field_rejected() {
    let decl = StructDecl {
        vis: String::new(),
        ident: "Bad".to_string(),
        attrs: vec![],
        fields: vec![FieldDecl {
            vis: "pub".to_string(),
            name: Some("a".to_string()),
            ty: "u8".to_string(),
            markers: vec![],
        }],
    };
    let err = Module::from_struct("bad".to_string(), &decl).unwrap_err();
    assert_eq!(err, Error::Input("fields must be private".to_string()));
    assert_eq!(err.message(), "input: fields must be private");
}

#[test]
fn unnamed_field_rejected() {
    let decl = StructDecl {
        vis: String::new(),
        ident: "Bad".to_string(),
        attrs: vec![],
        fields: vec![FieldDecl {
            vis: String::new(),
            name: None,
            ty: "u8".to_string(),
            markers: vec![],
        }],
    };
    let err = Module::from_struct("bad".to_string(), &decl).unwrap_err();
    assert_eq!(err, Error::Input("fields must be named".to_string()));
}

#[test]
fn unsupported_type_token_rejected() {
    let decl = StructDecl {
        vis: String::new(),
        ident: "Wide".to_string(),
        attrs: vec![],
        fields: vec![field("a", "u128", &["input"])],
    };
    let err = Module::from_struct("wide".to_string(), &decl).unwrap_err();
    assert_eq!(
        err,
        Error::Type("cannot convert 'u128' to DataType".to_string())
    );
    assert_eq!(err.message(), "type: cannot convert 'u128' to DataType");
}

#[test]
fn unrecognized_markers_ignored() {
    let decl = StructDecl {
        vis: String::new(),
        ident: "Fwd".to_string(),
        attrs: vec![],
        fields: vec![field("a", "u16", &["doc", "input", "serde"])],
    };
    let module = Module::from_struct("fwd".to_string(), &decl).unwrap();
    let ports = module.ports();
    assert_eq!(ports.len(), 1);
    assert!(ports[0].input());
    assert!(!ports[0].output());
}

#[test]
fn bidirectional_port_accepted() {
    let decl = StructDecl {
        vis: String::new(),
        ident: "Bi".to_string(),
        attrs: vec![],
        fields: vec![field("x", "i32", &["input", "output"])],
    };
    let module = Module::from_struct("bi".to_string(), &decl).unwrap();
    let ports = module.ports();
    assert!(ports[0].input());
    assert!(ports[0].output());
}

#[test]
fn read_module_name_finds_attribute() {
    let decl = StructDecl {
        vis: String::new(),
        ident: "Counter".to_string(),
        attrs: vec![
            AttrDecl {
                is_list: false,
                name: "doc".to_string(),
                tokens: String::new(),
            },
            AttrDecl {
                is_list: true,
                name: "ferrilate".to_string(),
                tokens: "counter".to_string(),
            },
        ],
        fields: vec![],
    };
    assert_eq!(read_module_name(&decl).unwrap(), "counter");
}

#[test]
fn read_module_name_missing() {
    let decl = StructDecl {
        vis: String::new(),
        ident: "Wide".to_string(),
        attrs: vec![],
        fields: vec![],
    };
    let err = read_module_name(&decl).unwrap_err();
    assert_eq!(
        err,
        Error::Input("struct Wide has no 'ferrilate' attribute".to_string())
    );
}

#[test]
fn attr_must_be_single_ident() {
    let err = module_name_from_attr(&vec![]).unwrap_err();
    assert_eq!(
        err,
        Error::Input("expected module name, found nothing".to_string())
    );

    let err = module_name_from_attr(&vec![AttrToken {
        is_ident: false,
        text: "42".to_string(),
    }])
    .unwrap_err();
    assert_eq!(
        err,
        Error::Input("expected module name, found 42".to_string())
    );

    let err = module_name_from_attr(&vec![
        AttrToken { is_ident: true, text: "a".to_string() },
        AttrToken { is_ident: true, text: "b".to_string() },
    ])
    .unwrap_err();
    assert_eq!(err, Error::Input("unexpected attr value: b".to_string()));

    let name = module_name_from_attr(&ident_attr("counter")).unwrap();
    assert_eq!(name, "counter");
}

#[test]
fn parse_all_supported_tokens() {
    assert_eq!(DataType::parse("bool").unwrap(), DataType::Bool);
    assert_eq!(DataType::parse("u8").unwrap(), DataType::U8);
    assert_eq!(DataType::parse("u16").unwrap(), DataType::U16);
    assert_eq!(DataType::parse("u32").unwrap(), DataType::U32);
    assert_eq!(DataType::parse("u64").unwrap(), DataType::U64);
    assert_eq!(DataType::parse("i8").unwrap(), DataType::I8);
    assert_eq!(DataType::parse("i16").unwrap(), DataType::I16);
    assert_eq!(DataType::parse("i32").unwrap(), DataType::I32);
    assert_eq!(DataType::parse("i64").unwrap(), DataType::I64);
    assert!(DataType::parse("u128").is_err());
    assert!(DataType::parse("String").is_err());
}
