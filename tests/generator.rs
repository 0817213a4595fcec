use crt_macros::header::HeaderExporter;
use crt_macros::model::{
    impl_target, method_is_static, parse_impl, parse_target, FnInput, ImplMember, Method, RawDecl,
    RawMethod, Struct, Target,
};
use crt_macros::plugin::{crt_export, Plugin};
use crt_macros::types::{
    map_type_exec, rust_to_c_type, rust_to_ffi_type, type_text_exec, FfiKind, GenError, PathSegment,
    TypeExpr,
};
use crt_macros::wrapper::{export_method, Call, NativeExporter, NativeItem};

fn plain(name: &str) -> TypeExpr {
    TypeExpr::Path {
        leading_colon: false,
        segments: vec![PathSegment { ident: name.to_string(), arguments: None }],
    }
}

fn reference(name: &str, mutable: bool) -> TypeExpr {
    TypeExpr::Reference { mutable, elem: Box::new(plain(name)) }
}

fn typed(name: &str, ty: TypeExpr) -> FnInput {
    FnInput::Typed { pattern: Some(name.to_string()), ty }
}

fn method(name: &str, inputs: Vec<FnInput>, output: Option<TypeExpr>) -> ImplMember {
    ImplMember::Method(RawMethod { name: name.to_string(), inputs, output })
}

fn widget_impl() -> RawDecl {
    RawDecl::Collection {
        self_ty: plain("Widget"),
        members: vec![
            method("value", vec![FnInput::Receiver], Some(plain("u64"))),
            method("make", vec![typed("seed", plain("u64"))], Some(plain("Widget"))),
            method("drop", vec![FnInput::Receiver], None),
        ],
    }
}

fn functions(exporter: &NativeExporter) -> Vec<&crt_macros::wrapper::ExportedFn> {
    exporter
        .items
        .iter()
        .filter_map(|i| match i {
            NativeItem::Function(f) => Some(f),
            NativeItem::Handle(_) => None,
        })
        .collect()
}

#[test]
fn widget_scenario_header_lines() {
    let mut header = HeaderExporter::new("out");
    crt_export(&RawDecl::Record { ident: "Widget".to_string() }, &mut header).unwrap();
    crt_export(&widget_impl(), &mut header).unwrap();
    assert_eq!(header.lines[0], "typedef void* Widget;");
    assert_eq!(header.lines[1], "u64 Widget_value(void* this);");
    assert_eq!(header.lines[2], "Widget Widget_make(u64 seed);");
    assert_eq!(header.lines[3], "void Widget_drop(void* this);");
    assert_eq!(header.lines.len(), 4);
}

#[test]
fn widget_scenario_wrappers() {
    let mut native = NativeExporter::new();
    crt_export(&RawDecl::Record { ident: "Widget".to_string() }, &mut native).unwrap();
    crt_export(&widget_impl(), &mut native).unwrap();
    assert!(matches!(&native.items[0], NativeItem::Handle(n) if n == "Widget"));
    let fs = functions(&native);
    let symbols: Vec<&str> = fs.iter().map(|f| f.symbol.as_str()).collect();
    assert_eq!(symbols, vec!["Widget_value", "Widget_make", "Widget_drop"]);

    let value = fs[0];
    assert_eq!(value.params[0].name, "this");
    assert_eq!(value.params[0].ty.kind, FfiKind::Pointer);
    assert_eq!(value.guards.len(), 1);
    assert_eq!(value.guards[0].param, "this");
    assert!(value.guards[0].message.contains("NULL self provided"));
    assert_eq!(value.ret.as_ref().unwrap().base, "u64");

    let make = fs[1];
    assert_eq!(make.params.len(), 1);
    assert_eq!(make.params[0].name, "seed");
    assert!(make.guards.is_empty());
    match &make.call {
        Call::Relay { on_receiver: false, args, .. } => {
            assert_eq!(args.len(), 1);
            assert_eq!(args[0].name, "seed");
            assert!(!args[0].deref);
        }
        _ => panic!("expected a static relay"),
    }

    let drop = fs[2];
    assert_eq!(drop.params[0].name, "this");
    assert_eq!(drop.guards[0].message, "NULL self provided");
    assert!(matches!(drop.call, Call::Release));
    assert!(drop.ret.is_none());
}

#[test]
fn one_handle_line_per_type() {
    let mut header = HeaderExporter::new("out");
    crt_export(&RawDecl::Record { ident: "A".to_string() }, &mut header).unwrap();
    crt_export(&RawDecl::Record { ident: "B".to_string() }, &mut header).unwrap();
    assert_eq!(header.lines, vec!["typedef void* A;".to_string(), "typedef void* B;".to_string()]);
    assert_eq!(header.contents(), "typedef void* A;\ntypedef void* B;\n");
}

#[test]
fn plain_type_maps_to_itself() {
    let m = map_type_exec(&plain("u64")).unwrap();
    assert_eq!(m.kind, FfiKind::Value);
    assert_eq!(m.base, "u64");
    assert_eq!(m.c_type, "u64");
}

#[test]
fn reference_maps_to_pointer() {
    for mutable in [false, true] {
        let m = map_type_exec(&reference("Options", mutable)).unwrap();
        assert_eq!(m.kind, FfiKind::Pointer);
        assert_eq!(m.base, "Options");
        assert_eq!(m.c_type, "Options *");
    }
}

#[test]
fn verbatim_passes_through() {
    let m = map_type_exec(&TypeExpr::Verbatim { text: "*const c_char".to_string() }).unwrap();
    assert_eq!(m.kind, FfiKind::Verbatim);
    assert_eq!(m.base, "*const c_char");
    assert_eq!(m.c_type, "*const c_char");
}

#[test]
fn plain_labels_agree_in_both_positions() {
    let owner = Struct::new("Counter");
    let raw = RawMethod {
        name: "add".to_string(),
        inputs: vec![FnInput::Receiver, typed("n", plain("u32"))],
        output: Some(plain("u32")),
    };
    let m = Method::new(&owner, &raw).unwrap();
    assert_eq!(m.args[0].ty.c_type, "u32");
    assert_eq!(m.exported_return_type(), "u32");
}

fn unsupported_text(t: TypeExpr) -> String {
    match map_type_exec(&t) {
        Err(GenError::UnsupportedTypeShape { text }) => text,
        _ => panic!("expected an unsupported type"),
    }
}

#[test]
fn generic_type_is_refused() {
    let t = TypeExpr::Path {
        leading_colon: false,
        segments: vec![PathSegment { ident: "Vec".to_string(), arguments: Some("<u8>".to_string()) }],
    };
    assert_eq!(unsupported_text(t), "Vec<u8>");
}

#[test]
fn multi_segment_path_is_refused() {
    let t = TypeExpr::Path {
        leading_colon: true,
        segments: vec![
            PathSegment { ident: "std".to_string(), arguments: None },
            PathSegment { ident: "ffi".to_string(), arguments: None },
            PathSegment { ident: "c_void".to_string(), arguments: None },
        ],
    };
    assert_eq!(type_text_exec(&t), "::std::ffi::c_void");
    assert_eq!(unsupported_text(t), "::std::ffi::c_void");
}

#[test]
fn double_reference_is_refused() {
    let t = TypeExpr::Reference { mutable: false, elem: Box::new(reference("T", true)) };
    assert_eq!(unsupported_text(t), "&&mut T");
}

#[test]
fn other_shape_is_refused_with_message() {
    let e = map_type_exec(&TypeExpr::Other { text: "[u8; 4]".to_string() }).unwrap_err();
    assert_eq!(e.message(), "Unsupported FFI type: [u8; 4]");
}

#[test]
fn owner_must_be_plain_name() {
    let t = TypeExpr::Other { text: "(A, B)".to_string() };
    match impl_target(&t) {
        Err(e) => assert_eq!(e.message(), "No struct found in target item: (A, B)"),
        Ok(_) => panic!("expected an owner error"),
    }
    let d = RawDecl::Collection { self_ty: t, members: vec![] };
    assert!(matches!(parse_target(&d), Err(GenError::UnsupportedOwnerShape { .. })));
}

#[test]
fn unsupported_parameter_aborts_and_leaves_backend_untouched() {
    let d = RawDecl::Collection {
        self_ty: plain("W"),
        members: vec![
            method("ok", vec![typed("a", plain("u8"))], None),
            method(
                "bad",
                vec![
                    typed("first", TypeExpr::Other { text: "(u8, u8)".to_string() }),
                    typed("second", TypeExpr::Other { text: "[u8]".to_string() }),
                ],
                None,
            ),
        ],
    };
    let mut native = NativeExporter::new();
    let r = crt_export(&d, &mut native);
    match r {
        Err(GenError::UnsupportedTypeShape { text }) => assert_eq!(text, "(u8, u8)"),
        _ => panic!("expected the first unsupported parameter"),
    }
    assert!(native.items.is_empty());
}

#[test]
fn unsupported_return_type_is_refused() {
    let d = RawDecl::Collection {
        self_ty: plain("W"),
        members: vec![method("f", vec![], Some(TypeExpr::Other { text: "fn()".to_string() }))],
    };
    assert!(matches!(parse_target(&d), Err(GenError::UnsupportedTypeShape { text }) if text == "fn()"));
}

#[test]
fn other_declaration_is_skipped() {
    let mut native = NativeExporter::new();
    let mut header = HeaderExporter::new("out");
    assert!(crt_export(&RawDecl::Other, &mut native).is_ok());
    assert!(crt_export(&RawDecl::Other, &mut header).is_ok());
    assert!(native.items.is_empty());
    assert!(header.lines.is_empty());
    assert!(matches!(parse_target(&RawDecl::Other), Ok(None)));
}

#[test]
fn non_method_members_are_skipped_and_patterns_get_placeholder_names() {
    let owner = Struct::new("W");
    let members = vec![
        ImplMember::Other,
        method(
            "f",
            vec![FnInput::Typed { pattern: None, ty: plain("u8") }, typed("b", plain("u16"))],
            None,
        ),
    ];
    let ms = parse_impl(&owner, &members).unwrap();
    assert_eq!(ms.len(), 1);
    assert_eq!(ms[0].args.len(), 2);
    assert_eq!(ms[0].args[0].name, "__arg0");
    assert_eq!(ms[0].args[0].ty.c_type, "u8");
    assert_eq!(ms[0].args[1].name, "b");
    assert_eq!(ms[0].exported_target_name(), "W");
    let w = export_method(&ms[0]);
    match &w.call {
        Call::Relay { args, .. } => {
            let names: Vec<&str> = args.iter().map(|a| a.name.as_str()).collect();
            assert_eq!(names, vec!["__arg0", "b"]);
        }
        _ => panic!("expected a relay"),
    }
}

#[test]
fn unmappable_type_under_non_identifier_pattern_is_refused() {
    let d = RawDecl::Collection {
        self_ty: plain("W"),
        members: vec![method(
            "f",
            vec![FnInput::Typed { pattern: None, ty: TypeExpr::Other { text: "[u8; 4]".to_string() } }],
            None,
        )],
    };
    match parse_target(&d) {
        Err(GenError::UnsupportedTypeShape { text }) => assert_eq!(text, "[u8; 4]"),
        _ => panic!("expected an unsupported type"),
    }
}

#[test]
fn placeholder_names_use_the_declared_position() {
    let mut inputs = vec![FnInput::Receiver];
    for _ in 0..12 {
        inputs.push(FnInput::Typed { pattern: None, ty: plain("u8") });
    }
    let raw = RawMethod { name: "g".to_string(), inputs, output: None };
    let m = Method::new(&Struct::new("W"), &raw).unwrap();
    assert_eq!(m.args.len(), 12);
    assert_eq!(m.args[0].name, "__arg0");
    assert_eq!(m.args[9].name, "__arg9");
    assert_eq!(m.args[11].name, "__arg11");
}

#[test]
fn classifier_static_versus_instance() {
    let st = RawMethod { name: "new".to_string(), inputs: vec![typed("x", plain("u8"))], output: None };
    let inst = RawMethod { name: "get".to_string(), inputs: vec![FnInput::Receiver], output: None };
    let empty = RawMethod { name: "init".to_string(), inputs: vec![], output: None };
    assert!(method_is_static(&st));
    assert!(!method_is_static(&inst));
    assert!(method_is_static(&empty));
    let m = Method::new(&Struct::new("T"), &inst).unwrap();
    assert!(!m.is_static);
    assert_eq!(m.this.as_ref().unwrap().name, "this");
    assert_eq!(m.this.as_ref().unwrap().ty.c_type, "void*");
    let s = Method::new(&Struct::new("T"), &st).unwrap();
    assert!(s.this.is_none());
}

#[test]
fn pointer_parameters_are_checked_with_their_names() {
    let owner = Struct::new("Creds");
    let raw = RawMethod {
        name: "update".to_string(),
        inputs: vec![
            FnInput::Receiver,
            typed("options", reference("Options", false)),
            typed("count", plain("u32")),
            typed("extra", reference("Extra", true)),
        ],
        output: None,
    };
    let w = export_method(&Method::new(&owner, &raw).unwrap());
    let params: Vec<&str> = w.guards.iter().map(|g| g.param.as_str()).collect();
    assert_eq!(params, vec!["this", "options", "extra"]);
    assert_eq!(w.guards[1].message, "NULL provided for options");
    assert!(w.guards[2].message.contains("extra"));
    match &w.call {
        Call::Relay { on_receiver: true, args, .. } => {
            let fwd: Vec<(&str, bool)> = args.iter().map(|a| (a.name.as_str(), a.deref)).collect();
            assert_eq!(fwd, vec![("options", true), ("count", false), ("extra", true)]);
        }
        _ => panic!("expected an instance relay"),
    }
}

#[test]
fn static_method_checks_and_dereferences_pointers() {
    let owner = Struct::new("Creds");
    let raw = RawMethod {
        name: "new".to_string(),
        inputs: vec![typed("options", reference("Options", false)), typed("n", plain("u8"))],
        output: Some(plain("Creds")),
    };
    let w = export_method(&Method::new(&owner, &raw).unwrap());
    assert_eq!(w.symbol, "Creds_new");
    assert_eq!(w.params.len(), 2);
    assert_eq!(w.params[0].name, "options");
    assert_eq!(w.params[0].ty.kind, FfiKind::Pointer);
    assert_eq!(w.params[1].name, "n");
    assert_eq!(w.guards.len(), 1);
    assert_eq!(w.guards[0].param, "options");
    assert_eq!(w.guards[0].message, "NULL provided for options");
    match &w.call {
        Call::Relay { on_receiver: false, owner, method, args } => {
            assert_eq!(owner, "Creds");
            assert_eq!(method, "new");
            let fwd: Vec<(&str, bool)> = args.iter().map(|a| (a.name.as_str(), a.deref)).collect();
            assert_eq!(fwd, vec![("options", true), ("n", false)]);
        }
        _ => panic!("expected a static relay"),
    }
}

#[test]
fn destructor_keeps_extra_params_but_only_releases() {
    let owner = Struct::new("R");
    let raw = RawMethod {
        name: "drop".to_string(),
        inputs: vec![FnInput::Receiver, typed("flag", plain("bool"))],
        output: Some(plain("u8")),
    };
    let w = export_method(&Method::new(&owner, &raw).unwrap());
    assert_eq!(w.params.len(), 2);
    assert_eq!(w.params[1].name, "flag");
    assert_eq!(w.guards.len(), 1);
    assert!(w.ret.is_none());
    assert!(matches!(w.call, Call::Release));
}

#[test]
fn static_drop_is_an_ordinary_relay() {
    let raw = RawMethod { name: "drop".to_string(), inputs: vec![], output: None };
    let w = export_method(&Method::new(&Struct::new("R"), &raw).unwrap());
    assert!(matches!(w.call, Call::Relay { on_receiver: false, .. }));
    assert!(w.guards.is_empty());
}

#[test]
fn wrapper_emission_is_idempotent() {
    let mut a = NativeExporter::new();
    let mut b = NativeExporter::new();
    crt_export(&widget_impl(), &mut a).unwrap();
    crt_export(&widget_impl(), &mut b).unwrap();
    let fa = functions(&a);
    let fb = functions(&b);
    assert_eq!(fa.len(), fb.len());
    for (x, y) in fa.iter().zip(fb.iter()) {
        assert_eq!(x.symbol, y.symbol);
        assert_eq!(x.params.len(), y.params.len());
        for (p, q) in x.params.iter().zip(y.params.iter()) {
            assert_eq!(p.name, q.name);
            assert_eq!(p.ty.c_type, q.ty.c_type);
        }
        let gx: Vec<&String> = x.guards.iter().map(|g| &g.message).collect();
        let gy: Vec<&String> = y.guards.iter().map(|g| &g.message).collect();
        assert_eq!(gx, gy);
    }
}

#[test]
fn header_accumulates_on_rerun() {
    let mut header = HeaderExporter::new("out");
    let record = RawDecl::Record { ident: "W".to_string() };
    crt_export(&record, &mut header).unwrap();
    crt_export(&record, &mut header).unwrap();
    assert_eq!(header.lines.len(), 2);
    assert_eq!(header.lines[0], header.lines[1]);
}

#[test]
fn header_exporter_paths_and_writeln() {
    let mut header = HeaderExporter::new("/tmp/gen");
    assert_eq!(header.output_dir, "/tmp/gen");
    assert_eq!(header.artifact_path(), "/tmp/gen/api.h");
    assert_eq!(header.write_failure_message(), "Failed to write to /tmp/gen/api.h");
    header.writeln("int x;");
    assert_eq!(header.contents(), "int x;\n");
}

#[test]
fn exported_names_and_args() {
    let owner = Struct::new("Loop");
    assert_eq!(owner.exported_name(), "Loop");
    let raw = RawMethod {
        name: "run".to_string(),
        inputs: vec![FnInput::Receiver, typed("group", reference("Group", false))],
        output: None,
    };
    let m = Method::new(&owner, &raw).unwrap();
    assert_eq!(m.exported_name(), "Loop_run");
    assert_eq!(m.exported_return_type(), "void");
    assert_eq!(
        m.exported_args(),
        vec![
            ("this".to_string(), "void*".to_string()),
            ("group".to_string(), "Group *".to_string()),
        ]
    );
    let mut header = HeaderExporter::new("out");
    header.on_impl(&vec![m]);
    assert_eq!(header.lines[0], "void Loop_run(void* this, Group * group);");
}

#[test]
fn record_target_is_a_struct() {
    let t = parse_target(&RawDecl::Record { ident: "Rec".to_string() }).unwrap().unwrap();
    assert!(matches!(t, Target::Struct(s) if s.id == "Rec"));
}

#[test]
fn mapper_halves_agree_with_the_mapping() {
    let r = reference("Group", false);
    let (kind, base) = rust_to_ffi_type(&r).unwrap();
    assert_eq!(kind, FfiKind::Pointer);
    assert_eq!(base, "Group");
    assert_eq!(rust_to_c_type(&r).unwrap(), "Group *");
    assert!(rust_to_c_type(&TypeExpr::Other { text: "()".to_string() }).is_err());
}
