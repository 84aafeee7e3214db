use binding_ir::assemble::{build_ir, StructuralError};
use binding_ir::comment::normalize;
use binding_ir::decl::{
    AccessSpecifier, Builtin, Decl, DeclGraph, DeclKind, DeclName, FieldDecl, FunctionDecl,
    LifetimeId, NativeType, ParamDecl, RecordDecl, RecordTag, SourceLoc, SpecialMemberFacts,
    TypeShape,
};
use binding_ir::ident::{synthesize_param_name, translate_name, ItemId, UnqualifiedIdentifier};
use binding_ir::ir::{Item, MappedType, IR};
use binding_ir::names::{push_escaped_label, spell};
use binding_ir::record::classify_special_member;
use binding_ir::ir::SpecialMemberDefinition;
use binding_ir::text::{push_decimal, to_chars};
use binding_ir::types::{fixed_width_name, TypeError};

const CURRENT: &str = "//test:testing_target";

fn decl(parent: Option<usize>, index: usize, kind: DeclKind) -> Decl {
    Decl {
        canonical: index,
        parent,
        owning_target: CURRENT.to_string(),
        doc_comment: None,
        kind,
    }
}

fn graph(kinds: Vec<(Option<usize>, DeclKind)>) -> DeclGraph {
    let decls =
        kinds.into_iter().enumerate().map(|(i, (parent, kind))| decl(parent, i, kind)).collect();
    DeclGraph { decls, current_target: CURRENT.to_string() }
}

fn plain(shape: TypeShape, spelling: &str) -> NativeType {
    NativeType {
        spelling: spelling.to_string(),
        is_const: false,
        is_volatile: false,
        lifetime: None,
        shape,
    }
}

fn int_type() -> NativeType {
    plain(TypeShape::Builtin(Builtin::Int), "int")
}

fn trivial() -> SpecialMemberFacts {
    SpecialMemberFacts { is_deleted: false, is_trivial: true, declared_access: None }
}

fn record(name: &str, tag: RecordTag, size: usize, definition: usize) -> DeclKind {
    DeclKind::Record(RecordDecl {
        name: name.to_string(),
        tag,
        is_definition: true,
        definition: Some(definition),
        specialization: None,
        is_injected_class_name: false,
        size,
        alignment: 4,
        explicit_alignment: None,
        natural_alignment: 4,
        bases: Vec::new(),
        copy_constructor: trivial(),
        move_constructor: trivial(),
        destructor: trivial(),
    })
}

fn field(name: &str, ty: NativeType, offset: usize, size: usize) -> DeclKind {
    DeclKind::Field(FieldDecl { name: Some(name.to_string()), ty, offset, size })
}

fn function(name: &str, ret: NativeType, params: Vec<ParamDecl>) -> DeclKind {
    DeclKind::Function(FunctionDecl {
        name: DeclName::Identifier(name.to_string()),
        mangled_name: name.to_string(),
        return_type: ret,
        params,
        lifetime_params: Vec::new(),
        instance: None,
        has_default_calling_convention: true,
        instantiates: Vec::new(),
        source_loc: SourceLoc { filename: "a.h".to_string(), line: 1, column: 1 },
    })
}

fn item_id(item: &Item) -> ItemId {
    item.id()
}

fn a_unit_of_every_kind() -> DeclGraph {
    graph(vec![
        (None, DeclKind::Namespace { name: "ns".to_string() }),
        (Some(0), record("A", RecordTag::Struct, 8, 1)),
        (Some(1), field("x", int_type(), 0, 32)),
        (Some(1), field("a", plain(TypeShape::Pointer(Box::new(plain(TypeShape::Declared(1), "A"))), "A *"), 32, 32)),
        (Some(1), record("Inner", RecordTag::Struct, 1, 4)),
        (Some(0), DeclKind::TypeAlias { name: "Alias".to_string(), underlying: plain(TypeShape::Declared(1), "A") }),
        (Some(0), function("f", plain(TypeShape::Declared(5), "Alias"), vec![ParamDecl { name: None, ty: plain(TypeShape::Declared(1), "A") }])),
        (None, DeclKind::Comment { text: "// free".to_string() }),
        (None, function("g", plain(TypeShape::Other, "int[3]"), vec![])),
    ])
}

// No two items of a graph have the same identity, and none has identity zero.
#[test]
fn items_have_distinct_nonzero_ids() {
    let ir = build_ir(&a_unit_of_every_kind()).unwrap();
    let ids: Vec<ItemId> = ir.items.iter().map(item_id).collect();
    assert_eq!(ids.len(), 7);
    for (i, a) in ids.iter().enumerate() {
        assert_ne!(*a, ItemId(0));
        for b in ids.iter().skip(i + 1) {
            assert_ne!(a, b);
        }
    }
}

// Every reference to a declaration leads to the one item of that declaration.
#[test]
fn references_lead_to_the_item_of_the_declaration() {
    let ir = build_ir(&a_unit_of_every_kind()).unwrap();
    let record_id = ir.records()[0].id;
    assert_eq!(record_id, ItemId(2));
    let alias = ir.type_aliases()[0];
    assert_eq!(alias.underlying_type.cc_type.decl_id, Some(record_id));
    assert_eq!(alias.underlying_type.rs_type.decl_id, Some(record_id));
    let f = ir.functions()[0];
    assert_eq!(f.params[0].type_.rs_type.decl_id, Some(record_id));
    assert_eq!(f.return_type.rs_type.decl_id, Some(alias.id));
    let pointee = &ir.records()[0].fields[1].type_.cc_type.type_args[0];
    assert_eq!(pointee.decl_id, Some(record_id));
    match ir.find_decl(record_id) {
        Some(Item::Record(r)) => assert_eq!(r.cc_name, "A"),
        other => panic!("unexpected item {:?}", other),
    }
    assert_eq!(ir.find_decl(ItemId(0)), None);
    assert_eq!(ir.find_decl(ItemId(100)), None);
}

// Building twice gives the same graph.
#[test]
fn building_again_gives_the_same_graph() {
    let unit = a_unit_of_every_kind();
    let first: IR = build_ir(&unit).unwrap();
    let second: IR = build_ir(&unit).unwrap();
    assert_eq!(first, second);
    assert_eq!(format!("{:?}", first), format!("{:?}", second));
}

// A mapped type is named or refers to a declaration, never both.
#[test]
fn mapped_types_are_named_or_declared() {
    fn check(t: &MappedType) {
        assert_ne!(t.rs_type.name.is_some(), t.rs_type.decl_id.is_some());
        assert_ne!(t.cc_type.name.is_some(), t.cc_type.decl_id.is_some());
        for a in &t.rs_type.type_args {
            assert_ne!(a.name.is_some(), a.decl_id.is_some());
        }
        for a in &t.cc_type.type_args {
            assert_ne!(a.name.is_some(), a.decl_id.is_some());
        }
    }
    let ir = build_ir(&a_unit_of_every_kind()).unwrap();
    for r in ir.records() {
        for f in &r.fields {
            check(&f.type_);
        }
    }
    for f in ir.functions() {
        check(&f.return_type);
        for p in &f.params {
            check(&p.type_);
        }
    }
}

// Fields lie within the object and do not overlap; private fields are kept.
#[test]
fn fields_lie_within_the_record() {
    let unit = graph(vec![
        (None, record("C", RecordTag::Class, 8, 0)),
        (Some(0), field("hidden", int_type(), 0, 32)),
        (Some(0), DeclKind::AccessLabel(AccessSpecifier::Protected)),
        (Some(0), field("shared", int_type(), 32, 32)),
    ]);
    let ir = build_ir(&unit).unwrap();
    let r = ir.records()[0];
    assert_eq!((r.size, r.alignment), (8, 4));
    assert_eq!(r.fields.len(), 2);
    assert_eq!(r.fields[0].access, AccessSpecifier::Private);
    assert_eq!(r.fields[1].access, AccessSpecifier::Protected);
    for f in &r.fields {
        assert!(f.offset < r.size * 8);
    }
    assert!(r.fields[0].offset + r.fields[0].size <= r.fields[1].offset);
}

#[test]
fn overlapping_fields_are_refused() {
    let unit = graph(vec![
        (None, record("S", RecordTag::Struct, 8, 0)),
        (Some(0), field("a", int_type(), 0, 32)),
        (Some(0), field("b", int_type(), 16, 32)),
    ]);
    assert_eq!(build_ir(&unit), Err(StructuralError::InconsistentLayout));
}

#[test]
fn a_field_beyond_the_object_is_refused() {
    let unit = graph(vec![
        (None, record("S", RecordTag::Struct, 4, 0)),
        (Some(0), field("a", int_type(), 32, 32)),
    ]);
    assert_eq!(build_ir(&unit), Err(StructuralError::InconsistentLayout));
    let unit = graph(vec![
        (None, record("S", RecordTag::Struct, 4, 0)),
        (Some(0), field("a", int_type(), 16, 32)),
    ]);
    assert_eq!(build_ir(&unit), Err(StructuralError::InconsistentLayout));
}

#[test]
fn overlapping_fields_of_a_union_are_accepted() {
    let unit = graph(vec![
        (None, record("U", RecordTag::Union, 4, 0)),
        (Some(0), field("a", int_type(), 0, 32)),
        (Some(0), field("b", int_type(), 0, 16)),
    ]);
    assert!(build_ir(&unit).unwrap().records()[0].is_union);
}

#[test]
fn dangling_references_are_refused() {
    let unit = graph(vec![(None, function("f", plain(TypeShape::Declared(9), "X"), vec![]))]);
    assert_eq!(build_ir(&unit), Err(StructuralError::MalformedGraph));
    let unit = graph(vec![
        (None, function("f", int_type(), vec![])),
        (None, function("g", plain(TypeShape::Declared(0), "f"), vec![])),
    ]);
    assert_eq!(build_ir(&unit), Err(StructuralError::MalformedGraph));
    let unit = graph(vec![(None, field("x", int_type(), 0, 32))]);
    assert_eq!(build_ir(&unit), Err(StructuralError::MalformedGraph));
    let mut unit = graph(vec![(None, DeclKind::Comment { text: "//".to_string() })]);
    unit.decls[0].canonical = 3;
    assert_eq!(build_ir(&unit), Err(StructuralError::MalformedGraph));
}

// Unsupportedness spreads to every declaration that depends on an
// unsupported one, also against the order of declaration and around cycles.
#[test]
fn unsupportedness_spreads_along_references() {
    let ptr = |d: usize, s: &str| plain(TypeShape::Pointer(Box::new(plain(TypeShape::Declared(d), s))), s);
    let unit = graph(vec![
        // struct B; (declared first, defined last)
        (None, DeclKind::Record(match record("B", RecordTag::Struct, 8, 4) {
            DeclKind::Record(mut r) => { r.is_definition = false; r }
            _ => unreachable!(),
        })),
        // struct A { B* b; int bad[3]; };
        (None, record("A", RecordTag::Struct, 24, 1)),
        (Some(1), field("b", ptr(0, "B *"), 0, 64)),
        (Some(1), field("bad", plain(TypeShape::Other, "int[3]"), 64, 96)),
        // struct B { A* a; };
        (None, record("B", RecordTag::Struct, 8, 4)),
        (Some(4), field("a", ptr(1, "A *"), 0, 64)),
        // using C = B;
        (None, DeclKind::TypeAlias { name: "C".to_string(), underlying: plain(TypeShape::Declared(0), "B") }),
        // struct Fine { int x; };
        (None, record("Fine", RecordTag::Struct, 4, 7)),
        (Some(7), field("x", int_type(), 0, 32)),
    ]);
    let mut unit = unit;
    unit.decls[4].canonical = 0;
    let ir = build_ir(&unit).unwrap();
    let unsupported: Vec<(String, String)> = ir
        .unsupported_items()
        .into_iter()
        .map(|i| (i.name.clone(), i.message.clone()))
        .collect();
    assert_eq!(
        unsupported,
        vec![
            (
                "B".to_string(),
                "UNIMPLEMENTED: Type of field 'a' is not supported: Unsupported type 'A *': No generated bindings found for 'A'".to_string()
            ),
            (
                "A".to_string(),
                "UNIMPLEMENTED: Type of field 'b' is not supported: Unsupported type 'B *': No generated bindings found for 'B'".to_string()
            ),
            (
                "C".to_string(),
                "Unsupported type 'B': No generated bindings found for 'B'".to_string()
            ),
        ]
    );
    let records = ir.records();
    assert_eq!(records.len(), 1);
    assert_eq!(records[0].cc_name, "Fine");
}

// Two records that point to each other are both supported.
#[test]
fn cycles_through_pointers_are_supported() {
    let ptr = |d: usize, s: &str| plain(TypeShape::Pointer(Box::new(plain(TypeShape::Declared(d), s))), s);
    let mut unit = graph(vec![
        (None, DeclKind::Record(match record("B", RecordTag::Struct, 8, 3) {
            DeclKind::Record(mut r) => { r.is_definition = false; r }
            _ => unreachable!(),
        })),
        (None, record("A", RecordTag::Struct, 8, 1)),
        (Some(1), field("b", ptr(0, "B *"), 0, 64)),
        (None, record("B", RecordTag::Struct, 8, 3)),
        (Some(3), field("a", ptr(1, "A *"), 0, 64)),
    ]);
    unit.decls[3].canonical = 0;
    let ir = build_ir(&unit).unwrap();
    let names: Vec<&str> = ir.records().into_iter().map(|r| r.cc_name.as_str()).collect();
    assert_eq!(names, vec!["B", "A"]);
    assert!(ir.unsupported_items().is_empty());
    assert_eq!(ir.records()[0].fields[0].type_.rs_type.type_args[0].decl_id, Some(ItemId(2)));
    assert_eq!(ir.records()[1].fields[0].type_.rs_type.type_args[0].decl_id, Some(ItemId(1)));
}

#[test]
fn type_conversion_table() {
    let table = [
        (Builtin::Bool, "bool", "bool"),
        (Builtin::Char, "char", "i8"),
        (Builtin::UnsignedChar, "unsigned char", "u8"),
        (Builtin::SignedChar, "signed char", "i8"),
        (Builtin::Char16, "char16_t", "u16"),
        (Builtin::Char32, "char32_t", "u32"),
        (Builtin::WChar, "wchar_t", "i32"),
        (Builtin::Short, "short", "i16"),
        (Builtin::Int, "int", "i32"),
        (Builtin::Long, "long", "i64"),
        (Builtin::LongLong, "long long", "i64"),
        (Builtin::UnsignedShort, "unsigned short", "u16"),
        (Builtin::UnsignedInt, "unsigned int", "u32"),
        (Builtin::UnsignedLong, "unsigned long", "u64"),
        (Builtin::UnsignedLongLong, "unsigned long long", "u64"),
        (Builtin::Float, "float", "f32"),
        (Builtin::Double, "double", "f64"),
        (Builtin::Void, "void", "()"),
    ];
    let unit = graph(vec![]);
    for (b, cc, rs) in table {
        let t = unit.convert_type(&vec![], &plain(TypeShape::Builtin(b), cc)).unwrap();
        assert_eq!(t.cc_type.name.as_deref(), Some(cc));
        assert_eq!(t.rs_type.name.as_deref(), Some(rs));
        assert!(unit.is_mappable(&vec![], &plain(TypeShape::Builtin(b), cc)));
    }
    let aliases = [
        ("int8_t", "i8"),
        ("int16_t", "i16"),
        ("int32_t", "i32"),
        ("int64_t", "i64"),
        ("uint8_t", "u8"),
        ("uint16_t", "u16"),
        ("uint32_t", "u32"),
        ("uint64_t", "u64"),
        ("ptrdiff_t", "isize"),
        ("size_t", "usize"),
        ("intptr_t", "isize"),
        ("uintptr_t", "usize"),
    ];
    for (name, rs) in aliases {
        assert_eq!(fixed_width_name(&name.to_string()), Some(rs));
        let unit = graph(vec![
            (None, DeclKind::TypeAlias { name: name.to_string(), underlying: int_type() }),
            (None, DeclKind::Namespace { name: "std".to_string() }),
            (Some(1), DeclKind::TypeAlias { name: name.to_string(), underlying: int_type() }),
            (None, DeclKind::Namespace { name: "mine".to_string() }),
            (Some(3), DeclKind::TypeAlias { name: name.to_string(), underlying: int_type() }),
        ]);
        let support = vec![true; 5];
        let global = unit.convert_type(&support, &plain(TypeShape::Declared(0), name)).unwrap();
        assert_eq!(global.rs_type.name.as_deref(), Some(rs));
        assert_eq!(global.cc_type.name.as_deref(), Some(name));
        assert_eq!(global.cc_type.decl_id, None);
        let in_std = unit.convert_type(&support, &plain(TypeShape::Declared(2), name)).unwrap();
        assert_eq!(in_std.rs_type.name.as_deref(), Some(rs));
        assert_eq!(in_std.cc_type.name, Some(format!("std::{}", name)));
        let mine = unit.convert_type(&support, &plain(TypeShape::Declared(4), name)).unwrap();
        assert_eq!(mine.rs_type.name, None);
        assert_eq!(mine.rs_type.decl_id, Some(ItemId(5)));
    }
    assert_eq!(fixed_width_name(&"int".to_string()), None);
}

#[test]
fn pointers_and_references() {
    let unit = graph(vec![]);
    let to = |shape: fn(Box<NativeType>) -> TypeShape, pointee_const: bool, lifetime| {
        let mut pointee = int_type();
        pointee.is_const = pointee_const;
        let mut t = plain(shape(Box::new(pointee)), "p");
        t.lifetime = lifetime;
        unit.convert_type(&vec![], &t).unwrap()
    };
    let p = to(TypeShape::Pointer, false, None);
    assert_eq!(p.rs_type.name.as_deref(), Some("*mut"));
    assert_eq!(p.cc_type.name.as_deref(), Some("*"));
    assert_eq!(p.rs_type.type_args[0].name.as_deref(), Some("i32"));
    assert_eq!(p.cc_type.type_args[0].name.as_deref(), Some("int"));
    assert!(!p.cc_type.type_args[0].is_const);
    let p = to(TypeShape::Pointer, true, None);
    assert_eq!(p.rs_type.name.as_deref(), Some("*const"));
    assert!(p.cc_type.type_args[0].is_const);
    assert!(!p.cc_type.is_const);
    let p = to(TypeShape::Pointer, false, Some(LifetimeId(7)));
    assert_eq!(p.rs_type.name.as_deref(), Some("Option"));
    assert_eq!(p.rs_type.type_args[0].name.as_deref(), Some("&mut"));
    assert_eq!(p.rs_type.type_args[0].lifetime_args, vec![LifetimeId(7)]);
    assert_eq!(p.rs_type.type_args[0].type_args[0].name.as_deref(), Some("i32"));
    let r = to(TypeShape::LValueReference, true, Some(LifetimeId(7)));
    assert_eq!(r.rs_type.name.as_deref(), Some("&"));
    assert_eq!(r.rs_type.lifetime_args, vec![LifetimeId(7)]);
    assert_eq!(r.cc_type.name.as_deref(), Some("&"));
    let r = to(TypeShape::LValueReference, false, None);
    assert_eq!(r.rs_type.name.as_deref(), Some("*mut"));
    assert_eq!(r.cc_type.name.as_deref(), Some("&"));
}

#[test]
fn type_errors() {
    let unit = graph(vec![
        (None, record("S", RecordTag::Struct, 1, 0)),
    ]);
    let unsupported = vec![false];
    let mut v = int_type();
    v.is_volatile = true;
    v.spelling = "volatile int".to_string();
    let e = unit.convert_type(&unsupported, &v).unwrap_err();
    assert_eq!(e, TypeError::Volatile { spelling: "volatile int".to_string() });
    assert_eq!(e.message(), "Unsupported type 'volatile int': volatile qualifier is not supported");
    assert!(!unit.is_mappable(&unsupported, &v));

    let e = unit
        .convert_type(&unsupported, &plain(TypeShape::RValueReference(Box::new(int_type())), "int &&"))
        .unwrap_err();
    assert_eq!(e, TypeError::Unmapped { spelling: "int &&".to_string() });
    assert_eq!(e.message(), "Unsupported type 'int &&'");
    let e = unit.convert_type(&unsupported, &plain(TypeShape::Other, "int[3]")).unwrap_err();
    assert_eq!(e.message(), "Unsupported type 'int[3]'");
    let e = unit.convert_type(&unsupported, &plain(TypeShape::Declared(5), "T")).unwrap_err();
    assert_eq!(e, TypeError::Unmapped { spelling: "T".to_string() });

    let named = plain(TypeShape::Declared(0), "struct S");
    let e = unit.convert_type(&unsupported, &named).unwrap_err();
    assert_eq!(
        e,
        TypeError::NoBindings { spelling: "struct S".to_string(), name: "S".to_string() }
    );
    assert_eq!(e.message(), "Unsupported type 'struct S': No generated bindings found for 'S'");
    // The innermost failure is reported for a pointer.
    let e = unit
        .convert_type(&unsupported, &plain(TypeShape::Pointer(Box::new(named)), "struct S *"))
        .unwrap_err();
    assert_eq!(e.message(), "Unsupported type 'struct S': No generated bindings found for 'S'");
    // With bindings the same type maps to a reference to the item.
    let t = unit.convert_type(&vec![true], &plain(TypeShape::Declared(0), "struct S")).unwrap();
    assert_eq!(t.rs_type.decl_id, Some(ItemId(1)));
    // A set that is too short holds nothing.
    assert!(!unit.is_mappable(&vec![], &plain(TypeShape::Declared(0), "struct S")));
}

#[test]
fn function_failures() {
    let bad = || plain(TypeShape::Other, "int[3]");
    let unit = graph(vec![
        (None, function("r", bad(), vec![])),
        (
            None,
            function(
                "p",
                int_type(),
                vec![
                    ParamDecl { name: None, ty: int_type() },
                    ParamDecl { name: None, ty: bad() },
                    ParamDecl { name: None, ty: bad() },
                ],
            ),
        ),
        (None, DeclKind::Function(match function("", int_type(), vec![]) {
            DeclKind::Function(mut f) => { f.name = DeclName::Unnamed; f }
            _ => unreachable!(),
        })),
    ]);
    let ir = build_ir(&unit).unwrap();
    let seen: Vec<(String, String)> = ir
        .unsupported_items()
        .into_iter()
        .map(|i| (i.name.clone(), i.message.clone()))
        .collect();
    assert_eq!(
        seen,
        vec![
            ("r".to_string(), "Return type is not supported: Unsupported type 'int[3]'".to_string()),
            ("p".to_string(), "Parameter #1 is not supported: Unsupported type 'int[3]'".to_string()),
            ("(anonymous)".to_string(), "Functions without a name are not supported".to_string()),
        ]
    );
}

#[test]
fn names() {
    assert_eq!(synthesize_param_name(0).identifier, "__param_0");
    assert_eq!(synthesize_param_name(9).identifier, "__param_9");
    assert_eq!(synthesize_param_name(10).identifier, "__param_10");
    assert_eq!(synthesize_param_name(4096).identifier, "__param_4096");
    let mut s = "n=".to_string();
    push_decimal(&mut s, 18446744073709551615);
    assert_eq!(s, "n=18446744073709551615");
    assert_eq!(to_chars("a\u{e9}b"), vec!['a', '\u{e9}', 'b']);

    assert_eq!(spell(&DeclName::Identifier("f".to_string()), "S".to_string()), "f");
    assert_eq!(spell(&DeclName::Operator("==".to_string()), "S".to_string()), "operator==");
    assert_eq!(spell(&DeclName::Constructor, "S".to_string()), "S");
    assert_eq!(spell(&DeclName::Destructor, "S".to_string()), "~S");
    assert_eq!(spell(&DeclName::Unnamed, "S".to_string()), "(anonymous)");

    assert_eq!(translate_name(&DeclName::Unnamed), None);
    assert_eq!(translate_name(&DeclName::Constructor), Some(UnqualifiedIdentifier::Constructor));
    assert_eq!(translate_name(&DeclName::Destructor), Some(UnqualifiedIdentifier::Destructor));
    match translate_name(&DeclName::Operator("new[]".to_string())) {
        Some(UnqualifiedIdentifier::Operator(op)) => assert_eq!(op.name, "new[]"),
        other => panic!("unexpected name {:?}", other),
    }

    let mut s = "_Zfoo_".to_string();
    push_escaped_label(&mut s, "//test:testing_target");
    assert_eq!(s, "_Zfoo___test_testing_target");
}

#[test]
fn special_members() {
    let classify = |is_deleted, is_trivial, declared_access| {
        classify_special_member(&SpecialMemberFacts { is_deleted, is_trivial, declared_access })
    };
    let m = classify(false, true, None);
    assert_eq!(m.definition, SpecialMemberDefinition::Trivial);
    assert_eq!(m.access, AccessSpecifier::Public);
    let m = classify(true, true, Some(AccessSpecifier::Private));
    assert_eq!(m.definition, SpecialMemberDefinition::Deleted);
    assert_eq!(m.access, AccessSpecifier::Private);
    let m = classify(false, false, Some(AccessSpecifier::Protected));
    assert_eq!(m.definition, SpecialMemberDefinition::NontrivialUserDefined);
    assert_eq!(m.access, AccessSpecifier::Protected);
}

#[test]
fn comments_at_the_edges() {
    assert_eq!(normalize(""), None);
    assert_eq!(normalize("//"), None);
    assert_eq!(normalize("/**/"), None);
    assert_eq!(normalize("/* */"), None);
    assert_eq!(normalize("plain"), Some("plain".to_string()));
    assert_eq!(normalize("//a"), Some("a".to_string()));
    assert_eq!(normalize("//  two"), Some(" two".to_string()));
    assert_eq!(normalize("/**\n * Text\n */"), Some(" Text".to_string()));
    assert_eq!(normalize("/*! One */"), Some("One ".to_string()));
    assert_eq!(normalize("//\n// a\n//\n// b\n//"), Some("a\n\nb".to_string()));
    assert_eq!(normalize("// NOLINT"), None);
    assert_eq!(normalize("// NOLINT(a) b"), Some("NOLINT(a) b".to_string()));
    assert_eq!(normalize("// NOLINT(a)  \t"), None);
    assert_eq!(normalize("// NOLINTS are fine"), Some("NOLINTS are fine".to_string()));
    assert_eq!(normalize("// a\n// NOLINTNEXTLINE\n// b"), Some("a\nb".to_string()));
}

#[test]
fn an_empty_unit_gives_an_empty_graph() {
    let ir = build_ir(&graph(vec![])).unwrap();
    assert!(ir.items.is_empty());
    assert!(ir.top_level_item_ids().is_empty());
    assert_eq!(ir.current_target, CURRENT);
}

/// A small generator of numbers that gives the same numbers on every run.
struct Numbers(u64);

impl Numbers {
    fn next(&mut self, below: usize) -> usize {
        self.0 = self.0.wrapping_mul(6364136223846793005).wrapping_add(1442695040888963407);
        ((self.0 >> 33) as usize) % below.max(1)
    }
}

fn some_type(n: &mut Numbers, types: &[usize], depth: usize) -> NativeType {
    match n.next(if depth > 2 { 3 } else { 6 }) {
        0 => int_type(),
        1 if !types.is_empty() => {
            let d = types[n.next(types.len())];
            plain(TypeShape::Declared(d), "T")
        }
        2 => {
            let mut t = int_type();
            t.is_volatile = n.next(4) == 0;
            t
        }
        3 => plain(TypeShape::Pointer(Box::new(some_type(n, types, depth + 1))), "T *"),
        4 => {
            let mut t =
                plain(TypeShape::LValueReference(Box::new(some_type(n, types, depth + 1))), "T &");
            t.lifetime = Some(LifetimeId(1));
            t
        }
        _ => plain(TypeShape::Other, "T[]"),
    }
}

fn some_unit(seed: u64) -> DeclGraph {
    let mut n = Numbers(seed);
    let mut decls: Vec<Decl> = Vec::new();
    let mut scopes: Vec<usize> = Vec::new();
    let mut records: Vec<usize> = Vec::new();
    let mut types: Vec<usize> = Vec::new();
    let mut next_offset: Vec<usize> = Vec::new();
    let count = 5 + n.next(40);
    for i in 0..count {
        let parent = if scopes.is_empty() || n.next(3) == 0 {
            None
        } else {
            Some(scopes[n.next(scopes.len())])
        };
        next_offset.push(0);
        let in_record = parent.map(|p| records.contains(&p)).unwrap_or(false);
        let kind = match n.next(9) {
            0 => {
                scopes.push(i);
                DeclKind::Namespace { name: format!("n{i}") }
            }
            1 | 2 => {
                scopes.push(i);
                records.push(i);
                types.push(i);
                let tag = [RecordTag::Struct, RecordTag::Class, RecordTag::Union][n.next(3)];
                let mut r = record(&format!("R{i}"), tag, 64, i);
                if let DeclKind::Record(r) = &mut r {
                    if n.next(4) == 0 {
                        r.specialization = Some(format!("{i}R"));
                    }
                    if n.next(5) == 0 {
                        r.definition = None;
                        r.is_definition = false;
                    }
                }
                r
            }
            3 if in_record => {
                let p = parent.unwrap();
                let offset = next_offset[p];
                next_offset[p] += 8;
                let union = matches!(&decls[p].kind, DeclKind::Record(r) if r.tag == RecordTag::Union);
                field(&format!("f{i}"), some_type(&mut n, &types, 0), if union { 0 } else { offset }, 8)
            }
            4 if in_record => DeclKind::AccessLabel(
                [AccessSpecifier::Public, AccessSpecifier::Protected, AccessSpecifier::Private]
                    [n.next(3)],
            ),
            5 => {
                types.push(i);
                let underlying = some_type(&mut n, &types[..types.len() - 1], 0);
                DeclKind::TypeAlias { name: format!("A{i}"), underlying }
            }
            6 => DeclKind::Comment { text: format!("// c{i}\n// NOLINT") },
            7 => {
                scopes.push(i);
                let mut f = function(
                    &format!("g{i}"),
                    some_type(&mut n, &types, 0),
                    vec![ParamDecl { name: None, ty: some_type(&mut n, &types, 0) }],
                );
                if let DeclKind::Function(f) = &mut f {
                    if !records.is_empty() {
                        f.instantiates = vec![records[n.next(records.len())]];
                    }
                }
                f
            }
            _ => function(&format!("h{i}"), int_type(), vec![]),
        };
        let mut d = decl(parent, i, kind);
        if n.next(4) == 0 {
            d.owning_target = "//other:target".to_string();
        }
        decls.push(d);
    }
    DeclGraph { decls, current_target: CURRENT.to_string() }
}

fn declared_ids(t: &MappedType, out: &mut Vec<ItemId>) {
    fn rs(t: &binding_ir::ir::RsType, out: &mut Vec<ItemId>) {
        out.extend(t.decl_id);
        t.type_args.iter().for_each(|a| rs(a, out));
    }
    fn cc(t: &binding_ir::ir::CcType, out: &mut Vec<ItemId>) {
        out.extend(t.decl_id);
        t.type_args.iter().for_each(|a| cc(a, out));
    }
    rs(&t.rs_type, out);
    cc(&t.cc_type, out);
}

// Whatever the unit, the graph is in order: identities are distinct, what is
// listed is there, no reference dangles, and building again changes nothing.
#[test]
fn units_of_any_shape_give_graphs_in_order() {
    let mut built = 0;
    for seed in 0..300 {
        let unit = some_unit(seed);
        let ir = match build_ir(&unit) {
            Ok(ir) => ir,
            Err(e) => panic!("unit {seed} was refused: {e:?}"),
        };
        built += 1;
        assert_eq!(Ok(&ir), build_ir(&unit).as_ref());
        let ids: Vec<ItemId> = ir.items.iter().map(item_id).collect();
        for (i, a) in ids.iter().enumerate() {
            assert_ne!(*a, ItemId(0));
            assert!(!ids[i + 1..].contains(a));
        }
        let mut listed: Vec<ItemId> = ir.top_level_item_ids().clone();
        let mut referred = Vec::new();
        for item in &ir.items {
            match item {
                Item::Record(r) => {
                    listed.extend(r.child_item_ids.iter());
                    r.fields.iter().for_each(|f| declared_ids(&f.type_, &mut referred));
                    referred.extend(r.unambiguous_public_bases.iter().map(|b| b.base_record_id));
                }
                Item::Namespace(n) => listed.extend(n.child_item_ids.iter()),
                Item::Func(f) => {
                    declared_ids(&f.return_type, &mut referred);
                    f.params.iter().for_each(|p| declared_ids(&p.type_, &mut referred));
                    assert_eq!(f.owning_target, CURRENT);
                }
                Item::TypeAlias(a) => declared_ids(&a.underlying_type, &mut referred),
                Item::UnsupportedItem(u) => assert!(!u.message.is_empty()),
                _ => {}
            }
        }
        for id in &listed {
            assert!(ids.contains(id));
        }
        for (d, decl) in unit.decls.iter().enumerate() {
            assert_eq!(ir.item_of_decl(d), ir.item_of_decl(decl.canonical));
            if let Some(id) = ir.item_of_decl(d) {
                assert_eq!(id, ItemId(decl.canonical + 1));
                assert!(ids.contains(&id));
            }
        }
        assert!(ir.is_current_target(&CURRENT.to_string()));
        assert!(!ir.is_current_target(&"//other:target".to_string()));
        // What stands inside a record without bindings is listed nowhere.
        assert!(listed.len() <= ids.len());
        for (i, a) in listed.iter().enumerate() {
            assert!(!listed[i + 1..].contains(a));
        }
        for id in &referred {
            match ir.find_decl(*id) {
                Some(Item::Record(_))
                | Some(Item::IncompleteRecord(_))
                | Some(Item::TypeAlias(_))
                | Some(Item::Enum(_)) => {}
                other => panic!("unit {seed}: reference to {other:?}"),
            }
        }
    }
    assert_eq!(built, 300);
}
