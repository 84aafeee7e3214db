use binding_ir::assemble::build_ir;
use binding_ir::decl::{
    Builtin, Decl, DeclGraph, DeclKind, FieldDecl, NativeType, RecordDecl, RecordTag,
    SpecialMemberFacts, TypeShape,
};
use binding_ir::ir::Record;
use binding_ir::samples::{Bar, Foo, HasNoComments, SomeOtherStruct, SomeStruct, S};

const TARGET: &str = "//test:samples";

fn int_type() -> NativeType {
    NativeType {
        spelling: "int".to_string(),
        is_const: false,
        is_volatile: false,
        lifetime: None,
        shape: TypeShape::Builtin(Builtin::Int),
    }
}

/// `struct <name> { int <fields>...; };` with the comments given.
fn unit(name: &str, comment: Option<&str>, fields: &[(&str, Option<&str>)]) -> DeclGraph {
    let trivial = SpecialMemberFacts { is_deleted: false, is_trivial: true, declared_access: None };
    let size = if fields.is_empty() { 1 } else { 4 * fields.len() };
    let alignment = if fields.is_empty() { 1 } else { 4 };
    let mut decls = vec![Decl {
        canonical: 0,
        parent: None,
        owning_target: TARGET.to_string(),
        doc_comment: comment.map(|c| c.to_string()),
        kind: DeclKind::Record(RecordDecl {
            name: name.to_string(),
            tag: RecordTag::Struct,
            is_definition: true,
            definition: Some(0),
            specialization: None,
            is_injected_class_name: false,
            size,
            alignment,
            explicit_alignment: None,
            natural_alignment: alignment,
            bases: Vec::new(),
            copy_constructor: trivial,
            move_constructor: trivial,
            destructor: trivial,
        }),
    }];
    for (i, (field, comment)) in fields.iter().enumerate() {
        decls.push(Decl {
            canonical: i + 1,
            parent: Some(0),
            owning_target: TARGET.to_string(),
            doc_comment: comment.map(|c| c.to_string()),
            kind: DeclKind::Field(FieldDecl {
                name: Some(field.to_string()),
                ty: int_type(),
                offset: 32 * i,
                size: 32,
            }),
        });
    }
    DeclGraph { decls, current_target: TARGET.to_string() }
}

fn check<T>(record: &Record, fields: &[&str]) {
    assert_eq!(record.size, std::mem::size_of::<T>());
    assert_eq!(record.alignment, std::mem::align_of::<T>());
    let names: Vec<&str> =
        record.fields.iter().map(|f| f.identifier.as_ref().unwrap().identifier.as_str()).collect();
    assert_eq!(names, fields);
    for f in &record.fields {
        assert_eq!(f.type_.rs_type.name.as_deref(), Some("i32"));
    }
}

#[test]
fn foo_is_laid_out_as_its_record() {
    let ir =
        build_ir(&unit("Foo", Some("// Foo"), &[("i", Some("// A field")), ("j", Some("/// Another field"))]))
            .unwrap();
    let record = ir.records()[0];
    check::<Foo>(record, &["i", "j"]);
    assert_eq!(record.doc_comment.as_deref(), Some("Foo"));
    assert_eq!(record.fields[0].doc_comment.as_deref(), Some("A field"));
    assert_eq!(record.fields[1].doc_comment.as_deref(), Some("Another field"));
    let value = Foo { i: 1, j: 2 };
    assert_eq!((value.i, value.j), (1, 2));
}

#[test]
fn bar_is_laid_out_as_its_record() {
    let ir = build_ir(&unit("Bar", Some("// Bar"), &[("i", None)])).unwrap();
    check::<Bar>(ir.records()[0], &["i"]);
    assert_eq!(ir.records()[0].doc_comment.as_deref(), Some("Bar"));
    assert_eq!(Bar { i: 3 }.i, 3);
}

#[test]
fn has_no_comments_has_no_comments() {
    let ir = build_ir(&unit("HasNoComments", None, &[("i", None)])).unwrap();
    let record = ir.records()[0];
    check::<HasNoComments>(record, &["i"]);
    assert_eq!(record.doc_comment, None);
    assert_eq!(record.fields[0].doc_comment, None);
    assert_eq!(HasNoComments { i: 4 }.i, 4);
}

#[test]
fn empty_records_take_one_byte() {
    let ir = build_ir(&unit("S", None, &[])).unwrap();
    check::<S>(ir.records()[0], &[]);
    let ir = build_ir(&unit("SomeStruct", None, &[])).unwrap();
    check::<SomeStruct>(ir.records()[0], &[]);
    let ir = build_ir(&unit("SomeOtherStruct", None, &[])).unwrap();
    check::<SomeOtherStruct>(ir.records()[0], &[]);
    assert_eq!(S { placeholder: 0 }.placeholder, 0);
}
