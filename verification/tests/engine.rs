use protobuf::{UnknownFields, UnknownValueRef};
use protoxy::comments2option::{
    comments2option, document_file, insert_comment, select_comment, DescriptionIds,
};
use protoxy::descriptor::{
    EnumDescriptor, EnumValueDescriptor, FieldDescriptor, FileDescriptor, FileDescriptorSet,
    Location, MessageDescriptor, MethodDescriptor, OneofDescriptor, ServiceDescriptor,
};
use protoxy::path_resolver::{EntityKind, PathedDescriptor};

fn field(name: &str) -> FieldDescriptor {
    FieldDescriptor { name: name.to_string(), unknown_fields: UnknownFields::new() }
}

fn message(name: &str, fields: Vec<FieldDescriptor>) -> MessageDescriptor {
    MessageDescriptor {
        name: name.to_string(),
        field: fields,
        enum_type: Vec::new(),
        nested_type: Vec::new(),
        oneof_decl: Vec::new(),
        unknown_fields: UnknownFields::new(),
    }
}

fn leading(path: &[i32], text: &str) -> Location {
    Location {
        path: path.to_vec(),
        leading_comments: Some(text.to_string()),
        trailing_comments: None,
    }
}

fn trailing(path: &[i32], text: &str) -> Location {
    Location {
        path: path.to_vec(),
        leading_comments: None,
        trailing_comments: Some(text.to_string()),
    }
}

fn no_ids() -> DescriptionIds {
    DescriptionIds::default()
}

fn order_file(name: &str, location: Vec<Location>) -> FileDescriptor {
    FileDescriptor {
        name: name.to_string(),
        package: Some("shop".to_string()),
        dependency: Vec::new(),
        message_type: vec![message("Order", vec![field("id")])],
        enum_type: Vec::new(),
        service: Vec::new(),
        extension: Vec::new(),
        location,
    }
}

fn full_file(location: Vec<Location>) -> FileDescriptor {
    let mut outer = message("Outer", vec![field("a")]);
    outer.oneof_decl.push(OneofDescriptor {
        name: "choice".to_string(),
        unknown_fields: UnknownFields::new(),
    });
    FileDescriptor {
        name: "full.proto".to_string(),
        package: None,
        dependency: vec!["google/protobuf/any.proto".to_string()],
        message_type: vec![outer],
        enum_type: vec![EnumDescriptor {
            name: "Color".to_string(),
            value: vec![EnumValueDescriptor {
                name: "RED".to_string(),
                number: 0,
                unknown_fields: UnknownFields::new(),
            }],
            unknown_fields: UnknownFields::new(),
        }],
        service: vec![ServiceDescriptor {
            name: "Greeter".to_string(),
            method: vec![MethodDescriptor {
                name: "hello".to_string(),
                unknown_fields: UnknownFields::new(),
            }],
            unknown_fields: UnknownFields::new(),
        }],
        extension: vec![field("ext")],
        location,
    }
}

fn entries(store: &UnknownFields) -> Vec<(u32, Vec<u8>)> {
    let mut all: Vec<(u32, Vec<u8>)> = store
        .iter()
        .map(|(number, value)| match value {
            UnknownValueRef::LengthDelimited(bytes) => (number, bytes.to_vec()),
            other => panic!("unexpected unknown value {:?}", other),
        })
        .collect();
    all.sort_by_key(|(number, _)| *number);
    all
}

fn one_file(file: FileDescriptor, ids: &DescriptionIds) -> FileDescriptor {
    let set = FileDescriptorSet { file: vec![file] };
    let mut out = comments2option(set, ids);
    assert_eq!(out.file.len(), 1);
    out.file.remove(0)
}

#[test]
fn order_identifier_round_trip() {
    let file = order_file("order.proto", vec![leading(&[4, 0, 2, 0], "Order identifier.")]);
    let mut ids = no_ids();
    ids.field = Some(50000);
    let out = one_file(file, &ids);
    assert_eq!(
        entries(&out.message_type[0].field[0].unknown_fields),
        vec![(50000, b"Order identifier.".to_vec())]
    );
    assert_eq!(entries(&out.message_type[0].unknown_fields), vec![]);
    assert_eq!(out.name, "order.proto");
    assert_eq!(out.location, vec![leading(&[4, 0, 2, 0], "Order identifier.")]);
}

#[test]
fn reserved_files_are_not_touched() {
    let locations = vec![leading(&[4, 0, 2, 0], "doc"), leading(&[4, 0], "doc")];
    let mut ids = no_ids();
    ids.field = Some(1);
    ids.message = Some(2);
    let out = one_file(order_file("google/protobuf/any.proto", locations.clone()), &ids);
    assert_eq!(out, order_file("google/protobuf/any.proto", locations.clone()));
    let out = one_file(order_file("googleapis.proto", locations.clone()), &ids);
    assert_eq!(out, order_file("googleapis.proto", locations.clone()));
    let out = one_file(order_file("my/google.proto", locations.clone()), &ids);
    assert_ne!(out, order_file("my/google.proto", locations));
}

#[test]
fn only_unreserved_files_of_a_set_change() {
    let locations = vec![leading(&[4, 0], "doc")];
    let mut ids = no_ids();
    ids.message = Some(7);
    let set = FileDescriptorSet {
        file: vec![
            order_file("a.proto", locations.clone()),
            order_file("google/x.proto", locations.clone()),
            order_file("b.proto", locations.clone()),
        ],
    };
    let out = comments2option(set, &ids);
    assert_eq!(out.file.len(), 3);
    assert_eq!(entries(&out.file[0].message_type[0].unknown_fields), vec![(7, b"doc".to_vec())]);
    assert_eq!(out.file[1], order_file("google/x.proto", locations));
    assert_eq!(entries(&out.file[2].message_type[0].unknown_fields), vec![(7, b"doc".to_vec())]);
}

#[test]
fn empty_set_stays_empty() {
    let out = comments2option(FileDescriptorSet { file: Vec::new() }, &no_ids());
    assert!(out.file.is_empty());
}

#[test]
fn leading_comment_wins_over_trailing() {
    let loc = Location {
        path: vec![4, 0, 2, 0],
        leading_comments: Some(" lead ".to_string()),
        trailing_comments: Some("trail".to_string()),
    };
    let mut ids = no_ids();
    ids.field = Some(9);
    let out = one_file(order_file("x.proto", vec![loc]), &ids);
    assert_eq!(entries(&out.message_type[0].field[0].unknown_fields), vec![(9, b"lead".to_vec())]);
}

#[test]
fn blank_leading_comment_hides_the_trailing_one() {
    let loc = Location {
        path: vec![4, 0, 2, 0],
        leading_comments: Some("  ".to_string()),
        trailing_comments: Some("trail".to_string()),
    };
    let mut ids = no_ids();
    ids.field = Some(9);
    let out = one_file(order_file("x.proto", vec![loc]), &ids);
    assert_eq!(entries(&out.message_type[0].field[0].unknown_fields), vec![]);
}

#[test]
fn trailing_comment_is_used_without_a_leading_one() {
    let mut ids = no_ids();
    ids.field = Some(9);
    let out = one_file(order_file("x.proto", vec![trailing(&[4, 0, 2, 0], "\ttrail\n")]), &ids);
    assert_eq!(entries(&out.message_type[0].field[0].unknown_fields), vec![(9, b"trail".to_vec())]);
}

#[test]
fn blank_comments_attach_nothing() {
    let mut ids = no_ids();
    ids.field = Some(9);
    for text in ["   ", "", "\n\t", "\u{a0}"] {
        let input = order_file("x.proto", vec![leading(&[4, 0, 2, 0], text)]);
        let out = one_file(input, &ids);
        assert_eq!(out, order_file("x.proto", vec![leading(&[4, 0, 2, 0], text)]));
        let input = order_file("x.proto", vec![trailing(&[4, 0, 2, 0], text)]);
        let out = one_file(input, &ids);
        assert_eq!(out, order_file("x.proto", vec![trailing(&[4, 0, 2, 0], text)]));
    }
}

#[test]
fn location_without_comment_attaches_nothing() {
    let loc = Location { path: vec![4, 0, 2, 0], leading_comments: None, trailing_comments: None };
    let mut ids = no_ids();
    ids.field = Some(9);
    let out = one_file(order_file("x.proto", vec![loc.clone()]), &ids);
    assert_eq!(out, order_file("x.proto", vec![loc]));
}

#[test]
fn without_numbers_nothing_changes() {
    let locations = vec![
        leading(&[4, 0], "message"),
        leading(&[4, 0, 2, 0], "field"),
        leading(&[4, 0, 8, 0], "oneof"),
        leading(&[5, 0], "enum"),
        leading(&[5, 0, 2, 0], "value"),
        leading(&[6, 0], "service"),
        leading(&[6, 0, 2, 0], "method"),
        leading(&[7, 0], "extension"),
    ];
    let out = one_file(full_file(locations.clone()), &no_ids());
    assert_eq!(out, full_file(locations));
}

#[test]
fn each_kind_uses_its_own_number() {
    let locations = vec![
        leading(&[4, 0], "message"),
        leading(&[4, 0, 2, 0], "field"),
        leading(&[4, 0, 8, 0], "oneof"),
        leading(&[5, 0], "enum"),
        leading(&[5, 0, 2, 0], "value"),
        leading(&[6, 0], "service"),
        leading(&[6, 0, 2, 0], "method"),
        leading(&[7, 0], "extension"),
    ];
    let ids = DescriptionIds {
        file: Some(100),
        message: Some(101),
        enum_: Some(102),
        service: Some(103),
        method: Some(104),
        field: Some(105),
        enum_value: Some(106),
        extension: Some(107),
        oneof: Some(108),
    };
    let out = one_file(full_file(locations), &ids);
    assert_eq!(entries(&out.message_type[0].unknown_fields), vec![(101, b"message".to_vec())]);
    assert_eq!(
        entries(&out.message_type[0].field[0].unknown_fields),
        vec![(105, b"field".to_vec())]
    );
    assert_eq!(
        entries(&out.message_type[0].oneof_decl[0].unknown_fields),
        vec![(108, b"oneof".to_vec())]
    );
    assert_eq!(entries(&out.enum_type[0].unknown_fields), vec![(102, b"enum".to_vec())]);
    assert_eq!(entries(&out.enum_type[0].value[0].unknown_fields), vec![(106, b"value".to_vec())]);
    assert_eq!(entries(&out.service[0].unknown_fields), vec![(103, b"service".to_vec())]);
    assert_eq!(
        entries(&out.service[0].method[0].unknown_fields),
        vec![(104, b"method".to_vec())]
    );
    assert_eq!(entries(&out.extension[0].unknown_fields), vec![(107, b"extension".to_vec())]);
}

#[test]
fn unconfigured_kinds_are_dropped() {
    let locations = vec![leading(&[4, 0], "message"), leading(&[4, 0, 2, 0], "field")];
    let mut ids = no_ids();
    ids.message = Some(5);
    let out = one_file(order_file("x.proto", locations), &ids);
    assert_eq!(entries(&out.message_type[0].unknown_fields), vec![(5, b"message".to_vec())]);
    assert_eq!(entries(&out.message_type[0].field[0].unknown_fields), vec![]);
}

#[test]
fn unresolved_paths_are_skipped() {
    let locations = vec![
        leading(&[2], "package"),
        leading(&[12], "syntax"),
        leading(&[], "whole file"),
        leading(&[4, 3], "no such message"),
        leading(&[4, 0, 2, 0, 1], "field name"),
        leading(&[4, 0, 2, 0], "kept"),
    ];
    let mut ids = no_ids();
    ids.field = Some(3);
    ids.message = Some(4);
    let out = one_file(order_file("x.proto", locations), &ids);
    assert_eq!(entries(&out.message_type[0].field[0].unknown_fields), vec![(3, b"kept".to_vec())]);
    assert_eq!(entries(&out.message_type[0].unknown_fields), vec![]);
}

#[test]
fn repeated_comments_accumulate() {
    let locations = vec![
        leading(&[4, 0, 2, 0], "first"),
        trailing(&[4, 0, 2, 0], "second"),
        leading(&[4, 0, 2, 0], "first"),
    ];
    let mut ids = no_ids();
    ids.field = Some(3);
    let out = one_file(order_file("x.proto", locations), &ids);
    let store = &out.message_type[0].field[0].unknown_fields;
    let got: Vec<(u32, Vec<u8>)> = store
        .iter()
        .map(|(n, v)| match v {
            UnknownValueRef::LengthDelimited(b) => (n, b.to_vec()),
            other => panic!("unexpected unknown value {:?}", other),
        })
        .collect();
    assert_eq!(
        got,
        vec![(3, b"first".to_vec()), (3, b"second".to_vec()), (3, b"first".to_vec())]
    );
}

#[test]
fn earlier_unknown_fields_are_kept() {
    let mut file = order_file("x.proto", vec![leading(&[4, 0, 2, 0], "doc")]);
    file.message_type[0].field[0].unknown_fields.add_length_delimited(8, b"old".to_vec());
    file.message_type[0].field[0].unknown_fields.add_varint(9, 77);
    let mut ids = no_ids();
    ids.field = Some(8);
    let out = one_file(file, &ids);
    let store = &out.message_type[0].field[0].unknown_fields;
    let under_8: Vec<Vec<u8>> = store
        .iter()
        .filter_map(|(n, v)| match v {
            UnknownValueRef::LengthDelimited(b) if n == 8 => Some(b.to_vec()),
            _ => None,
        })
        .collect();
    assert_eq!(under_8, vec![b"old".to_vec(), b"doc".to_vec()]);
    assert_eq!(store.get(9), Some(UnknownValueRef::Varint(77)));
}

#[test]
fn comment_bytes_are_utf8() {
    let mut ids = no_ids();
    ids.message = Some(1);
    let file = order_file("x.proto", vec![leading(&[4, 0], " h\u{e9}llo \u{1f600} ")]);
    let out = one_file(file, &ids);
    assert_eq!(
        entries(&out.message_type[0].unknown_fields),
        vec![(1, "h\u{e9}llo \u{1f600}".as_bytes().to_vec())]
    );
}

#[test]
fn extension_comment_is_attached_despite_longer_path() {
    let mut ids = no_ids();
    ids.extension = Some(11);
    ids.field = Some(12);
    let out = one_file(full_file(vec![leading(&[7, 0, 2, 0], "ext doc")]), &ids);
    assert_eq!(entries(&out.extension[0].unknown_fields), vec![(11, b"ext doc".to_vec())]);
}

#[test]
fn document_file_changes_the_file_in_place() {
    let mut file = order_file("x.proto", vec![leading(&[4, 0], "doc")]);
    let mut ids = no_ids();
    ids.message = Some(2);
    document_file(&mut file, &ids);
    assert_eq!(entries(&file.message_type[0].unknown_fields), vec![(2, b"doc".to_vec())]);
}

#[test]
fn insert_comment_stores_under_the_number_of_the_kind() {
    let mut f = field("f");
    let mut ids = no_ids();
    ids.field = Some(4);
    ids.extension = Some(5);
    insert_comment(PathedDescriptor::Field(&mut f), "as field".to_string(), &ids);
    insert_comment(PathedDescriptor::Extension(&mut f), "as extension".to_string(), &ids);
    assert_eq!(
        entries(&f.unknown_fields),
        vec![(4, b"as field".to_vec()), (5, b"as extension".to_vec())]
    );
}

#[test]
fn insert_comment_without_number_does_nothing() {
    let mut m = message("M", vec![]);
    let mut ids = no_ids();
    ids.field = Some(4);
    insert_comment(PathedDescriptor::Message(&mut m), "doc".to_string(), &ids);
    assert_eq!(m, message("M", vec![]));
}

#[test]
fn select_comment_trims_and_prefers_leading() {
    let both = Location {
        path: vec![],
        leading_comments: Some(" a ".to_string()),
        trailing_comments: Some(" b ".to_string()),
    };
    assert_eq!(select_comment(&both), Some("a".to_string()));
    assert_eq!(select_comment(&trailing(&[], " b ")), Some("b".to_string()));
    assert_eq!(select_comment(&leading(&[], "  ")), None);
    assert_eq!(select_comment(&leading(&[], "")), None);
    let none = Location { path: vec![], leading_comments: None, trailing_comments: None };
    assert_eq!(select_comment(&none), None);
}

#[test]
fn default_ids_have_no_number() {
    let ids = DescriptionIds::default();
    for kind in [
        EntityKind::File,
        EntityKind::Message,
        EntityKind::Enum,
        EntityKind::Service,
        EntityKind::Method,
        EntityKind::Field,
        EntityKind::EnumValue,
        EntityKind::Extension,
        EntityKind::Oneof,
    ] {
        assert_eq!(ids.get(kind), None);
    }
}

#[test]
fn assign_reads_configuration_entries() {
    let mut ids = DescriptionIds::default();
    ids.assign("file", 1);
    ids.assign("message", 2);
    ids.assign("enum", 3);
    ids.assign("service", 4);
    ids.assign("method", 5);
    ids.assign("field", 6);
    ids.assign("enum_value", 7);
    ids.assign("extension", 8);
    ids.assign("oneof", 9);
    assert_eq!(ids.file, Some(1));
    assert_eq!(ids.message, Some(2));
    assert_eq!(ids.enum_, Some(3));
    assert_eq!(ids.service, Some(4));
    assert_eq!(ids.method, Some(5));
    assert_eq!(ids.field, Some(6));
    assert_eq!(ids.enum_value, Some(7));
    assert_eq!(ids.extension, Some(8));
    assert_eq!(ids.oneof, Some(9));
}

#[test]
fn assign_ignores_unknown_names() {
    let mut ids = DescriptionIds::default();
    ids.assign("comment", 1);
    ids.assign("enum_", 2);
    ids.assign("", 3);
    for kind in [EntityKind::File, EntityKind::Enum, EntityKind::Field] {
        assert_eq!(ids.get(kind), None);
    }
}

#[test]
fn set_overwrites_the_number_of_one_kind() {
    let mut ids = DescriptionIds::default();
    ids.set(EntityKind::Field, 1);
    ids.set(EntityKind::Field, 2);
    assert_eq!(ids.get(EntityKind::Field), Some(2));
    assert_eq!(ids.get(EntityKind::Message), None);
}

#[test]
fn attaching_changes_only_the_stores() {
    let locations = vec![
        leading(&[4, 0], "message"),
        leading(&[4, 0, 2, 0], "field"),
        leading(&[4, 0, 8, 0], "oneof"),
        leading(&[5, 0], "enum"),
        leading(&[5, 0, 2, 0], "value"),
        leading(&[6, 0], "service"),
        leading(&[6, 0, 2, 0], "method"),
        leading(&[7, 0], "extension"),
    ];
    let ids = DescriptionIds {
        file: Some(1),
        message: Some(2),
        enum_: Some(3),
        service: Some(4),
        method: Some(5),
        field: Some(6),
        enum_value: Some(7),
        extension: Some(8),
        oneof: Some(9),
    };
    let mut out = one_file(full_file(locations.clone()), &ids);
    assert_ne!(out, full_file(locations.clone()));
    out.message_type[0].unknown_fields.clear();
    out.message_type[0].field[0].unknown_fields.clear();
    out.message_type[0].oneof_decl[0].unknown_fields.clear();
    out.enum_type[0].unknown_fields.clear();
    out.enum_type[0].value[0].unknown_fields.clear();
    out.service[0].unknown_fields.clear();
    out.service[0].method[0].unknown_fields.clear();
    out.extension[0].unknown_fields.clear();
    let bare = full_file(locations);
    assert_eq!(out.name, bare.name);
    assert_eq!(out.package, bare.package);
    assert_eq!(out.dependency, bare.dependency);
    assert_eq!(out.location, bare.location);
    assert_eq!(out.message_type[0].name, "Outer");
    assert_eq!(out.message_type[0].field[0].name, "a");
    assert_eq!(out.message_type[0].oneof_decl[0].name, "choice");
    assert_eq!(out.enum_type[0].value[0].name, "RED");
    assert_eq!(out.enum_type[0].value[0].number, 0);
    assert_eq!(out.service[0].method[0].name, "hello");
    assert_eq!(out.extension[0].name, "ext");
    assert_eq!(out.message_type.len(), 1);
    assert_eq!(out.message_type[0].field.len(), 1);
    assert!(out.message_type[0].unknown_fields.iter().next().is_none());
}
