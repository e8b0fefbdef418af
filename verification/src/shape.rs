//! The shape of a tree: what is left of it when every unknown-field store
//! is emptied. Attaching comments keeps the shape.

use crate::comments2option::DescriptionIds;
use crate::descriptor::{
    EnumValueView, EnumView, FieldView, FileDescriptorSetView, FileView, LocationView,
    MessageView, MethodView, OneofView, ServiceView,
};
use crate::path_resolver::NodeView;
use crate::tag::{
    FILE_ENUM_TYPE, FILE_MESSAGE_TYPE, FILE_SERVICE, MESSAGE_ENUM_TYPE, MESSAGE_FIELD,
    MESSAGE_NESTED_TYPE,
};
use vstd::prelude::*;

verus! {

/// A field without what its options hold.
pub open spec fn bare_field(f: FieldView) -> FieldView {
    FieldView { unknown_fields: Map::empty(), ..f }
}

/// A method without what its options hold.
pub open spec fn bare_method(m: MethodView) -> MethodView {
    MethodView { unknown_fields: Map::empty(), ..m }
}

/// An enum value without what its options hold.
pub open spec fn bare_value(v: EnumValueView) -> EnumValueView {
    EnumValueView { unknown_fields: Map::empty(), ..v }
}

/// A oneof without what its options hold.
pub open spec fn bare_oneof(o: OneofView) -> OneofView {
    OneofView { unknown_fields: Map::empty(), ..o }
}

/// An enum without what its options and those of its values hold.
pub open spec fn bare_enum(e: EnumView) -> EnumView {
    EnumView {
        value: Seq::new(e.value.len(), |i: int| bare_value(e.value[i])),
        unknown_fields: Map::empty(),
        ..e
    }
}

/// A service without what its options and those of its methods hold.
pub open spec fn bare_service(s: ServiceView) -> ServiceView {
    ServiceView {
        method: Seq::new(s.method.len(), |i: int| bare_method(s.method[i])),
        unknown_fields: Map::empty(),
        ..s
    }
}

/// A message without what its options hold, nor those of any declaration
/// inside it.
pub open spec fn bare_message(m: MessageView) -> MessageView
    decreases m,
{
    MessageView {
        field: Seq::new(m.field.len(), |i: int| bare_field(m.field[i])),
        enum_type: Seq::new(m.enum_type.len(), |i: int| bare_enum(m.enum_type[i])),
        nested_type: Seq::new(
            m.nested_type.len(),
            |i: int|
                if 0 <= i < m.nested_type.len() {
                    bare_message(m.nested_type[i])
                } else {
                    arbitrary()
                },
        ),
        oneof_decl: Seq::new(m.oneof_decl.len(), |i: int| bare_oneof(m.oneof_decl[i])),
        unknown_fields: Map::empty(),
        ..m
    }
}

/// A file without what the options of any of its declarations hold.
pub open spec fn bare_file(file: FileView) -> FileView {
    FileView {
        message_type: Seq::new(
            file.message_type.len(),
            |i: int| bare_message(file.message_type[i]),
        ),
        enum_type: Seq::new(file.enum_type.len(), |i: int| bare_enum(file.enum_type[i])),
        service: Seq::new(file.service.len(), |i: int| bare_service(file.service[i])),
        extension: Seq::new(file.extension.len(), |i: int| bare_field(file.extension[i])),
        ..file
    }
}

/// A set without what the options of any of its declarations hold.
pub open spec fn bare_set(set: FileDescriptorSetView) -> FileDescriptorSetView {
    FileDescriptorSetView { file: Seq::new(set.file.len(), |i: int| bare_file(set.file[i])) }
}

/// A declaration without what the options of it, or of any declaration
/// inside it, hold.
pub open spec fn bare_node(node: NodeView) -> NodeView {
    match node {
        NodeView::Message(m) => NodeView::Message(bare_message(m)),
        NodeView::Enum(e) => NodeView::Enum(bare_enum(e)),
        NodeView::Service(s) => NodeView::Service(bare_service(s)),
        NodeView::Method(m) => NodeView::Method(bare_method(m)),
        NodeView::Field(f) => NodeView::Field(bare_field(f)),
        NodeView::EnumValue(v) => NodeView::EnumValue(bare_value(v)),
        NodeView::Extension(f) => NodeView::Extension(bare_field(f)),
        NodeView::Oneof(o) => NodeView::Oneof(bare_oneof(o)),
    }
}

/// Replacing a declaration of an enum by one of the same shape keeps the
/// shape of the enum.
pub proof fn lemma_enum_keeps_shape(e: EnumView, path: Seq<i32>, node: NodeView)
    requires
        e.child_at(path) matches Some(before) && bare_node(before) == bare_node(node),
    ensures
        bare_enum(e.with_child(path, Some(node))) == bare_enum(e),
{
    assert(bare_enum(e.with_child(path, Some(node))).value =~= bare_enum(e).value);
}

/// Replacing a declaration of a service by one of the same shape keeps the
/// shape of the service.
pub proof fn lemma_service_keeps_shape(s: ServiceView, path: Seq<i32>, node: NodeView)
    requires
        s.child_at(path) matches Some(before) && bare_node(before) == bare_node(node),
    ensures
        bare_service(s.with_child(path, Some(node))) == bare_service(s),
{
    assert(bare_service(s.with_child(path, Some(node))).method =~= bare_service(s).method);
}

/// Replacing a declaration of a message by one of the same shape keeps the
/// shape of the message.
pub proof fn lemma_message_keeps_shape(m: MessageView, path: Seq<i32>, node: NodeView)
    requires
        m.child_at(path) matches Some(before) && bare_node(before) == bare_node(node),
    ensures
        bare_message(m.with_child(path, Some(node))) == bare_message(m),
    decreases path.len(),
{
    let tag = path[0];
    let idx = path[1] as int;
    let rest = path.subrange(2, path.len() as int);
    let after = m.with_child(path, Some(node));
    if rest.len() > 0 {
        if tag == MESSAGE_ENUM_TYPE {
            lemma_enum_keeps_shape(m.enum_type[idx], rest, node);
        } else if tag == MESSAGE_NESTED_TYPE {
            lemma_message_keeps_shape(m.nested_type[idx], rest, node);
        }
    }
    assert(bare_message(after).field =~= bare_message(m).field);
    assert(bare_message(after).enum_type =~= bare_message(m).enum_type);
    assert(bare_message(after).nested_type =~= bare_message(m).nested_type);
    assert(bare_message(after).oneof_decl =~= bare_message(m).oneof_decl);
}

/// Replacing a declaration of a file by one of the same shape keeps the
/// shape of the file.
pub proof fn lemma_file_keeps_shape(file: FileView, path: Seq<i32>, node: NodeView)
    requires
        file.child_at(path) matches Some(before) && bare_node(before) == bare_node(node),
    ensures
        bare_file(file.with_child(path, Some(node))) == bare_file(file),
{
    let tag = path[0];
    let idx = path[1] as int;
    let rest = path.subrange(2, path.len() as int);
    let after = file.with_child(path, Some(node));
    if rest.len() > 0 {
        if tag == FILE_MESSAGE_TYPE {
            lemma_message_keeps_shape(file.message_type[idx], rest, node);
        } else if tag == FILE_ENUM_TYPE {
            lemma_enum_keeps_shape(file.enum_type[idx], rest, node);
        } else if tag == FILE_SERVICE {
            lemma_service_keeps_shape(file.service[idx], rest, node);
        }
    }
    assert(bare_file(after).message_type =~= bare_file(file).message_type);
    assert(bare_file(after).enum_type =~= bare_file(file).enum_type);
    assert(bare_file(after).service =~= bare_file(file).service);
    assert(bare_file(after).extension =~= bare_file(file).extension);
}

/// Taking a comment changes nothing of a declaration but what its options
/// hold.
pub proof fn lemma_comment_keeps_shape(node: NodeView, comment: Seq<char>, ids: DescriptionIds)
    ensures
        bare_node(node.commented(comment, ids)) == bare_node(node),
{
    if let NodeView::Message(m) = node {
        if let Some(number) = ids.number_for(node.kind()) {
            let after = node.with_payload(number, vstd::utf8::encode_utf8(comment));
            assert(bare_message(after->Message_0).nested_type =~= bare_message(m).nested_type);
        }
    }
}

/// Attaching the comment of one location keeps the shape of a file.
pub proof fn lemma_location_keeps_shape(file: FileView, loc: LocationView, ids: DescriptionIds)
    ensures
        bare_file(file.documented_at(loc, ids)) == bare_file(file),
{
    if let (Some(comment), Some(node)) = (loc.comment(), file.child_at(loc.path)) {
        lemma_comment_keeps_shape(node, comment, ids);
        lemma_file_keeps_shape(file, loc.path, node.commented(comment, ids));
    }
}

/// Attaching the comments of the first `n` locations keeps the shape of a
/// file.
pub proof fn lemma_locations_keep_shape(file: FileView, n: nat, ids: DescriptionIds)
    ensures
        bare_file(file.documented_upto(n, ids)) == bare_file(file),
    decreases n,
{
    if n > 0 {
        lemma_locations_keep_shape(file, (n - 1) as nat, ids);
        lemma_location_keeps_shape(
            file.documented_upto((n - 1) as nat, ids),
            file.location[n - 1],
            ids,
        );
    }
}

/// A set comes out with the shape it went in with: the same files with the
/// same names, packages, imports and location tables, holding the same
/// declarations with the same names and numbers in the same places. Only
/// what the options hold can differ.
pub proof fn lemma_set_keeps_shape(set: FileDescriptorSetView, ids: DescriptionIds)
    ensures
        bare_set(set.documented(ids)) == bare_set(set),
{
    assert forall|i: int| 0 <= i < set.file.len() implies bare_file(set.file[i].documented(ids))
        == bare_file(set.file[i]) by {
        lemma_locations_keep_shape(set.file[i], set.file[i].location.len(), ids);
    }
    assert(bare_set(set.documented(ids)).file =~= bare_set(set).file);
}

} // verus!
