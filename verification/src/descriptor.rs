//! The declaration tree of a descriptor set, and its mathematical model.
//!
//! Every declaration carries its name and the unknown-field store of its
//! options. The model of a declaration is its view: the name as a sequence
//! of characters, the children as sequences of models, and the store as
//! what it holds by field number.

use crate::unknown::{stored, Stored};
use protobuf::UnknownFields;
use vstd::prelude::*;
use vstd::slice::slice_to_vec;

verus! {

/// A field of a message, or an extension declared at the top level of a file.
#[derive(Debug, PartialEq)]
pub struct FieldDescriptor {
    pub name: String,
    pub unknown_fields: UnknownFields,
}

/// A method of a service.
#[derive(Debug, PartialEq)]
pub struct MethodDescriptor {
    pub name: String,
    pub unknown_fields: UnknownFields,
}

/// A value of an enum.
#[derive(Debug, PartialEq)]
pub struct EnumValueDescriptor {
    pub name: String,
    pub number: i32,
    pub unknown_fields: UnknownFields,
}

/// A oneof declaration of a message.
#[derive(Debug, PartialEq)]
pub struct OneofDescriptor {
    pub name: String,
    pub unknown_fields: UnknownFields,
}

/// An enum with its values.
#[derive(Debug, PartialEq)]
pub struct EnumDescriptor {
    pub name: String,
    pub value: Vec<EnumValueDescriptor>,
    pub unknown_fields: UnknownFields,
}

/// A service with its methods.
#[derive(Debug, PartialEq)]
pub struct ServiceDescriptor {
    pub name: String,
    pub method: Vec<MethodDescriptor>,
    pub unknown_fields: UnknownFields,
}

/// A message with its fields and the declarations nested in it.
#[derive(Debug, PartialEq)]
pub struct MessageDescriptor {
    pub name: String,
    pub field: Vec<FieldDescriptor>,
    pub enum_type: Vec<EnumDescriptor>,
    pub nested_type: Vec<MessageDescriptor>,
    pub oneof_decl: Vec<OneofDescriptor>,
    pub unknown_fields: UnknownFields,
}

/// One entry of a file's source-location table: the path of a statement and
/// the comments written next to it.
#[derive(Debug, PartialEq)]
pub struct Location {
    pub path: Vec<i32>,
    pub leading_comments: Option<String>,
    pub trailing_comments: Option<String>,
}

/// One file: its package, the names of the files it imports, its top-level
/// declarations and its source-location table.
#[derive(Debug, PartialEq)]
pub struct FileDescriptor {
    pub name: String,
    pub package: Option<String>,
    pub dependency: Vec<String>,
    pub message_type: Vec<MessageDescriptor>,
    pub enum_type: Vec<EnumDescriptor>,
    pub service: Vec<ServiceDescriptor>,
    pub extension: Vec<FieldDescriptor>,
    pub location: Vec<Location>,
}

/// An ordered set of files.
#[derive(Debug, PartialEq)]
pub struct FileDescriptorSet {
    pub file: Vec<FileDescriptor>,
}

/// Model of a [`FieldDescriptor`].
pub struct FieldView {
    pub name: Seq<char>,
    pub unknown_fields: Stored,
}

/// Model of a [`MethodDescriptor`].
pub struct MethodView {
    pub name: Seq<char>,
    pub unknown_fields: Stored,
}

/// Model of an [`EnumValueDescriptor`].
pub struct EnumValueView {
    pub name: Seq<char>,
    pub number: i32,
    pub unknown_fields: Stored,
}

/// Model of a [`OneofDescriptor`].
pub struct OneofView {
    pub name: Seq<char>,
    pub unknown_fields: Stored,
}

/// Model of an [`EnumDescriptor`].
pub struct EnumView {
    pub name: Seq<char>,
    pub value: Seq<EnumValueView>,
    pub unknown_fields: Stored,
}

/// Model of a [`ServiceDescriptor`].
pub struct ServiceView {
    pub name: Seq<char>,
    pub method: Seq<MethodView>,
    pub unknown_fields: Stored,
}

/// Model of a [`MessageDescriptor`].
pub struct MessageView {
    pub name: Seq<char>,
    pub field: Seq<FieldView>,
    pub enum_type: Seq<EnumView>,
    pub nested_type: Seq<MessageView>,
    pub oneof_decl: Seq<OneofView>,
    pub unknown_fields: Stored,
}

/// Model of a [`Location`].
pub struct LocationView {
    pub path: Seq<i32>,
    pub leading_comments: Option<Seq<char>>,
    pub trailing_comments: Option<Seq<char>>,
}

/// Model of a [`FileDescriptor`].
pub struct FileView {
    pub name: Seq<char>,
    pub package: Option<Seq<char>>,
    pub dependency: Seq<Seq<char>>,
    pub message_type: Seq<MessageView>,
    pub enum_type: Seq<EnumView>,
    pub service: Seq<ServiceView>,
    pub extension: Seq<FieldView>,
    pub location: Seq<LocationView>,
}

/// Model of a [`FileDescriptorSet`].
pub struct FileDescriptorSetView {
    pub file: Seq<FileView>,
}

/// The models of a sequence of declarations, in the same order.
pub open spec fn views<T: View>(items: Seq<T>) -> Seq<T::V> {
    Seq::new(items.len(), |i: int| items[i]@)
}

/// The model of an optional string.
pub open spec fn text_view(text: Option<String>) -> Option<Seq<char>> {
    match text {
        Some(s) => Some(s@),
        None => None,
    }
}

impl View for FieldDescriptor {
    type V = FieldView;

    open spec fn view(&self) -> FieldView {
        FieldView { name: self.name@, unknown_fields: stored(self.unknown_fields) }
    }
}

impl View for MethodDescriptor {
    type V = MethodView;

    open spec fn view(&self) -> MethodView {
        MethodView { name: self.name@, unknown_fields: stored(self.unknown_fields) }
    }
}

impl View for EnumValueDescriptor {
    type V = EnumValueView;

    open spec fn view(&self) -> EnumValueView {
        EnumValueView {
            name: self.name@,
            number: self.number,
            unknown_fields: stored(self.unknown_fields),
        }
    }
}

impl View for OneofDescriptor {
    type V = OneofView;

    open spec fn view(&self) -> OneofView {
        OneofView { name: self.name@, unknown_fields: stored(self.unknown_fields) }
    }
}

impl View for EnumDescriptor {
    type V = EnumView;

    open spec fn view(&self) -> EnumView {
        EnumView {
            name: self.name@,
            value: views(self.value@),
            unknown_fields: stored(self.unknown_fields),
        }
    }
}

impl View for ServiceDescriptor {
    type V = ServiceView;

    open spec fn view(&self) -> ServiceView {
        ServiceView {
            name: self.name@,
            method: views(self.method@),
            unknown_fields: stored(self.unknown_fields),
        }
    }
}

/// The model of a message, by recursion over the messages nested in it.
pub open spec fn message_view(message: MessageDescriptor) -> MessageView
    decreases message,
{
    MessageView {
        name: message.name@,
        field: views(message.field@),
        enum_type: views(message.enum_type@),
        nested_type: Seq::new(
            message.nested_type@.len(),
            |i: int|
                if 0 <= i < message.nested_type@.len() {
                    message_view(message.nested_type@[i])
                } else {
                    arbitrary()
                },
        ),
        oneof_decl: views(message.oneof_decl@),
        unknown_fields: stored(message.unknown_fields),
    }
}

impl View for MessageDescriptor {
    type V = MessageView;

    open spec fn view(&self) -> MessageView {
        message_view(*self)
    }
}

impl View for Location {
    type V = LocationView;

    open spec fn view(&self) -> LocationView {
        LocationView {
            path: self.path@,
            leading_comments: text_view(self.leading_comments),
            trailing_comments: text_view(self.trailing_comments),
        }
    }
}

impl View for FileDescriptor {
    type V = FileView;

    open spec fn view(&self) -> FileView {
        FileView {
            name: self.name@,
            package: text_view(self.package),
            dependency: views(self.dependency@),
            message_type: views(self.message_type@),
            enum_type: views(self.enum_type@),
            service: views(self.service@),
            extension: views(self.extension@),
            location: views(self.location@),
        }
    }
}

impl View for FileDescriptorSet {
    type V = FileDescriptorSetView;

    open spec fn view(&self) -> FileDescriptorSetView {
        FileDescriptorSetView { file: views(self.file@) }
    }
}

/// Replacing one declaration of a sequence replaces its model in the
/// sequence of models, and putting a declaration's own model back changes
/// nothing.
pub proof fn lemma_views_update<T: View>(items: Seq<T>, idx: int, item: T)
    requires
        0 <= idx < items.len(),
    ensures
        views(items.update(idx, item)) == views(items).update(idx, item@),
        views(items).update(idx, items[idx]@) == views(items),
{
    assert(views(items.update(idx, item)) =~= views(items).update(idx, item@));
    assert(views(items).update(idx, items[idx]@) =~= views(items));
}

/// The model of a message's nested messages is the sequence of their models.
pub proof fn lemma_nested_views(message: MessageDescriptor)
    ensures
        message@.nested_type == views(message.nested_type@),
{
    assert(message@.nested_type =~= views(message.nested_type@));
}

/// A copy of an optional text.
pub fn clone_text(text: &Option<String>) -> (copy: Option<String>)
    ensures
        copy == *text,
{
    match text {
        Some(s) => Some(s.clone()),
        None => None,
    }
}

impl Clone for Location {
    fn clone(&self) -> (copy: Location)
        ensures
            copy@ == self@,
    {
        Location {
            path: slice_to_vec(self.path.as_slice()),
            leading_comments: clone_text(&self.leading_comments),
            trailing_comments: clone_text(&self.trailing_comments),
        }
    }
}

} // verus!
