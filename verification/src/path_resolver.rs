//! Resolves a location path to the declaration it names.
//!
//! A path is read two integers at a time: the tag of a repeated field of the
//! current container, then an index into that field. Messages, enums and
//! services can be entered further; every other declaration ends the path.
//!
//! What a path names is defined on the models, by `child_at`. A resolver
//! hands out the named declaration as an exclusive borrow, so its contract
//! has two halves: what was found is what `child_at` says, and the tree,
//! once the borrow has ended, is the old tree with that one declaration
//! replaced by whatever the borrower made of it (`with_child`). Where nothing
//! was found the tree is as before.

use crate::descriptor::{
    lemma_nested_views, lemma_views_update, EnumDescriptor, EnumValueDescriptor, EnumValueView,
    EnumView, FieldDescriptor, FieldView, FileDescriptor, FileView, Location, MessageDescriptor,
    MessageView, MethodDescriptor, MethodView, OneofDescriptor, OneofView, ServiceDescriptor,
    ServiceView,
};
use crate::tag::{
    ENUM_VALUE, FILE_ENUM_TYPE, FILE_EXTENSION, FILE_MESSAGE_TYPE, FILE_SERVICE,
    MESSAGE_ENUM_TYPE, MESSAGE_FIELD, MESSAGE_NESTED_TYPE, MESSAGE_ONEOF_DECL, SERVICE_METHOD,
};
use crate::text::same_text;
use vstd::prelude::*;
use vstd::slice::slice_subrange;

verus! {

/// The kinds of declaration that a comment can be attached to.
#[derive(Clone, Copy, Debug, PartialEq, Eq, Structural)]
pub enum EntityKind {
    File,
    Message,
    Enum,
    Service,
    Method,
    Field,
    EnumValue,
    Extension,
    Oneof,
}

impl EntityKind {
    /// The kind that `name` stands for in a configuration.
    pub open spec fn named(name: Seq<char>) -> Option<EntityKind> {
        if name == "file"@ {
            Some(EntityKind::File)
        } else if name == "message"@ {
            Some(EntityKind::Message)
        } else if name == "enum"@ {
            Some(EntityKind::Enum)
        } else if name == "service"@ {
            Some(EntityKind::Service)
        } else if name == "method"@ {
            Some(EntityKind::Method)
        } else if name == "field"@ {
            Some(EntityKind::Field)
        } else if name == "enum_value"@ {
            Some(EntityKind::EnumValue)
        } else if name == "extension"@ {
            Some(EntityKind::Extension)
        } else if name == "oneof"@ {
            Some(EntityKind::Oneof)
        } else {
            None
        }
    }

    /// The kind that `name` stands for, if it is the name of a kind.
    pub fn from_name(name: &str) -> (kind: Option<EntityKind>)
        ensures
            kind == EntityKind::named(name@),
    {
        if same_text(name, "file") {
            Some(EntityKind::File)
        } else if same_text(name, "message") {
            Some(EntityKind::Message)
        } else if same_text(name, "enum") {
            Some(EntityKind::Enum)
        } else if same_text(name, "service") {
            Some(EntityKind::Service)
        } else if same_text(name, "method") {
            Some(EntityKind::Method)
        } else if same_text(name, "field") {
            Some(EntityKind::Field)
        } else if same_text(name, "enum_value") {
            Some(EntityKind::EnumValue)
        } else if same_text(name, "extension") {
            Some(EntityKind::Extension)
        } else if same_text(name, "oneof") {
            Some(EntityKind::Oneof)
        } else {
            None
        }
    }
}

/// The declaration that a path leads to, borrowed from the tree for writing.
#[derive(Debug)]
pub enum PathedDescriptor<'a> {
    Message(&'a mut MessageDescriptor),
    Enum(&'a mut EnumDescriptor),
    Service(&'a mut ServiceDescriptor),
    Method(&'a mut MethodDescriptor),
    Field(&'a mut FieldDescriptor),
    EnumValue(&'a mut EnumValueDescriptor),
    Extension(&'a mut FieldDescriptor),
    Oneof(&'a mut OneofDescriptor),
}

/// Model of a [`PathedDescriptor`]: the declaration by value.
pub enum NodeView {
    Message(MessageView),
    Enum(EnumView),
    Service(ServiceView),
    Method(MethodView),
    Field(FieldView),
    EnumValue(EnumValueView),
    Extension(FieldView),
    Oneof(OneofView),
}

impl NodeView {
    /// The kind of the declaration.
    pub open spec fn kind(self) -> EntityKind {
        match self {
            NodeView::Message(_) => EntityKind::Message,
            NodeView::Enum(_) => EntityKind::Enum,
            NodeView::Service(_) => EntityKind::Service,
            NodeView::Method(_) => EntityKind::Method,
            NodeView::Field(_) => EntityKind::Field,
            NodeView::EnumValue(_) => EntityKind::EnumValue,
            NodeView::Extension(_) => EntityKind::Extension,
            NodeView::Oneof(_) => EntityKind::Oneof,
        }
    }
}

impl<'a> PathedDescriptor<'a> {
    /// The kind of the declaration.
    pub fn kind(&self) -> (kind: EntityKind)
        ensures
            kind == self@.kind(),
    {
        match self {
            PathedDescriptor::Message(_) => EntityKind::Message,
            PathedDescriptor::Enum(_) => EntityKind::Enum,
            PathedDescriptor::Service(_) => EntityKind::Service,
            PathedDescriptor::Method(_) => EntityKind::Method,
            PathedDescriptor::Field(_) => EntityKind::Field,
            PathedDescriptor::EnumValue(_) => EntityKind::EnumValue,
            PathedDescriptor::Extension(_) => EntityKind::Extension,
            PathedDescriptor::Oneof(_) => EntityKind::Oneof,
        }
    }

    /// The declaration as it is now.
    pub open spec fn view(&self) -> NodeView {
        match *self {
            PathedDescriptor::Message(m) => NodeView::Message(m@),
            PathedDescriptor::Enum(e) => NodeView::Enum(e@),
            PathedDescriptor::Service(s) => NodeView::Service(s@),
            PathedDescriptor::Method(m) => NodeView::Method(m@),
            PathedDescriptor::Field(f) => NodeView::Field(f@),
            PathedDescriptor::EnumValue(v) => NodeView::EnumValue(v@),
            PathedDescriptor::Extension(f) => NodeView::Extension(f@),
            PathedDescriptor::Oneof(o) => NodeView::Oneof(o@),
        }
    }
}

/// The declaration that a resolution found, as it is now.
pub open spec fn found_view(found: Option<PathedDescriptor>) -> Option<NodeView> {
    match found {
        Some(pathed) => Some(pathed@),
        None => None,
    }
}

/// Whether `idx` is an index into a repeated field of `len` elements.
pub open spec fn in_range(idx: i32, len: nat) -> bool {
    0 <= idx < len
}

impl EnumView {
    /// The declaration that `path` names inside this enum, if it names one:
    /// one of its values, by exactly one tag and index.
    pub open spec fn child_at(self, path: Seq<i32>) -> Option<NodeView> {
        if path.len() == 2 && path[0] == ENUM_VALUE && in_range(path[1], self.value.len()) {
            Some(NodeView::EnumValue(self.value[path[1] as int]))
        } else {
            None
        }
    }

    /// This enum with the declaration that `path` names replaced by `node`;
    /// the enum itself where there is nothing to replace.
    pub open spec fn with_child(self, path: Seq<i32>, node: Option<NodeView>) -> EnumView {
        match (self.child_at(path), node) {
            (Some(_), Some(NodeView::EnumValue(v))) => EnumView {
                value: self.value.update(path[1] as int, v),
                ..self
            },
            _ => self,
        }
    }
}

impl EnumDescriptor {
    /// Resolves `path` inside this enum: gives the declaration that the path
    /// names, borrowed for writing, or nothing where it names none.
    pub fn get_child_from_path<'a>(&'a mut self, path: &[i32]) -> (found: Option<
        PathedDescriptor<'a>,
    >)
        ensures
            found_view(found) == old(self)@.child_at(path@),
            final(self)@ == old(self)@.with_child(
                path@,
                match found {
                    Some(PathedDescriptor::EnumValue(v)) => Some(NodeView::EnumValue(final(v)@)),
                    _ => None,
                },
            ),
    {
        if path.len() < 2 {
            return None;
        }
        let typ: i32 = path[0];
        let raw: i32 = path[1];
        if raw < 0 {
            return None;
        }
        let idx: usize = raw as usize;
        if typ == ENUM_VALUE && idx < self.value.len() && path.len() == 2 {
            let value = &mut self.value[idx];
            proof {
                lemma_views_update(old(self).value@, idx as int, *final(value));
            }
            Some(PathedDescriptor::EnumValue(value))
        } else {
            None
        }
    }
}

impl ServiceView {
    /// The declaration that `path` names inside this service, if it names
    /// one: one of its methods, by exactly one tag and index.
    pub open spec fn child_at(self, path: Seq<i32>) -> Option<NodeView> {
        if path.len() == 2 && path[0] == SERVICE_METHOD && in_range(path[1], self.method.len()) {
            Some(NodeView::Method(self.method[path[1] as int]))
        } else {
            None
        }
    }

    /// This service with the declaration that `path` names replaced by
    /// `node`; the service itself where there is nothing to replace.
    pub open spec fn with_child(self, path: Seq<i32>, node: Option<NodeView>) -> ServiceView {
        match (self.child_at(path), node) {
            (Some(_), Some(NodeView::Method(m))) => ServiceView {
                method: self.method.update(path[1] as int, m),
                ..self
            },
            _ => self,
        }
    }
}

impl ServiceDescriptor {
    /// Resolves `path` inside this service: gives the declaration that the path
    /// names, borrowed for writing, or nothing where it names none.
    pub fn get_child_from_path<'a>(&'a mut self, path: &[i32]) -> (found: Option<
        PathedDescriptor<'a>,
    >)
        ensures
            found_view(found) == old(self)@.child_at(path@),
            final(self)@ == old(self)@.with_child(
                path@,
                match found {
                    Some(PathedDescriptor::Method(m)) => Some(NodeView::Method(final(m)@)),
                    _ => None,
                },
            ),
    {
        if path.len() < 2 {
            return None;
        }
        let typ: i32 = path[0];
        let raw: i32 = path[1];
        if raw < 0 {
            return None;
        }
        let idx: usize = raw as usize;
        if typ == SERVICE_METHOD && idx < self.method.len() && path.len() == 2 {
            let method = &mut self.method[idx];
            proof {
                lemma_views_update(old(self).method@, idx as int, *final(method));
            }
            Some(PathedDescriptor::Method(method))
        } else {
            None
        }
    }
}

impl MessageView {
    /// The declaration that `path` names inside this message, if it names
    /// one. Fields and oneofs end the path; nested enums and messages end it
    /// or are entered with what is left of it.
    pub open spec fn child_at(self, path: Seq<i32>) -> Option<NodeView>
        decreases path.len(),
    {
        if path.len() < 2 {
            None
        } else {
            let tag = path[0];
            let idx = path[1] as int;
            let rest = path.subrange(2, path.len() as int);
            if tag == MESSAGE_FIELD && in_range(path[1], self.field.len()) {
                if rest.len() == 0 {
                    Some(NodeView::Field(self.field[idx]))
                } else {
                    None
                }
            } else if tag == MESSAGE_ENUM_TYPE && in_range(path[1], self.enum_type.len()) {
                if rest.len() == 0 {
                    Some(NodeView::Enum(self.enum_type[idx]))
                } else {
                    self.enum_type[idx].child_at(rest)
                }
            } else if tag == MESSAGE_NESTED_TYPE && in_range(path[1], self.nested_type.len()) {
                if rest.len() == 0 {
                    Some(NodeView::Message(self.nested_type[idx]))
                } else {
                    self.nested_type[idx].child_at(rest)
                }
            } else if tag == MESSAGE_ONEOF_DECL && in_range(path[1], self.oneof_decl.len()) {
                if rest.len() == 0 {
                    Some(NodeView::Oneof(self.oneof_decl[idx]))
                } else {
                    None
                }
            } else {
                None
            }
        }
    }

    /// This message with the declaration that `path` names replaced by
    /// `node`; the message itself where there is nothing to replace.
    pub open spec fn with_child(self, path: Seq<i32>, node: Option<NodeView>) -> MessageView
        decreases path.len(),
    {
        if path.len() < 2 || self.child_at(path) is None {
            self
        } else {
            let tag = path[0];
            let idx = path[1] as int;
            let rest = path.subrange(2, path.len() as int);
            if tag == MESSAGE_FIELD {
                match node {
                    Some(NodeView::Field(f)) => MessageView {
                        field: self.field.update(idx, f),
                        ..self
                    },
                    _ => self,
                }
            } else if tag == MESSAGE_ENUM_TYPE {
                if rest.len() == 0 {
                    match node {
                        Some(NodeView::Enum(e)) => MessageView {
                            enum_type: self.enum_type.update(idx, e),
                            ..self
                        },
                        _ => self,
                    }
                } else {
                    MessageView {
                        enum_type: self.enum_type.update(
                            idx,
                            self.enum_type[idx].with_child(rest, node),
                        ),
                        ..self
                    }
                }
            } else if tag == MESSAGE_NESTED_TYPE {
                if rest.len() == 0 {
                    match node {
                        Some(NodeView::Message(m)) => MessageView {
                            nested_type: self.nested_type.update(idx, m),
                            ..self
                        },
                        _ => self,
                    }
                } else {
                    MessageView {
                        nested_type: self.nested_type.update(
                            idx,
                            self.nested_type[idx].with_child(rest, node),
                        ),
                        ..self
                    }
                }
            } else {
                match node {
                    Some(NodeView::Oneof(o)) => MessageView {
                        oneof_decl: self.oneof_decl.update(idx, o),
                        ..self
                    },
                    _ => self,
                }
            }
        }
    }
}

impl MessageDescriptor {
    /// Resolves `path` inside this message: gives the declaration that the path
    /// names, borrowed for writing, or nothing where it names none.
    pub fn get_child_from_path<'a>(&'a mut self, path: &[i32]) -> (found: Option<
        PathedDescriptor<'a>,
    >)
        ensures
            found_view(found) == old(self)@.child_at(path@),
            final(self)@ == old(self)@.with_child(
                path@,
                match found {
                    Some(PathedDescriptor::Message(m)) => Some(NodeView::Message(final(m)@)),
                    Some(PathedDescriptor::Enum(e)) => Some(NodeView::Enum(final(e)@)),
                    Some(PathedDescriptor::Service(s)) => Some(NodeView::Service(final(s)@)),
                    Some(PathedDescriptor::Method(m)) => Some(NodeView::Method(final(m)@)),
                    Some(PathedDescriptor::Field(f)) => Some(NodeView::Field(final(f)@)),
                    Some(PathedDescriptor::EnumValue(v)) => Some(NodeView::EnumValue(final(v)@)),
                    Some(PathedDescriptor::Extension(f)) => Some(NodeView::Extension(final(f)@)),
                    Some(PathedDescriptor::Oneof(o)) => Some(NodeView::Oneof(final(o)@)),
                    None => None,
                },
            ),
        decreases path@.len(),
    {
        if path.len() < 2 {
            return None;
        }
        let typ: i32 = path[0];
        let raw: i32 = path[1];
        if raw < 0 {
            return None;
        }
        let idx: usize = raw as usize;
        let rest = slice_subrange(path, 2, path.len());
        proof {
            lemma_nested_views(*old(self));
            lemma_nested_views(*final(self));
        }
        if typ == MESSAGE_FIELD && idx < self.field.len() {
            if rest.len() == 0 {
                let field = &mut self.field[idx];
                proof {
                    lemma_views_update(old(self).field@, idx as int, *final(field));
                }
                Some(PathedDescriptor::Field(field))
            } else {
                None
            }
        } else if typ == MESSAGE_ENUM_TYPE && idx < self.enum_type.len() {
            let enum_ = &mut self.enum_type[idx];
            proof {
                lemma_views_update(old(self).enum_type@, idx as int, *final(enum_));
            }
            if rest.len() == 0 {
                Some(PathedDescriptor::Enum(enum_))
            } else {
                enum_.get_child_from_path(rest)
            }
        } else if typ == MESSAGE_NESTED_TYPE && idx < self.nested_type.len() {
            let nested = &mut self.nested_type[idx];
            proof {
                lemma_views_update(old(self).nested_type@, idx as int, *final(nested));
            }
            if rest.len() == 0 {
                Some(PathedDescriptor::Message(nested))
            } else {
                nested.get_child_from_path(rest)
            }
        } else if typ == MESSAGE_ONEOF_DECL && idx < self.oneof_decl.len() {
            if rest.len() == 0 {
                let oneof = &mut self.oneof_decl[idx];
                proof {
                    lemma_views_update(old(self).oneof_decl@, idx as int, *final(oneof));
                }
                Some(PathedDescriptor::Oneof(oneof))
            } else {
                None
            }
        } else {
            None
        }
    }
}

impl FileView {
    /// The declaration that `path` names inside this file, if it names one.
    /// Top-level messages, enums and services end the path or are entered
    /// with what is left of it. An extension ends the path whatever follows
    /// its index.
    pub open spec fn child_at(self, path: Seq<i32>) -> Option<NodeView> {
        if path.len() < 2 {
            None
        } else {
            let tag = path[0];
            let idx = path[1] as int;
            let rest = path.subrange(2, path.len() as int);
            if tag == FILE_MESSAGE_TYPE && in_range(path[1], self.message_type.len()) {
                if rest.len() == 0 {
                    Some(NodeView::Message(self.message_type[idx]))
                } else {
                    self.message_type[idx].child_at(rest)
                }
            } else if tag == FILE_ENUM_TYPE && in_range(path[1], self.enum_type.len()) {
                if rest.len() == 0 {
                    Some(NodeView::Enum(self.enum_type[idx]))
                } else {
                    self.enum_type[idx].child_at(rest)
                }
            } else if tag == FILE_SERVICE && in_range(path[1], self.service.len()) {
                if rest.len() == 0 {
                    Some(NodeView::Service(self.service[idx]))
                } else {
                    self.service[idx].child_at(rest)
                }
            } else if tag == FILE_EXTENSION && in_range(path[1], self.extension.len()) {
                Some(NodeView::Extension(self.extension[idx]))
            } else {
                None
            }
        }
    }

    /// This file with the declaration that `path` names replaced by `node`;
    /// the file itself where there is nothing to replace.
    pub open spec fn with_child(self, path: Seq<i32>, node: Option<NodeView>) -> FileView {
        if path.len() < 2 || self.child_at(path) is None {
            self
        } else {
            let tag = path[0];
            let idx = path[1] as int;
            let rest = path.subrange(2, path.len() as int);
            if tag == FILE_MESSAGE_TYPE {
                if rest.len() == 0 {
                    match node {
                        Some(NodeView::Message(m)) => FileView {
                            message_type: self.message_type.update(idx, m),
                            ..self
                        },
                        _ => self,
                    }
                } else {
                    FileView {
                        message_type: self.message_type.update(
                            idx,
                            self.message_type[idx].with_child(rest, node),
                        ),
                        ..self
                    }
                }
            } else if tag == FILE_ENUM_TYPE {
                if rest.len() == 0 {
                    match node {
                        Some(NodeView::Enum(e)) => FileView {
                            enum_type: self.enum_type.update(idx, e),
                            ..self
                        },
                        _ => self,
                    }
                } else {
                    FileView {
                        enum_type: self.enum_type.update(
                            idx,
                            self.enum_type[idx].with_child(rest, node),
                        ),
                        ..self
                    }
                }
            } else if tag == FILE_SERVICE {
                if rest.len() == 0 {
                    match node {
                        Some(NodeView::Service(s)) => FileView {
                            service: self.service.update(idx, s),
                            ..self
                        },
                        _ => self,
                    }
                } else {
                    FileView {
                        service: self.service.update(
                            idx,
                            self.service[idx].with_child(rest, node),
                        ),
                        ..self
                    }
                }
            } else {
                match node {
                    Some(NodeView::Extension(f)) => FileView {
                        extension: self.extension.update(idx, f),
                        ..self
                    },
                    _ => self,
                }
            }
        }
    }
}

impl FileDescriptor {
    /// Resolves `path` from the root of this file: gives the declaration that
    /// the path names, borrowed for writing, or nothing where it names none.
    pub fn get_child_from_path<'a>(&'a mut self, path: &[i32]) -> (found: Option<
        PathedDescriptor<'a>,
    >)
        ensures
            found_view(found) == old(self)@.child_at(path@),
            final(self)@ == old(self)@.with_child(
                path@,
                match found {
                    Some(PathedDescriptor::Message(m)) => Some(NodeView::Message(final(m)@)),
                    Some(PathedDescriptor::Enum(e)) => Some(NodeView::Enum(final(e)@)),
                    Some(PathedDescriptor::Service(s)) => Some(NodeView::Service(final(s)@)),
                    Some(PathedDescriptor::Method(m)) => Some(NodeView::Method(final(m)@)),
                    Some(PathedDescriptor::Field(f)) => Some(NodeView::Field(final(f)@)),
                    Some(PathedDescriptor::EnumValue(v)) => Some(NodeView::EnumValue(final(v)@)),
                    Some(PathedDescriptor::Extension(f)) => Some(NodeView::Extension(final(f)@)),
                    Some(PathedDescriptor::Oneof(o)) => Some(NodeView::Oneof(final(o)@)),
                    None => None,
                },
            ),
    {
        if path.len() < 2 {
            return None;
        }
        let typ: i32 = path[0];
        let raw: i32 = path[1];
        if raw < 0 {
            return None;
        }
        let idx: usize = raw as usize;
        let rest = slice_subrange(path, 2, path.len());
        if typ == FILE_MESSAGE_TYPE && idx < self.message_type.len() {
            let message = &mut self.message_type[idx];
            proof {
                lemma_views_update(old(self).message_type@, idx as int, *final(message));
            }
            if rest.len() == 0 {
                Some(PathedDescriptor::Message(message))
            } else {
                message.get_child_from_path(rest)
            }
        } else if typ == FILE_ENUM_TYPE && idx < self.enum_type.len() {
            let enum_ = &mut self.enum_type[idx];
            proof {
                lemma_views_update(old(self).enum_type@, idx as int, *final(enum_));
            }
            if rest.len() == 0 {
                Some(PathedDescriptor::Enum(enum_))
            } else {
                enum_.get_child_from_path(rest)
            }
        } else if typ == FILE_SERVICE && idx < self.service.len() {
            let service = &mut self.service[idx];
            proof {
                lemma_views_update(old(self).service@, idx as int, *final(service));
            }
            if rest.len() == 0 {
                Some(PathedDescriptor::Service(service))
            } else {
                service.get_child_from_path(rest)
            }
        } else if typ == FILE_EXTENSION && idx < self.extension.len() {
            let extension = &mut self.extension[idx];
            proof {
                lemma_views_update(old(self).extension@, idx as int, *final(extension));
            }
            Some(PathedDescriptor::Extension(extension))
        } else {
            None
        }
    }

    /// Resolves the path of `loc` from the root of this file, as
    /// [`FileDescriptor::get_child_from_path`] does.
    pub fn get_child_from_loc<'a>(&'a mut self, loc: &Location) -> (found: Option<
        PathedDescriptor<'a>,
    >)
        ensures
            found_view(found) == old(self)@.child_at(loc@.path),
            final(self)@ == old(self)@.with_child(
                loc@.path,
                match found {
                    Some(PathedDescriptor::Message(m)) => Some(NodeView::Message(final(m)@)),
                    Some(PathedDescriptor::Enum(e)) => Some(NodeView::Enum(final(e)@)),
                    Some(PathedDescriptor::Service(s)) => Some(NodeView::Service(final(s)@)),
                    Some(PathedDescriptor::Method(m)) => Some(NodeView::Method(final(m)@)),
                    Some(PathedDescriptor::Field(f)) => Some(NodeView::Field(final(f)@)),
                    Some(PathedDescriptor::EnumValue(v)) => Some(NodeView::EnumValue(final(v)@)),
                    Some(PathedDescriptor::Extension(f)) => Some(NodeView::Extension(final(f)@)),
                    Some(PathedDescriptor::Oneof(o)) => Some(NodeView::Oneof(final(o)@)),
                    None => None,
                },
            ),
    {
        self.get_child_from_path(loc.path.as_slice())
    }
}

/// Putting back into an enum the declaration that a path names in it
/// leaves the enum as it is.
pub proof fn lemma_enum_put_back(e: EnumView, path: Seq<i32>)
    ensures
        e.with_child(path, e.child_at(path)) == e,
{
    if e.child_at(path) is Some {
        assert(e.value.update(path[1] as int, e.value[path[1] as int]) =~= e.value);
    }
}

/// Putting back into a service the declaration that a path names in it
/// leaves the service as it is.
pub proof fn lemma_service_put_back(s: ServiceView, path: Seq<i32>)
    ensures
        s.with_child(path, s.child_at(path)) == s,
{
    if s.child_at(path) is Some {
        assert(s.method.update(path[1] as int, s.method[path[1] as int]) =~= s.method);
    }
}

/// Putting back into a message the declaration that a path names in it
/// leaves the message as it is.
pub proof fn lemma_message_put_back(m: MessageView, path: Seq<i32>)
    ensures
        m.with_child(path, m.child_at(path)) == m,
    decreases path.len(),
{
    if path.len() >= 2 && m.child_at(path) is Some {
        let tag = path[0];
        let idx = path[1] as int;
        let rest = path.subrange(2, path.len() as int);
        if tag == MESSAGE_FIELD {
            assert(m.field.update(idx, m.field[idx]) =~= m.field);
        } else if tag == MESSAGE_ENUM_TYPE {
            lemma_enum_put_back(m.enum_type[idx], rest);
            assert(m.enum_type.update(idx, m.enum_type[idx]) =~= m.enum_type);
        } else if tag == MESSAGE_NESTED_TYPE {
            lemma_message_put_back(m.nested_type[idx], rest);
            assert(m.nested_type.update(idx, m.nested_type[idx]) =~= m.nested_type);
        } else {
            assert(m.oneof_decl.update(idx, m.oneof_decl[idx]) =~= m.oneof_decl);
        }
    }
}

/// Putting back into a file the declaration that a path names in it leaves
/// the file as it is.
pub proof fn lemma_file_put_back(file: FileView, path: Seq<i32>)
    ensures
        file.with_child(path, file.child_at(path)) == file,
{
    if path.len() >= 2 && file.child_at(path) is Some {
        let tag = path[0];
        let idx = path[1] as int;
        let rest = path.subrange(2, path.len() as int);
        if tag == FILE_MESSAGE_TYPE {
            lemma_message_put_back(file.message_type[idx], rest);
            assert(file.message_type.update(idx, file.message_type[idx]) =~= file.message_type);
        } else if tag == FILE_ENUM_TYPE {
            lemma_enum_put_back(file.enum_type[idx], rest);
            assert(file.enum_type.update(idx, file.enum_type[idx]) =~= file.enum_type);
        } else if tag == FILE_SERVICE {
            lemma_service_put_back(file.service[idx], rest);
            assert(file.service.update(idx, file.service[idx]) =~= file.service);
        } else {
            assert(file.extension.update(idx, file.extension[idx]) =~= file.extension);
        }
    }
}

/// After a declaration of an enum was replaced by one of the same kind, its
/// path names the replacement.
pub proof fn lemma_enum_read_back(e: EnumView, path: Seq<i32>, node: NodeView)
    requires
        e.child_at(path) matches Some(before) && before.kind() == node.kind(),
    ensures
        e.with_child(path, Some(node)).child_at(path) == Some(node),
{
}

/// After a declaration of a service was replaced by one of the same kind,
/// its path names the replacement.
pub proof fn lemma_service_read_back(s: ServiceView, path: Seq<i32>, node: NodeView)
    requires
        s.child_at(path) matches Some(before) && before.kind() == node.kind(),
    ensures
        s.with_child(path, Some(node)).child_at(path) == Some(node),
{
}

/// After a declaration of a message was replaced by one of the same kind,
/// its path names the replacement.
pub proof fn lemma_message_read_back(m: MessageView, path: Seq<i32>, node: NodeView)
    requires
        m.child_at(path) matches Some(before) && before.kind() == node.kind(),
    ensures
        m.with_child(path, Some(node)).child_at(path) == Some(node),
    decreases path.len(),
{
    let tag = path[0];
    let idx = path[1] as int;
    let rest = path.subrange(2, path.len() as int);
    if rest.len() > 0 {
        if tag == MESSAGE_ENUM_TYPE {
            lemma_enum_read_back(m.enum_type[idx], rest, node);
        } else if tag == MESSAGE_NESTED_TYPE {
            lemma_message_read_back(m.nested_type[idx], rest, node);
        }
    }
}

/// After a declaration of a file was replaced by one of the same kind, its
/// path names the replacement.
pub proof fn lemma_file_read_back(file: FileView, path: Seq<i32>, node: NodeView)
    requires
        file.child_at(path) matches Some(before) && before.kind() == node.kind(),
    ensures
        file.with_child(path, Some(node)).child_at(path) == Some(node),
{
    let tag = path[0];
    let idx = path[1] as int;
    let rest = path.subrange(2, path.len() as int);
    if rest.len() > 0 {
        if tag == FILE_MESSAGE_TYPE {
            lemma_message_read_back(file.message_type[idx], rest, node);
        } else if tag == FILE_ENUM_TYPE {
            lemma_enum_read_back(file.enum_type[idx], rest, node);
        } else if tag == FILE_SERVICE {
            lemma_service_read_back(file.service[idx], rest, node);
        }
    }
}

/// A path of one field tag and one index names exactly the field at that
/// index: no other field, and nothing where the index is out of range.
pub proof fn lemma_field_path_is_exact(message: MessageView, idx: i32)
    ensures
        message.child_at(seq![MESSAGE_FIELD, idx]) == if in_range(idx, message.field.len()) {
            Some(NodeView::Field(message.field[idx as int]))
        } else {
            None
        },
{
}

/// A path that begins with the extension tag and an index in range names
/// that extension, whatever follows the index.
pub proof fn lemma_extension_ends_path(file: FileView, path: Seq<i32>)
    requires
        path.len() >= 2,
        path[0] == FILE_EXTENSION,
        in_range(path[1], file.extension.len()),
    ensures
        file.child_at(path) == Some(NodeView::Extension(file.extension[path[1] as int])),
{
}

/// A path of fewer than two integers names nothing.
pub proof fn lemma_short_path_names_nothing(file: FileView, path: Seq<i32>)
    requires
        path.len() < 2,
    ensures
        file.child_at(path) is None,
{
}

} // verus!
