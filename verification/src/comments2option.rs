//! Attaches the comments of a file's source-location table to the
//! declarations they were written for.
//!
//! A comment becomes a length-delimited unknown field in the options of its
//! declaration, under the field number configured for the declaration's kind.

use crate::descriptor::{
    text_view, EnumValueView, EnumView, FieldView, FileDescriptor, FileDescriptorSet,
    FileDescriptorSetView, FileView, Location, LocationView, MessageView, MethodView, OneofView,
    ServiceView,
};
use crate::path_resolver::{
    lemma_file_put_back, lemma_file_read_back, EntityKind, NodeView, PathedDescriptor,
};
use crate::text::{is_blank, lemma_blank_trims_to_nothing, starts_with, trim, trimmed};
use crate::unknown::{add_length_delimited, appended, values_under, Stored};
use vstd::prelude::*;
use vstd::string::StrSliceExecFns;
use vstd::utf8::encode_utf8;

verus! {

/// The field number under which comments are stored, for each kind of
/// declaration. Comments on a kind without a number are dropped.
#[derive(Debug)]
pub struct DescriptionIds {
    pub file: Option<u32>,
    pub message: Option<u32>,
    pub enum_: Option<u32>,
    pub service: Option<u32>,
    pub method: Option<u32>,
    pub field: Option<u32>,
    pub enum_value: Option<u32>,
    pub extension: Option<u32>,
    pub oneof: Option<u32>,
}

impl DescriptionIds {
    /// The number configured for `kind`.
    pub open spec fn number_for(self, kind: EntityKind) -> Option<u32> {
        match kind {
            EntityKind::File => self.file,
            EntityKind::Message => self.message,
            EntityKind::Enum => self.enum_,
            EntityKind::Service => self.service,
            EntityKind::Method => self.method,
            EntityKind::Field => self.field,
            EntityKind::EnumValue => self.enum_value,
            EntityKind::Extension => self.extension,
            EntityKind::Oneof => self.oneof,
        }
    }

    /// These numbers with `number` for `kind`.
    pub open spec fn with_number(self, kind: EntityKind, number: u32) -> DescriptionIds {
        match kind {
            EntityKind::File => DescriptionIds { file: Some(number), ..self },
            EntityKind::Message => DescriptionIds { message: Some(number), ..self },
            EntityKind::Enum => DescriptionIds { enum_: Some(number), ..self },
            EntityKind::Service => DescriptionIds { service: Some(number), ..self },
            EntityKind::Method => DescriptionIds { method: Some(number), ..self },
            EntityKind::Field => DescriptionIds { field: Some(number), ..self },
            EntityKind::EnumValue => DescriptionIds { enum_value: Some(number), ..self },
            EntityKind::Extension => DescriptionIds { extension: Some(number), ..self },
            EntityKind::Oneof => DescriptionIds { oneof: Some(number), ..self },
        }
    }

    /// These numbers after the entry `name`, `number` of a configuration was
    /// read: a name that names no kind changes nothing.
    pub open spec fn with_entry(self, name: Seq<char>, number: u32) -> DescriptionIds {
        match EntityKind::named(name) {
            Some(kind) => self.with_number(kind, number),
            None => self,
        }
    }

    /// The number configured for `kind`.
    pub fn get(&self, kind: EntityKind) -> (number: Option<u32>)
        ensures
            number == self.number_for(kind),
    {
        match kind {
            EntityKind::File => self.file,
            EntityKind::Message => self.message,
            EntityKind::Enum => self.enum_,
            EntityKind::Service => self.service,
            EntityKind::Method => self.method,
            EntityKind::Field => self.field,
            EntityKind::EnumValue => self.enum_value,
            EntityKind::Extension => self.extension,
            EntityKind::Oneof => self.oneof,
        }
    }

    /// Sets the number for `kind`.
    pub fn set(&mut self, kind: EntityKind, number: u32)
        ensures
            *final(self) == old(self).with_number(kind, number),
    {
        match kind {
            EntityKind::File => self.file = Some(number),
            EntityKind::Message => self.message = Some(number),
            EntityKind::Enum => self.enum_ = Some(number),
            EntityKind::Service => self.service = Some(number),
            EntityKind::Method => self.method = Some(number),
            EntityKind::Field => self.field = Some(number),
            EntityKind::EnumValue => self.enum_value = Some(number),
            EntityKind::Extension => self.extension = Some(number),
            EntityKind::Oneof => self.oneof = Some(number),
        }
    }

    /// Reads one entry of a configuration: sets the number for the kind that
    /// `name` names, and ignores a name that names no kind.
    pub fn assign(&mut self, name: &str, number: u32)
        ensures
            *final(self) == old(self).with_entry(name@, number),
    {
        if let Some(kind) = EntityKind::from_name(name) {
            self.set(kind, number);
        }
    }

    /// Whether no kind has a number.
    pub open spec fn is_empty(self) -> bool {
        forall|kind: EntityKind| self.number_for(kind) is None
    }
}

impl Default for DescriptionIds {
    fn default() -> (ids: DescriptionIds)
        ensures
            ids.is_empty(),
    {
        DescriptionIds {
            file: None,
            message: None,
            enum_: None,
            service: None,
            method: None,
            field: None,
            enum_value: None,
            extension: None,
            oneof: None,
        }
    }
}

impl NodeView {
    /// What the options of the declaration hold as unknown fields.
    pub open spec fn unknown_fields(self) -> Stored {
        match self {
            NodeView::Message(m) => m.unknown_fields,
            NodeView::Enum(e) => e.unknown_fields,
            NodeView::Service(s) => s.unknown_fields,
            NodeView::Method(m) => m.unknown_fields,
            NodeView::Field(f) => f.unknown_fields,
            NodeView::EnumValue(v) => v.unknown_fields,
            NodeView::Extension(f) => f.unknown_fields,
            NodeView::Oneof(o) => o.unknown_fields,
        }
    }

    /// The declaration with `payload` added to its options under `number`.
    pub open spec fn with_payload(self, number: u32, payload: Seq<u8>) -> NodeView {
        match self {
            NodeView::Message(m) => NodeView::Message(
                MessageView { unknown_fields: appended(m.unknown_fields, number, payload), ..m },
            ),
            NodeView::Enum(e) => NodeView::Enum(
                EnumView { unknown_fields: appended(e.unknown_fields, number, payload), ..e },
            ),
            NodeView::Service(s) => NodeView::Service(
                ServiceView { unknown_fields: appended(s.unknown_fields, number, payload), ..s },
            ),
            NodeView::Method(m) => NodeView::Method(
                MethodView { unknown_fields: appended(m.unknown_fields, number, payload), ..m },
            ),
            NodeView::Field(f) => NodeView::Field(
                FieldView { unknown_fields: appended(f.unknown_fields, number, payload), ..f },
            ),
            NodeView::EnumValue(v) => NodeView::EnumValue(
                EnumValueView { unknown_fields: appended(v.unknown_fields, number, payload), ..v },
            ),
            NodeView::Extension(f) => NodeView::Extension(
                FieldView { unknown_fields: appended(f.unknown_fields, number, payload), ..f },
            ),
            NodeView::Oneof(o) => NodeView::Oneof(
                OneofView { unknown_fields: appended(o.unknown_fields, number, payload), ..o },
            ),
        }
    }

    /// The declaration after `comment` was offered to it: with the comment's
    /// bytes in its options where its kind has a number, unchanged otherwise.
    pub open spec fn commented(self, comment: Seq<char>, ids: DescriptionIds) -> NodeView {
        match ids.number_for(self.kind()) {
            Some(number) => self.with_payload(number, encode_utf8(comment)),
            None => self,
        }
    }
}

/// Stores `comment` in the options of the declaration that `pathed` borrows,
/// under the number that `ids` has for its kind, if it has one.
pub fn insert_comment(pathed: PathedDescriptor, comment: String, ids: &DescriptionIds)
    ensures
        pathed@.commented(comment@, *ids) == (match pathed {
            PathedDescriptor::Message(m) => NodeView::Message(final(m)@),
            PathedDescriptor::Enum(e) => NodeView::Enum(final(e)@),
            PathedDescriptor::Service(s) => NodeView::Service(final(s)@),
            PathedDescriptor::Method(m) => NodeView::Method(final(m)@),
            PathedDescriptor::Field(f) => NodeView::Field(final(f)@),
            PathedDescriptor::EnumValue(v) => NodeView::EnumValue(final(v)@),
            PathedDescriptor::Extension(f) => NodeView::Extension(final(f)@),
            PathedDescriptor::Oneof(o) => NodeView::Oneof(final(o)@),
        }),
{
    let payload = comment.as_str().as_bytes_vec();
    match pathed {
        PathedDescriptor::Message(message) => {
            if let Some(id) = ids.message {
                add_length_delimited(&mut message.unknown_fields, id, payload);
            }
        },
        PathedDescriptor::Enum(enum_) => {
            if let Some(id) = ids.enum_ {
                add_length_delimited(&mut enum_.unknown_fields, id, payload);
            }
        },
        PathedDescriptor::Service(service) => {
            if let Some(id) = ids.service {
                add_length_delimited(&mut service.unknown_fields, id, payload);
            }
        },
        PathedDescriptor::Method(method) => {
            if let Some(id) = ids.method {
                add_length_delimited(&mut method.unknown_fields, id, payload);
            }
        },
        PathedDescriptor::Field(field) => {
            if let Some(id) = ids.field {
                add_length_delimited(&mut field.unknown_fields, id, payload);
            }
        },
        PathedDescriptor::EnumValue(enum_value) => {
            if let Some(id) = ids.enum_value {
                add_length_delimited(&mut enum_value.unknown_fields, id, payload);
            }
        },
        PathedDescriptor::Extension(extension) => {
            if let Some(id) = ids.extension {
                add_length_delimited(&mut extension.unknown_fields, id, payload);
            }
        },
        PathedDescriptor::Oneof(oneof) => {
            if let Some(id) = ids.oneof {
                add_length_delimited(&mut oneof.unknown_fields, id, payload);
            }
        },
    }
}

/// The prefix of the names of the files that hold the well-known types.
pub const RESERVED_PREFIX: &'static str = "google";

/// Whether a file of this name holds well-known types and is left alone.
pub open spec fn is_reserved(name: Seq<char>) -> bool {
    RESERVED_PREFIX@.is_prefix_of(name)
}

impl LocationView {
    /// The comment that this location contributes: the leading comment where
    /// there is one, else the trailing one, without the white space around
    /// it; nothing where there is no comment or only white space.
    pub open spec fn comment(self) -> Option<Seq<char>> {
        let written = if self.leading_comments is Some {
            self.leading_comments
        } else {
            self.trailing_comments
        };
        match written {
            Some(text) => if trimmed(text).len() > 0 {
                Some(trimmed(text))
            } else {
                None
            },
            None => None,
        }
    }
}

impl FileView {
    /// This file after the comment of `loc` was attached: the declaration
    /// that the path of `loc` names, if there is one, has taken the comment.
    pub open spec fn documented_at(self, loc: LocationView, ids: DescriptionIds) -> FileView {
        match (loc.comment(), self.child_at(loc.path)) {
            (Some(comment), Some(node)) => self.with_child(
                loc.path,
                Some(node.commented(comment, ids)),
            ),
            _ => self,
        }
    }

    /// This file after the comments of its first `n` locations were
    /// attached, in the order of the table.
    pub open spec fn documented_upto(self, n: nat, ids: DescriptionIds) -> FileView
        decreases n,
    {
        if n == 0 {
            self
        } else {
            self.documented_upto((n - 1) as nat, ids).documented_at(self.location[n - 1], ids)
        }
    }

    /// This file after the comments of all its locations were attached; the
    /// file itself where its name is reserved.
    pub open spec fn documented(self, ids: DescriptionIds) -> FileView {
        if is_reserved(self.name) {
            self
        } else {
            self.documented_upto(self.location.len(), ids)
        }
    }
}

impl FileDescriptorSetView {
    /// This set with every file documented.
    pub open spec fn documented(self, ids: DescriptionIds) -> FileDescriptorSetView {
        FileDescriptorSetView {
            file: Seq::new(self.file.len(), |i: int| self.file[i].documented(ids)),
        }
    }
}

/// The comment that `loc` contributes, if any.
pub fn select_comment(loc: &Location) -> (comment: Option<String>)
    ensures
        text_view(comment) == loc@.comment(),
{
    let text = if let Some(leading) = &loc.leading_comments {
        trim(leading.as_str())
    } else if let Some(trailing) = &loc.trailing_comments {
        trim(trailing.as_str())
    } else {
        return None;
    };
    if text.unicode_len() == 0 {
        None
    } else {
        Some(text.to_owned())
    }
}

/// Attaches the comments of the file's locations to its declarations.
pub fn document_file(file: &mut FileDescriptor, ids: &DescriptionIds)
    ensures
        final(file)@ == old(file)@.documented(*ids),
{
    if starts_with(file.name.as_str(), RESERVED_PREFIX) {
        return;
    }
    let n = file.location.len();
    let mut i: usize = 0;
    while i < n
        invariant
            i <= n == old(file)@.location.len(),
            file@.location == old(file)@.location,
            file@ == old(file)@.documented_upto(i as nat, *ids),
        decreases n - i,
    {
        let loc = file.location[i].clone();
        if let Some(comment) = select_comment(&loc) {
            if let Some(pathed) = file.get_child_from_loc(&loc) {
                insert_comment(pathed, comment, ids);
            }
        }
        i += 1;
    }
}

/// Attaches the comments of every file of the set to its declarations, but
/// for the files whose name is reserved.
pub fn comments2option(res: FileDescriptorSet, ids: &DescriptionIds) -> (out: FileDescriptorSet)
    ensures
        out@ == res@.documented(*ids),
{
    let mut res = res;
    let ghost given = res;
    let n = res.file.len();
    let mut i: usize = 0;
    while i < n
        invariant
            i <= n == given.file@.len() == res.file@.len(),
            forall|j: int|
                0 <= j < i ==> (#[trigger] res.file@[j])@ == given.file@[j]@.documented(*ids),
            forall|j: int| i <= j < n ==> #[trigger] res.file@[j] == given.file@[j],
        decreases n - i,
    {
        document_file(&mut res.file[i], ids);
        i += 1;
    }
    assert(res@.file =~= given@.documented(*ids).file);
    res
}

/// A file whose name is reserved comes out of the set as it went in,
/// whatever its comments say.
pub proof fn lemma_reserved_file_unchanged(set: FileDescriptorSetView, ids: DescriptionIds, i: int)
    requires
        0 <= i < set.file.len(),
        is_reserved(set.file[i].name),
    ensures
        set.documented(ids).file[i] == set.file[i],
{
}

/// Where a location has a leading comment, its trailing comment plays no
/// part: what is attached is the leading comment without the white space
/// around it, if anything is.
pub proof fn lemma_leading_comment_wins(file: FileView, loc: LocationView, ids: DescriptionIds)
    requires
        loc.leading_comments is Some,
    ensures
        loc.comment() is Some ==> loc.comment() == Some(trimmed(loc.leading_comments->0)),
        file.documented_at(loc, ids) == file.documented_at(
            (LocationView { trailing_comments: None, ..loc }),
            ids,
        ),
{
}

/// A comment that finds its declaration can be read back there: the path
/// of its location then names the declaration with the comment taken, and
/// where the kind has a number, the comment's bytes are the last payload
/// under that number, after all that were there.
pub proof fn lemma_comment_reads_back(file: FileView, loc: LocationView, ids: DescriptionIds)
    requires
        loc.comment() is Some,
        file.child_at(loc.path) is Some,
    ensures
        file.documented_at(loc, ids).child_at(loc.path) == Some(
            file.child_at(loc.path)->0.commented(loc.comment()->0, ids),
        ),
        ids.number_for(file.child_at(loc.path)->0.kind()) matches Some(number) ==> values_under(
            file.documented_at(loc, ids).child_at(loc.path)->0.unknown_fields(),
            number,
        ).length_delimited == values_under(
            file.child_at(loc.path)->0.unknown_fields(),
            number,
        ).length_delimited.push(encode_utf8(loc.comment()->0)),
{
    let node = file.child_at(loc.path)->0;
    lemma_file_read_back(file, loc.path, node.commented(loc.comment()->0, ids));
}

/// A location whose comment is empty or white space alone attaches nothing.
pub proof fn lemma_blank_comment_vanishes(file: FileView, loc: LocationView, ids: DescriptionIds)
    requires
        loc.leading_comments matches Some(text) ==> is_blank(text),
        loc.leading_comments is None ==> (loc.trailing_comments matches Some(text) ==> is_blank(
            text,
        )),
    ensures
        loc.comment() is None,
        file.documented_at(loc, ids) == file,
{
    if let Some(text) = loc.leading_comments {
        lemma_blank_trims_to_nothing(text);
    } else if let Some(text) = loc.trailing_comments {
        lemma_blank_trims_to_nothing(text);
    }
}

/// Without a number for any kind, attaching the comments of any number of
/// locations leaves a file as it is.
pub proof fn lemma_no_numbers_no_change(file: FileView, n: nat, ids: DescriptionIds)
    requires
        ids.is_empty(),
    ensures
        file.documented_upto(n, ids) == file,
    decreases n,
{
    if n > 0 {
        lemma_no_numbers_no_change(file, (n - 1) as nat, ids);
        let loc = file.location[n - 1];
        if let Some(node) = file.child_at(loc.path) {
            lemma_file_put_back(file, loc.path);
        }
    }
}

/// Without a number for any kind, a set comes out as it went in.
pub proof fn lemma_unconfigured_is_identity(set: FileDescriptorSetView, ids: DescriptionIds)
    requires
        ids.is_empty(),
    ensures
        set.documented(ids) == set,
{
    assert forall|i: int| 0 <= i < set.file.len() implies set.file[i].documented(ids)
        == set.file[i] by {
        lemma_no_numbers_no_change(set.file[i], set.file[i].location.len(), ids);
    }
    assert(set.documented(ids).file =~= set.file);
}

} // verus!
