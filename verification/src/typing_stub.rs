//! Typing stubs for the declarations of a file: one Python class per
//! message, enum and service, indented by four spaces per level.

use crate::case::{
    shouty_snake_case, snake_case, to_shouty_snake_case, to_snake_case, to_upper_camel_case,
    upper_camel_case,
};
use crate::descriptor::{
    lemma_nested_views, EnumDescriptor, EnumValueView, EnumView, FieldView, FileDescriptor,
    FileView, MessageDescriptor, MessageView, MethodView, ServiceDescriptor, ServiceView,
};
use crate::text::{decimal, decimal_text};
use vstd::prelude::*;
use vstd::string::StringExecFns;

verus! {

/// One level of indentation.
pub const INDENT: &'static str = "    ";

/// The line that opens the class `name`.
pub open spec fn class_line(prefix: Seq<char>, name: Seq<char>) -> Seq<char> {
    prefix + "class "@ + name + ":\n"@
}

/// The line that stands for an empty class body.
pub open spec fn pass_line(prefix: Seq<char>) -> Seq<char> {
    prefix + "pass\n"@
}

/// The line that declares the attribute `name` of a message class.
pub open spec fn field_line(prefix: Seq<char>, name: Seq<char>) -> Seq<char> {
    prefix + name + ": Any\n"@
}

/// The line that declares the member `name` of an enum class.
pub open spec fn value_line(prefix: Seq<char>, name: Seq<char>, number: i32) -> Seq<char> {
    prefix + name + " = "@ + decimal(number as int) + "\n"@
}

/// The line that declares the method `name` of a service class.
pub open spec fn method_line(prefix: Seq<char>, name: Seq<char>) -> Seq<char> {
    prefix + "def "@ + name + "(self, request: Any) -> Any:\n"@
}

/// The lines of the first `count` of `fields`.
pub open spec fn field_lines(fields: Seq<FieldView>, count: nat, prefix: Seq<char>) -> Seq<char>
    decreases count,
{
    if count == 0 {
        Seq::empty()
    } else {
        field_lines(fields, (count - 1) as nat, prefix) + field_line(
            prefix,
            snake_case(fields[count - 1].name),
        )
    }
}

/// The lines of the first `count` of `values`.
pub open spec fn value_lines(values: Seq<EnumValueView>, count: nat, prefix: Seq<char>) -> Seq<
    char,
>
    decreases count,
{
    if count == 0 {
        Seq::empty()
    } else {
        value_lines(values, (count - 1) as nat, prefix) + value_line(
            prefix,
            shouty_snake_case(values[count - 1].name),
            values[count - 1].number,
        )
    }
}

/// The lines of the first `count` of `methods`.
pub open spec fn method_lines(methods: Seq<MethodView>, count: nat, prefix: Seq<char>) -> Seq<
    char,
>
    decreases count,
{
    if count == 0 {
        Seq::empty()
    } else {
        method_lines(methods, (count - 1) as nat, prefix) + method_line(
            prefix,
            snake_case(methods[count - 1].name),
        )
    }
}

/// The class of a message: its fields as attributes, or `pass` where it has
/// none, then the classes of the messages nested in it, one level deeper.
pub open spec fn message_stub(message: MessageView, prefix: Seq<char>) -> Seq<char>
    decreases message, 0nat,
{
    class_line(prefix, upper_camel_case(message.name)) + (if message.field.len() == 0 {
        pass_line(prefix + INDENT@)
    } else {
        field_lines(message.field, message.field.len(), prefix + INDENT@)
    }) + message_stubs(message.nested_type, message.nested_type.len(), prefix + INDENT@)
}

/// The classes of the first `count` of `messages`.
pub open spec fn message_stubs(messages: Seq<MessageView>, count: nat, prefix: Seq<char>) -> Seq<
    char,
>
    decreases messages, count,
{
    if count == 0 || count > messages.len() {
        Seq::empty()
    } else {
        message_stubs(messages, (count - 1) as nat, prefix) + message_stub(
            messages[count - 1],
            prefix,
        )
    }
}

/// The class of an enum: its values as members, or `pass` where it has none.
pub open spec fn enum_stub(e: EnumView, prefix: Seq<char>) -> Seq<char> {
    class_line(prefix, upper_camel_case(e.name)) + (if e.value.len() == 0 {
        pass_line(prefix + INDENT@)
    } else {
        value_lines(e.value, e.value.len(), prefix + INDENT@)
    })
}

/// The classes of the first `count` of `enums`.
pub open spec fn enum_stubs(enums: Seq<EnumView>, count: nat, prefix: Seq<char>) -> Seq<char>
    decreases count,
{
    if count == 0 {
        Seq::empty()
    } else {
        enum_stubs(enums, (count - 1) as nat, prefix) + enum_stub(enums[count - 1], prefix)
    }
}

/// The class of a service: its header, closed at once where it has no
/// method, else followed by a second colon and one line per method.
pub open spec fn service_stub(s: ServiceView, prefix: Seq<char>) -> Seq<char> {
    prefix + "class "@ + upper_camel_case(s.name) + ":"@ + (if s.method.len() == 0 {
        "\n"@
    } else {
        ":\n"@ + method_lines(s.method, s.method.len(), prefix + INDENT@)
    })
}

/// The classes of the first `count` of `services`.
pub open spec fn service_stubs(services: Seq<ServiceView>, count: nat, prefix: Seq<char>) -> Seq<
    char,
>
    decreases count,
{
    if count == 0 {
        Seq::empty()
    } else {
        service_stubs(services, (count - 1) as nat, prefix) + service_stub(
            services[count - 1],
            prefix,
        )
    }
}

/// The stub of a file: its messages, then its enums, then its services, all
/// one level deep.
pub open spec fn file_stub(file: FileView) -> Seq<char> {
    message_stubs(file.message_type, file.message_type.len(), INDENT@) + enum_stubs(
        file.enum_type,
        file.enum_type.len(),
        INDENT@,
    ) + service_stubs(file.service, file.service.len(), INDENT@)
}

/// `prefix` one level deeper.
pub fn deeper(prefix: &str) -> (inner: String)
    ensures
        inner@ == prefix@ + INDENT@,
{
    let mut inner = prefix.to_owned();
    inner.append(INDENT);
    inner
}

/// Writes the line that opens the class `name`.
pub fn class_line_text(prefix: &str, name: &str) -> (line: String)
    ensures
        line@ == class_line(prefix@, name@),
{
    let mut line = prefix.to_owned();
    line.append("class ");
    line.append(name);
    line.append(":\n");
    line
}

/// Writes the line that stands for an empty class body.
pub fn pass_line_text(prefix: &str) -> (line: String)
    ensures
        line@ == pass_line(prefix@),
{
    let mut line = prefix.to_owned();
    line.append("pass\n");
    line
}

/// Writes the line that declares the attribute `name`.
pub fn field_line_text(prefix: &str, name: &str) -> (line: String)
    ensures
        line@ == field_line(prefix@, name@),
{
    let mut line = prefix.to_owned();
    line.append(name);
    line.append(": Any\n");
    line
}

/// Writes the line that declares the enum member `name` with its number.
pub fn value_line_text(prefix: &str, name: &str, number: i32) -> (line: String)
    ensures
        line@ == value_line(prefix@, name@, number),
{
    let mut line = prefix.to_owned();
    line.append(name);
    line.append(" = ");
    line.append(decimal_text(number).as_str());
    line.append("\n");
    line
}

/// Writes the line that declares the method `name`.
pub fn method_line_text(prefix: &str, name: &str) -> (line: String)
    ensures
        line@ == method_line(prefix@, name@),
{
    let mut line = prefix.to_owned();
    line.append("def ");
    line.append(name);
    line.append("(self, request: Any) -> Any:\n");
    line
}

/// Writes the class of `message`, every line after `prefix`.
pub fn generate_message_typing_stub(message: &MessageDescriptor, prefix: &str) -> (stub: String)
    ensures
        stub@ == message_stub(message@, prefix@),
    decreases message,
{
    let inner = deeper(prefix);
    let name = to_upper_camel_case(message.name.as_str());
    let mut res = class_line_text(prefix, name.as_str());
    let ghost head = res@;
    if message.field.len() == 0 {
        res.append(pass_line_text(inner.as_str()).as_str());
    } else {
        let mut i: usize = 0;
        while i < message.field.len()
            invariant
                i <= message.field@.len(),
                inner@ == prefix@ + INDENT@,
                res@ == head + field_lines(message@.field, i as nat, inner@),
            decreases message.field@.len() - i,
        {
            let name = to_snake_case(message.field[i].name.as_str());
            let line = field_line_text(inner.as_str(), name.as_str());
            res.append(line.as_str());
            assert(res@ =~= head + field_lines(message@.field, (i + 1) as nat, inner@));
            i += 1;
        }
    }
    let ghost body = res@;
    proof {
        lemma_nested_views(*message);
    }
    let mut i: usize = 0;
    while i < message.nested_type.len()
        invariant
            i <= message.nested_type@.len(),
            message@.nested_type.len() == message.nested_type@.len(),
            forall|j: int|
                0 <= j < message.nested_type@.len() ==> message@.nested_type[j]
                    == message.nested_type@[j]@,
            inner@ == prefix@ + INDENT@,
            res@ == body + message_stubs(message@.nested_type, i as nat, inner@),
        decreases message.nested_type@.len() - i,
    {
        let nested = generate_message_typing_stub(&message.nested_type[i], inner.as_str());
        res.append(nested.as_str());
        assert(res@ =~= body + message_stubs(message@.nested_type, (i + 1) as nat, inner@));
        i += 1;
    }
    res
}

/// Writes the class of `enum_`, every line after `prefix`.
pub fn generate_enum_typing_stub(enum_: &EnumDescriptor, prefix: &str) -> (stub: String)
    ensures
        stub@ == enum_stub(enum_@, prefix@),
{
    let inner = deeper(prefix);
    let name = to_upper_camel_case(enum_.name.as_str());
    let mut res = class_line_text(prefix, name.as_str());
    let ghost head = res@;
    if enum_.value.len() == 0 {
        res.append(pass_line_text(inner.as_str()).as_str());
    } else {
        let mut i: usize = 0;
        while i < enum_.value.len()
            invariant
                i <= enum_.value@.len(),
                inner@ == prefix@ + INDENT@,
                res@ == head + value_lines(enum_@.value, i as nat, inner@),
            decreases enum_.value@.len() - i,
        {
            let name = to_shouty_snake_case(enum_.value[i].name.as_str());
            let line = value_line_text(inner.as_str(), name.as_str(), enum_.value[i].number);
            res.append(line.as_str());
            assert(res@ =~= head + value_lines(enum_@.value, (i + 1) as nat, inner@));
            i += 1;
        }
    }
    res
}

/// Writes the class of `service`, every line after `prefix`.
pub fn generate_service_typing_stub(service: &ServiceDescriptor, prefix: &str) -> (stub: String)
    ensures
        stub@ == service_stub(service@, prefix@),
{
    let inner = deeper(prefix);
    let name = to_upper_camel_case(service.name.as_str());
    let mut res = prefix.to_owned();
    res.append("class ");
    res.append(name.as_str());
    res.append(":");
    if service.method.len() == 0 {
        res.append("\n");
    } else {
        res.append(":\n");
        let ghost head = res@;
        let mut i: usize = 0;
        while i < service.method.len()
            invariant
                i <= service.method@.len(),
                inner@ == prefix@ + INDENT@,
                res@ == head + method_lines(service@.method, i as nat, inner@),
            decreases service.method@.len() - i,
        {
            let name = to_snake_case(service.method[i].name.as_str());
            let line = method_line_text(inner.as_str(), name.as_str());
            res.append(line.as_str());
            assert(res@ =~= head + method_lines(service@.method, (i + 1) as nat, inner@));
            i += 1;
        }
        assert(res@ =~= service_stub(service@, prefix@));
    }
    res
}

/// Writes the typing stub of a file.
pub fn generate_typing_stub(fds: &FileDescriptor) -> (stub: String)
    ensures
        stub@ == file_stub(fds@),
{
    let mut res = String::new();
    let mut i: usize = 0;
    while i < fds.message_type.len()
        invariant
            i <= fds.message_type@.len(),
            res@ == message_stubs(fds@.message_type, i as nat, INDENT@),
        decreases fds.message_type@.len() - i,
    {
        let stub = generate_message_typing_stub(&fds.message_type[i], INDENT);
        res.append(stub.as_str());
        i += 1;
    }
    let ghost messages = res@;
    let mut i: usize = 0;
    while i < fds.enum_type.len()
        invariant
            i <= fds.enum_type@.len(),
            res@ == messages + enum_stubs(fds@.enum_type, i as nat, INDENT@),
        decreases fds.enum_type@.len() - i,
    {
        let stub = generate_enum_typing_stub(&fds.enum_type[i], INDENT);
        res.append(stub.as_str());
        assert(res@ =~= messages + enum_stubs(fds@.enum_type, (i + 1) as nat, INDENT@));
        i += 1;
    }
    let ghost enums = res@;
    let mut i: usize = 0;
    while i < fds.service.len()
        invariant
            i <= fds.service@.len(),
            res@ == enums + service_stubs(fds@.service, i as nat, INDENT@),
        decreases fds.service@.len() - i,
    {
        let stub = generate_service_typing_stub(&fds.service[i], INDENT);
        res.append(stub.as_str());
        assert(res@ =~= enums + service_stubs(fds@.service, (i + 1) as nat, INDENT@));
        i += 1;
    }
    res
}

} // verus!
