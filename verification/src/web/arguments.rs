//! Finding and reading the arguments of an API request.
//!
//! An argument has one name in the style of the browser and one in the style of
//! the server. A request may use either.

use std::collections::BTreeMap;
use vstd::prelude::*;

use crate::text::{ascii_upper, chars_of, text_view, to_ascii_upper};
use crate::web::json::{error_text, is_null, member};
use crate::web::json::{json_complaint, json_map, json_shape, Plain, Shape};
use crate::web::json::{read_count, read_flag, read_members, read_text};

verus! {

/// A name with its underscores dropped and each letter behind one raised.
/// `upper` says whether an underscore comes just before.
pub open spec fn camel_from(name: Seq<char>, upper: bool) -> Seq<char>
    decreases name.len(),
{
    if name.len() == 0 {
        Seq::empty()
    } else if name[0] == '_' {
        camel_from(name.skip(1), true)
    } else {
        seq![
            if upper {
                ascii_upper(name[0])
            } else {
                name[0]
            },
        ] + camel_from(name.skip(1), false)
    }
}

/// The name in the style of the browser for one in the style of the server:
/// underscores are dropped, and a letter behind one is raised.
pub fn snake_to_camel(value: &str) -> (camel: String)
    ensures
        camel@ == camel_from(value@, false),
{
    let chars = chars_of(value);
    let mut out = String::new();
    let mut upper = false;
    let mut i: usize = 0;
    assert(value@.skip(0) =~= value@);
    while i < chars.len()
        invariant
            i <= chars.len(),
            chars@ == value@,
            out@ + camel_from(value@.skip(i as int), upper) == camel_from(value@, false),
        decreases chars.len() - i,
    {
        let ch = chars[i];
        let ghost rest = value@.skip(i as int);
        let ghost before = out@;
        assert(rest[0] == ch);
        assert(rest.skip(1) =~= value@.skip(i + 1));
        if ch == '_' {
            upper = true;
        } else if upper {
            upper = false;
            out.push(to_ascii_upper(ch));
            assert(out@ + camel_from(rest.skip(1), false) =~= before + camel_from(rest, true));
        } else {
            out.push(ch);
            assert(out@ + camel_from(rest.skip(1), false) =~= before + camel_from(rest, false));
        }
        i += 1;
    }
    assert(value@.skip(i as int).len() == 0);
    assert(out@ + camel_from(value@.skip(i as int), upper) =~= out@);
    out
}

/// No underscore is left in the style of the browser.
pub proof fn camel_names_have_no_underscore(name: Seq<char>, upper: bool)
    ensures
        !camel_from(name, upper).contains('_'),
    decreases name.len(),
{
    if name.len() > 0 {
        let rest = camel_from(name.skip(1), name[0] == '_');
        camel_names_have_no_underscore(name.skip(1), name[0] == '_');
        if name[0] != '_' {
            let all = camel_from(name, upper);
            assert(all =~= seq![all[0]] + rest);
            assert forall|i: int| 0 <= i < all.len() implies all[i] != '_' by {
                if i > 0 {
                    assert(all[i] == rest[i - 1]);
                    assert(rest.contains(rest[i - 1]));
                }
            }
        }
    }
}

/// A name without underscores is the same in either style.
pub proof fn plain_names_stay(name: Seq<char>)
    requires
        !name.contains('_'),
    ensures
        camel_from(name, false) == name,
    decreases name.len(),
{
    if name.len() > 0 {
        assert(name.contains(name[0]));
        assert forall|c: char| name.skip(1).contains(c) implies name.contains(c) by {
            let i = choose|i: int| 0 <= i < name.skip(1).len() && name.skip(1)[i] == c;
            assert(name[i + 1] == c);
        }
        plain_names_stay(name.skip(1));
        assert(seq![name[0]] + name.skip(1) =~= name);
    }
}

/// The member of an object, if the value is an object that has it.
pub open spec fn member_of(value: serde_json::Value, key: Seq<char>) -> Option<serde_json::Value> {
    match json_shape(value) {
        Shape::Object(members) => if members.contains_key(key) {
            Some(members[key])
        } else {
            None
        },
        _ => None,
    }
}

/// An argument under the first of its names that the request has: the
/// browser's, the server's, or the one made from the server's.
pub open spec fn argument_of(args: serde_json::Value, camel: Seq<char>, snake: Seq<char>) -> Option<
    serde_json::Value,
> {
    if member_of(args, camel) is Some {
        member_of(args, camel)
    } else if member_of(args, snake) is Some {
        member_of(args, snake)
    } else {
        member_of(args, camel_from(snake, false))
    }
}

/// Finds an argument under any of its names.
pub fn argument<'a>(args: &'a serde_json::Value, camel: &str, snake: &str) -> (found: Option<
    &'a serde_json::Value,
>)
    ensures
        match found {
            Some(v) => argument_of(*args, camel@, snake@) == Some(*v),
            None => argument_of(*args, camel@, snake@) is None,
        },
{
    let derived = snake_to_camel(snake);
    match member(args, camel) {
        Some(v) => Some(v),
        None => match member(args, snake) {
            Some(v) => Some(v),
            None => member(args, derived.as_str()),
        },
    }
}

/// How an argument is read.
#[derive(Clone, Copy, Debug, PartialEq, Eq, Structural)]
pub enum Kind {
    Text,
    Flag,
    Count,
    /// As a map from names to JSON values.
    Members,
    /// As a document with a form of its own, which is checked elsewhere.
    Document,
}

/// An argument that was read.
#[derive(Debug)]
pub enum Argument<'a> {
    Text(String),
    Flag(bool),
    Count(u32),
    Members(BTreeMap<String, serde_json::Value>),
    Document(&'a serde_json::Value),
}

/// An argument that was read, as a mathematical value.
pub enum ArgumentView {
    Text(Seq<char>),
    Flag(bool),
    Count(u32),
    Members(Map<String, serde_json::Value>),
    Document(serde_json::Value),
}

impl<'a> View for Argument<'a> {
    type V = ArgumentView;

    open spec fn view(&self) -> ArgumentView {
        match self {
            Argument::Text(s) => ArgumentView::Text(s@),
            Argument::Flag(b) => ArgumentView::Flag(*b),
            Argument::Count(n) => ArgumentView::Count(*n),
            Argument::Members(m) => ArgumentView::Members(m@),
            Argument::Document(v) => ArgumentView::Document(**v),
        }
    }
}

/// What a value is read as. `complaint` is what the check of a document says
/// against it, if anything.
pub open spec fn value_read(
    value: serde_json::Value,
    kind: Kind,
    complaint: Option<Seq<char>>,
) -> Result<ArgumentView, Seq<char>> {
    match (kind, json_shape(value)) {
        (Kind::Text, Shape::Text(s)) => Ok(ArgumentView::Text(s)),
        (Kind::Text, _) => Err(json_complaint(value, Plain::Text)),
        (Kind::Flag, Shape::Flag(b)) => Ok(ArgumentView::Flag(b)),
        (Kind::Flag, _) => Err(json_complaint(value, Plain::Flag)),
        (Kind::Count, Shape::Integer(n)) => if 0 <= n <= u32::MAX {
            Ok(ArgumentView::Count(n as u32))
        } else {
            Err(json_complaint(value, Plain::Count))
        },
        (Kind::Count, _) => Err(json_complaint(value, Plain::Count)),
        (Kind::Members, Shape::Object(_)) => match json_map(value) {
            Some(m) => Ok(ArgumentView::Members(m)),
            None => Err(json_complaint(value, Plain::Members)),
        },
        (Kind::Members, _) => Err(json_complaint(value, Plain::Members)),
        (Kind::Document, _) => match complaint {
            Some(text) => Err(text),
            None => Ok(ArgumentView::Document(value)),
        },
    }
}

/// Whether what was read is what should have been.
pub open spec fn reads_as(
    read: Result<Argument, String>,
    expected: Result<ArgumentView, Seq<char>>,
) -> bool {
    match read {
        Ok(a) => expected == Ok::<ArgumentView, Seq<char>>(a@),
        Err(m) => expected == Err::<ArgumentView, Seq<char>>(m@),
    }
}

/// Reads a value.
pub fn read_value<'a>(value: &'a serde_json::Value, kind: Kind, complaint: Option<&str>) -> (read:
    Result<Argument<'a>, String>)
    ensures
        reads_as(read, value_read(*value, kind, text_view(complaint))),
{
    match kind {
        Kind::Text => match read_text(value) {
            Ok(s) => Ok(Argument::Text(s)),
            Err(e) => Err(error_text(&e)),
        },
        Kind::Flag => match read_flag(value) {
            Ok(b) => Ok(Argument::Flag(b)),
            Err(e) => Err(error_text(&e)),
        },
        Kind::Count => match read_count(value) {
            Ok(n) => Ok(Argument::Count(n)),
            Err(e) => Err(error_text(&e)),
        },
        Kind::Members => match read_members(value) {
            Ok(m) => Ok(Argument::Members(m)),
            Err(e) => Err(error_text(&e)),
        },
        Kind::Document => match complaint {
            Some(text) => Err(text.to_owned()),
            None => Ok(Argument::Document(value)),
        },
    }
}

/// What is said of an argument that is not there.
pub open spec fn missing_text(camel: Seq<char>) -> Seq<char> {
    "missing argument "@ + camel
}

/// What is said of an argument that cannot be read.
pub open spec fn invalid_text(camel: Seq<char>, complaint: Seq<char>) -> Seq<char> {
    "invalid "@ + camel + ": "@ + complaint
}

/// What an argument is read as, with what is said if it cannot be.
pub open spec fn named_read(
    value: serde_json::Value,
    camel: Seq<char>,
    kind: Kind,
    complaint: Option<Seq<char>>,
) -> Result<ArgumentView, Seq<char>> {
    match value_read(value, kind, complaint) {
        Ok(a) => Ok(a),
        Err(text) => Err(invalid_text(camel, text)),
    }
}

fn read_named<'a>(
    value: &'a serde_json::Value,
    camel: &str,
    kind: Kind,
    complaint: Option<&str>,
) -> (read: Result<Argument<'a>, String>)
    ensures
        reads_as(read, named_read(*value, camel@, kind, text_view(complaint))),
{
    match read_value(value, kind, complaint) {
        Ok(a) => Ok(a),
        Err(text) => {
            let mut m = "invalid ".to_owned();
            m.append(camel);
            m.append(": ");
            m.append(text.as_str());
            Err(m)
        },
    }
}

/// What an argument that has to be there is read as.
pub open spec fn field_read(
    args: serde_json::Value,
    camel: Seq<char>,
    snake: Seq<char>,
    kind: Kind,
    complaint: Option<Seq<char>>,
) -> Result<ArgumentView, Seq<char>> {
    match argument_of(args, camel, snake) {
        None => Err(missing_text(camel)),
        Some(v) => named_read(v, camel, kind, complaint),
    }
}

/// Reads an argument that has to be there.
pub fn field<'a>(
    args: &'a serde_json::Value,
    camel: &str,
    snake: &str,
    kind: Kind,
    complaint: Option<&str>,
) -> (read: Result<Argument<'a>, String>)
    ensures
        reads_as(read, field_read(*args, camel@, snake@, kind, text_view(complaint))),
{
    match argument(args, camel, snake) {
        None => {
            let mut m = "missing argument ".to_owned();
            m.append(camel);
            Err(m)
        },
        Some(v) => read_named(v, camel, kind, complaint),
    }
}

/// What an argument that may be left out is read as. One that is `null` is left
/// out.
pub open spec fn optional_read(
    args: serde_json::Value,
    camel: Seq<char>,
    snake: Seq<char>,
    kind: Kind,
    complaint: Option<Seq<char>>,
) -> Result<Option<ArgumentView>, Seq<char>> {
    match argument_of(args, camel, snake) {
        None => Ok(None),
        Some(v) => if json_shape(v) is Null {
            Ok(None)
        } else {
            match named_read(v, camel, kind, complaint) {
                Ok(a) => Ok(Some(a)),
                Err(text) => Err(text),
            }
        },
    }
}

/// The view of an argument that may have been left out.
pub open spec fn option_view(argument: Option<Argument>) -> Option<ArgumentView> {
    match argument {
        Some(a) => Some(a@),
        None => None,
    }
}

/// Whether what was read is what should have been.
pub open spec fn option_reads_as(
    read: Result<Option<Argument>, String>,
    expected: Result<Option<ArgumentView>, Seq<char>>,
) -> bool {
    match read {
        Ok(a) => expected == Ok::<Option<ArgumentView>, Seq<char>>(option_view(a)),
        Err(m) => expected == Err::<Option<ArgumentView>, Seq<char>>(m@),
    }
}

/// Reads an argument that may be left out.
pub fn optional<'a>(
    args: &'a serde_json::Value,
    camel: &str,
    snake: &str,
    kind: Kind,
    complaint: Option<&str>,
) -> (read: Result<Option<Argument<'a>>, String>)
    ensures
        option_reads_as(read, optional_read(*args, camel@, snake@, kind, text_view(complaint))),
{
    match argument(args, camel, snake) {
        None => Ok(None),
        Some(v) => {
            if is_null(v) {
                return Ok(None);
            }
            match read_named(v, camel, kind, complaint) {
                Ok(a) => Ok(Some(a)),
                Err(text) => Err(text),
            }
        },
    }
}

/// The browser's name wins over the server's, and the server's over the one made
/// from it. A request that has none of them has no such argument.
pub proof fn names_have_an_order(
    args: serde_json::Value,
    members: Map<Seq<char>, serde_json::Value>,
    camel: Seq<char>,
    snake: Seq<char>,
)
    requires
        json_shape(args) == Shape::Object(members),
    ensures
        members.contains_key(camel) ==> argument_of(args, camel, snake) == Some(members[camel]),
        !members.contains_key(camel) && members.contains_key(snake) ==> argument_of(
            args,
            camel,
            snake,
        ) == Some(members[snake]),
        !members.contains_key(camel) && !members.contains_key(snake) && !members.contains_key(
            camel_from(snake, false),
        ) ==> argument_of(args, camel, snake) is None,
{
}

/// Where an argument that has to be there can be read, one that may be left out
/// is read the same, and where the first is refused for what it is and not for
/// being absent or `null`, so is the second, in the same words.
pub proof fn optional_agrees_with_field(
    args: serde_json::Value,
    camel: Seq<char>,
    snake: Seq<char>,
    kind: Kind,
    complaint: Option<Seq<char>>,
)
    requires
        argument_of(args, camel, snake) matches Some(v) && !(json_shape(v) is Null),
    ensures
        match field_read(args, camel, snake, kind, complaint) {
            Ok(a) => optional_read(args, camel, snake, kind, complaint) == Ok::<
                Option<ArgumentView>,
                Seq<char>,
            >(Some(a)),
            Err(text) => optional_read(args, camel, snake, kind, complaint) == Err::<
                Option<ArgumentView>,
                Seq<char>,
            >(text),
        },
{
}

/// A name is taken apart at its underscores: what comes before one stays as it is
/// read, and what comes after begins raised.
pub proof fn names_are_joined_at_underscores(front: Seq<char>, back: Seq<char>, upper: bool)
    ensures
        camel_from(front + seq!['_'] + back, upper) == camel_from(front, upper) + camel_from(
            back,
            true,
        ),
    decreases front.len(),
{
    let name = front + seq!['_'] + back;
    if front.len() == 0 {
        assert(name[0] == '_');
        assert(name.skip(1) =~= back);
        assert(camel_from(front, upper) + camel_from(back, true) =~= camel_from(back, true));
    } else {
        let next = front[0] == '_';
        assert(name[0] == front[0]);
        assert(name.skip(1) =~= front.skip(1) + seq!['_'] + back);
        names_are_joined_at_underscores(front.skip(1), back, next);
        assert(camel_from(name, upper) =~= camel_from(front, upper) + camel_from(back, true));
    }
}

/// A part of a name that begins raised has its first letter raised and the others
/// as they are.
pub proof fn a_raised_part_begins_with_a_capital(part: Seq<char>)
    requires
        part.len() > 0,
        !part.contains('_'),
    ensures
        camel_from(part, true) == seq![ascii_upper(part[0])] + part.skip(1),
        camel_from(Seq::<char>::empty(), true) == Seq::<char>::empty(),
{
    assert(part.contains(part[0]));
    assert forall|c: char| part.skip(1).contains(c) implies part.contains(c) by {
        let i = choose|i: int| 0 <= i < part.skip(1).len() && part.skip(1)[i] == c;
        assert(part[i + 1] == c);
    }
    plain_names_stay(part.skip(1));
}

/// An argument that a request has only under the name made from the server's is
/// found under that. A value that is no object has no arguments.
pub proof fn the_made_name_is_looked_for_last(
    args: serde_json::Value,
    camel: Seq<char>,
    snake: Seq<char>,
)
    ensures
        json_shape(args) matches Shape::Object(members) ==> !members.contains_key(camel)
            && !members.contains_key(snake) && members.contains_key(camel_from(snake, false))
            ==> argument_of(args, camel, snake) == Some(members[camel_from(snake, false)]),
        !(json_shape(args) is Object) ==> argument_of(args, camel, snake) is None,
{
}

/// What is read is what the value is, in the kind that is wanted: a flag is read as
/// that flag and nothing else is, a text as that text, a whole number as that
/// number if it fits, an object as its map, and a document as itself unless there
/// is a complaint about it. So no two flags, texts or numbers are read alike.
pub proof fn values_are_read_as_they_are(
    value: serde_json::Value,
    kind: Kind,
    complaint: Option<Seq<char>>,
    flag: bool,
    text: Seq<char>,
    count: u32,
)
    ensures
        ({
            let read = value_read(value, kind, complaint);
            let ok = |a: ArgumentView| read == Ok::<ArgumentView, Seq<char>>(a);
            &&& ok(ArgumentView::Flag(flag)) <==> kind is Flag && json_shape(value) == Shape::Flag(
                flag,
            )
            &&& ok(ArgumentView::Text(text)) <==> kind is Text && json_shape(value) == Shape::Text(
                text,
            )
            &&& ok(ArgumentView::Count(count)) <==> kind is Count && json_shape(value)
                == Shape::Integer(count as int)
            &&& ok(ArgumentView::Document(value)) <==> kind is Document && complaint is None
            &&& read matches Ok(ArgumentView::Members(m)) ==> kind is Members && json_shape(
                value,
            ) is Object && json_map(value) == Some(m)
            &&& kind is Members && json_shape(value) is Object && json_map(value) is Some
                ==> read is Ok
            &&& read matches Ok(ArgumentView::Document(v)) ==> v == value
        }),
{
}

/// A value that cannot be read is refused in the words for the kind that was
/// wanted, and a document in the words of the complaint about it. It is refused
/// exactly if it is not of that kind.
pub proof fn values_of_another_kind_are_refused(
    value: serde_json::Value,
    kind: Kind,
    complaint: Option<Seq<char>>,
)
    ensures
        ({
            let read = value_read(value, kind, complaint);
            let said = |t: Seq<char>| read == Err::<ArgumentView, Seq<char>>(t);
            match kind {
                Kind::Text => {
                    &&& read is Ok <==> json_shape(value) is Text
                    &&& read is Err ==> said(json_complaint(value, Plain::Text))
                },
                Kind::Flag => {
                    &&& read is Ok <==> json_shape(value) is Flag
                    &&& read is Err ==> said(json_complaint(value, Plain::Flag))
                },
                Kind::Count => {
                    &&& read is Ok <==> (json_shape(value) matches Shape::Integer(n) && 0 <= n
                        <= u32::MAX)
                    &&& read is Err ==> said(json_complaint(value, Plain::Count))
                },
                Kind::Members => {
                    &&& read is Ok ==> json_shape(value) is Object
                    &&& read is Err ==> said(json_complaint(value, Plain::Members))
                },
                Kind::Document => match complaint {
                    None => read is Ok,
                    Some(text) => said(text),
                },
            }
        }),
{
}

/// An argument that has to be there is read as its value is; it is refused as
/// missing exactly if the request has it under no name, and otherwise with what is
/// said of the value, after its name. One that may be left out is left out exactly
/// if the request has it under no name or as `null`, and read alike if not.
pub proof fn arguments_are_read_as_their_values(
    args: serde_json::Value,
    camel: Seq<char>,
    snake: Seq<char>,
    kind: Kind,
    complaint: Option<Seq<char>>,
)
    ensures
        ({
            let needed = field_read(args, camel, snake, kind, complaint);
            let allowed = optional_read(args, camel, snake, kind, complaint);
            match argument_of(args, camel, snake) {
                None => {
                    &&& needed == Err::<ArgumentView, Seq<char>>("missing argument "@ + camel)
                    &&& allowed == Ok::<Option<ArgumentView>, Seq<char>>(None)
                },
                Some(v) => {
                    &&& value_read(v, kind, complaint) matches Ok(a) ==> needed == Ok::<
                        ArgumentView,
                        Seq<char>,
                    >(a)
                    &&& value_read(v, kind, complaint) matches Err(t) ==> needed == Err::<
                        ArgumentView,
                        Seq<char>,
                    >("invalid "@ + camel + ": "@ + t)
                    &&& allowed == Ok::<Option<ArgumentView>, Seq<char>>(None) <==> json_shape(
                        v,
                    ) is Null
                },
            }
        }),
{
}

/// An argument is seen as what it is: a flag as that flag, a number as that number,
/// a text, a map and a document each as their own.
pub proof fn arguments_are_seen_as_they_are(a: Argument, flag: bool, count: u32)
    ensures
        a@ == ArgumentView::Flag(flag) <==> a == Argument::Flag(flag),
        a@ == ArgumentView::Count(count) <==> a == Argument::Count(count),
        a matches Argument::Text(s) ==> a@ == ArgumentView::Text(s@),
        a matches Argument::Members(m) ==> a@ == ArgumentView::Members(m@),
        a matches Argument::Document(v) ==> a@ == ArgumentView::Document(*v),
{
}

/// What was read is right in just one case: it was to be read, and as this, or it
/// was to be refused, and in these words.
pub proof fn readings_are_right_in_one_way(
    a: Argument,
    m: String,
    expected: Result<ArgumentView, Seq<char>>,
    optional: Result<Option<ArgumentView>, Seq<char>>,
)
    ensures
        reads_as(Ok(a), expected) <==> expected == Ok::<ArgumentView, Seq<char>>(a@),
        reads_as(Err(m), expected) <==> expected == Err::<ArgumentView, Seq<char>>(m@),
        option_reads_as(Ok(Some(a)), optional) <==> optional == Ok::<
            Option<ArgumentView>,
            Seq<char>,
        >(Some(a@)),
        option_reads_as(Ok(None), optional) <==> optional == Ok::<Option<ArgumentView>, Seq<char>>(
            None,
        ),
        option_reads_as(Err(m), optional) <==> optional == Err::<Option<ArgumentView>, Seq<char>>(
            m@,
        ),
{
}

} // verus!
