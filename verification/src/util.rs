//! Conversions between the values that cross the boundary and the library's own.
use vstd::prelude::*;
use vstd::string::StringSliceAdditionalSpecFns;
use crate::ctypes;
use crate::handle::{sub_handles, Handle, Object, ObjectTable, TaggedResult};
use crate::syntax::{ParseError, Pos, QuoteError};
use crate::Error;

verus! {

/// The truth value that the byte `num` stands for on the boundary.
pub open spec fn spec_to_bool(num: u8) -> bool {
    num == 1
}

/// The byte that stands for `boolean` on the boundary.
pub open spec fn spec_to_u8(boolean: bool) -> u8 {
    if boolean {
        1
    } else {
        0
    }
}

/// Convert a [`u8`] into a [`bool`]. Only 0 and 1 stand for a truth value.
#[verifier::when_used_as_spec(spec_to_bool)]
pub fn to_bool(num: u8) -> (b: bool)
    requires
        num <= 1,
    ensures
        b == spec_to_bool(num),
        spec_to_u8(b) == num,
{
    num == 1
}

/// Convert a [`u8`] into a [`bool`], or `None` where the byte is neither 0 nor 1.
pub fn checked_to_bool(num: u8) -> (b: Option<bool>)
    ensures
        b == (if num <= 1 {
            Some(spec_to_bool(num))
        } else {
            None
        }),
{
    if num <= 1 {
        Some(to_bool(num))
    } else {
        None
    }
}

/// Convert a [`bool`] into a [`u8`].
#[verifier::when_used_as_spec(spec_to_u8)]
pub fn to_u8(boolean: bool) -> (num: u8)
    ensures
        num == spec_to_u8(boolean),
        num <= 1,
        spec_to_bool(num) == boolean,
{
    match boolean {
        true => 1,
        false => 0,
    }
}

/// Marshals `text` for a call across the boundary: its bytes, closed by one zero byte. A
/// text that holds a zero byte itself cannot cross, and `None` is returned for it.
pub fn to_c_string(text: &str) -> (buffer: Option<Vec<u8>>)
    ensures
        buffer is Some == !text.spec_bytes().contains(0u8),
        buffer is Some ==> buffer->0@ == text.spec_bytes().push(0u8),
{
    let bytes = text.as_bytes();
    let mut buffer: Vec<u8> = Vec::new();
    let mut i: usize = 0;
    while i < bytes.len()
        invariant
            bytes@ == text.spec_bytes(),
            i <= bytes@.len(),
            buffer@ == bytes@.take(i as int),
            forall|j: int| 0 <= j < i ==> bytes@[j] != 0u8,
        decreases bytes@.len() - i,
    {
        let byte: u8 = bytes[i];
        if byte == 0 {
            return None;
        }
        buffer.push(byte);
        i += 1;
    }
    buffer.push(0);
    Some(buffer)
}

/// The typed error that an error object stands for, or `None` for an object that is no
/// error.
pub open spec fn spec_typed_error(obj: Object) -> Option<Error> {
    match obj {
        Object::NativeError(native) => Some(Error::IO(native)),
        Object::ParseError { filename, pos, text, incomplete } => Some(
            Error::Parse(
                ParseError { filename: ParseError::spec_filename(filename), pos, text, incomplete },
            ),
        ),
        Object::QuoteError { byte_offset, msg } => Some(
            Error::Quote(QuoteError { byte_offset: byte_offset as u32, msg }),
        ),
        Object::Message(msg) => Some(Error::Unknown(msg)),
        _ => None,
    }
}

/// Convert the error object that `obj_ptr` names, announced by the discriminant `err_int`,
/// into a [`crate::Error`].
///
/// The object's fields are read through the handle, and then the handle is released, here
/// and in every branch: the caller must not release it again, and cannot. The position of
/// a parse error comes under a handle of its own, which is read and released here too.
/// The discriminant has to announce the object that the handle names; the four reserved
/// error kinds announce none, and [`ObjectTable::fits`] tells beforehand.
pub fn error_obj_to_rust(table: &mut ObjectTable, obj_ptr: Handle, err_int: i32) -> (err: Error)
    requires
        ctypes::HUSK_ERROR_IO <= err_int <= ctypes::HUSK_ERROR_UNKNOWN,
        old(table).spec_fits(obj_ptr.spec_addr(), err_int),
    ensures
        Some(err) == spec_typed_error(old(table)@[obj_ptr.spec_addr()]),
        final(table)@ == old(table)@.remove(obj_ptr.spec_addr()),
        final(table).issued() == old(table).issued() + sub_handles(
            old(table)@[obj_ptr.spec_addr()],
        ),
        final(table).asked() == old(table).asked(),
{
    if err_int == ctypes::HUSK_ERROR_IO {
        match table.release(obj_ptr) {
            Some(Object::NativeError(native)) => Error::IO(native),
            _ => unreached(),
        }
    } else if err_int == ctypes::HUSK_ERROR_PARSE {
        let data = table.parse_error_data(&obj_ptr);
        let offset: u32 = table.pos_offset(&data.r1);
        let line: u32 = table.pos_line(&data.r1);
        let col: u32 = table.pos_col(&data.r1);
        table.release(data.r1);
        table.release(obj_ptr);
        proof {
            Pos::lemma_new_of_fields(old(table)@[obj_ptr.spec_addr()]->ParseError_pos);
        }
        Error::Parse(ParseError::new(data.r0, Pos::new(offset, line, col), data.r2, data.r3))
    } else if err_int == ctypes::HUSK_ERROR_QUOTE {
        let data = table.quote_error_data(&obj_ptr);
        table.release(obj_ptr);
        Error::Quote(QuoteError::new(data.r0, data.r1))
    } else {
        let error_str = table.error_to_string(&obj_ptr);
        table.release(obj_ptr);
        Error::Unknown(error_str)
    }
}

/// Why a tagged result cannot be turned into a typed error.
#[derive(Clone, Copy, Debug, PartialEq, Eq, Structural)]
pub enum Violation {
    /// The discriminant is not in the table: the two sides disagree on it.
    OutsideTable,
    /// The discriminant announces a success.
    NotAnError,
    /// The discriminant announces one of the reserved kinds, of which no typed error exists.
    Reserved,
    /// The handle names no object, or one that the discriminant does not announce.
    WrongPayload,
}

/// What stands in the way of turning the object under `id`, announced by `err_int`, into a
/// typed error, or `None` where nothing does. The discriminant is judged first.
pub open spec fn spec_violation(table: &ObjectTable, id: usize, err_int: i32) -> Option<Violation> {
    match ctypes::spec_classify(err_int) {
        None => Some(Violation::OutsideTable),
        Some(ctypes::Discriminant::Success(_)) => Some(Violation::NotAnError),
        Some(ctypes::Discriminant::Error(kind)) => if !kind.spec_is_implemented() {
            Some(Violation::Reserved)
        } else if !table.spec_fits(id, err_int) {
            Some(Violation::WrongPayload)
        } else {
            None
        },
    }
}

/// Every integer has its answer, and none a wrong-shaped one. An integer outside the
/// table is a violation, whatever the payload. A reserved error kind is a violation too:
/// no object fits it, so [`error_obj_to_rust`] cannot be called with it, and it never
/// comes out as an unknown error. An implemented error kind with the payload that it
/// announces gives the typed error of that kind, and a success shape announces the object
/// of that shape.
pub proof fn lemma_discriminant_coverage(table: &ObjectTable, id: usize, code: i32)
    ensures
        !ctypes::in_table(code) ==> spec_violation(table, id, code) == Some(
            Violation::OutsideTable,
        ) && !table.spec_fits(id, code),
        ctypes::HUSK_ERROR_UNEXPECTED_COMMAND <= code <= ctypes::HUSK_ERROR_LANG ==> spec_violation(
            table,
            id,
            code,
        ) == Some(Violation::Reserved) && !table.spec_fits(id, code),
        ctypes::HUSK_SHELL_EXPAND_STRING <= code <= ctypes::HUSK_SYNTAX_PARSER_FILE
            ==> spec_violation(table, id, code) == Some(Violation::NotAnError),
        spec_violation(table, id, code) is None <==> table.spec_fits(id, code) && (code
            == ctypes::HUSK_ERROR_IO || code == ctypes::HUSK_ERROR_PARSE || code
            == ctypes::HUSK_ERROR_QUOTE || code == ctypes::HUSK_ERROR_UNKNOWN),
        table.spec_fits(id, code) && code == ctypes::HUSK_ERROR_IO ==> spec_typed_error(
            table@[id],
        ) is Some && spec_typed_error(table@[id])->0 is IO,
        table.spec_fits(id, code) && code == ctypes::HUSK_ERROR_PARSE ==> spec_typed_error(
            table@[id],
        ) is Some && spec_typed_error(table@[id])->0 is Parse,
        table.spec_fits(id, code) && code == ctypes::HUSK_ERROR_QUOTE ==> spec_typed_error(
            table@[id],
        ) is Some && spec_typed_error(table@[id])->0 is Quote,
        table.spec_fits(id, code) && code == ctypes::HUSK_ERROR_UNKNOWN ==> spec_typed_error(
            table@[id],
        ) is Some && spec_typed_error(table@[id])->0 is Unknown,
        table.spec_fits(id, code) && (code == ctypes::HUSK_SHELL_EXPAND_STRING || code
            == ctypes::HUSK_SYNTAX_QUOTE_STRING) ==> table@[id] is Text,
        table.spec_fits(id, code) && code == ctypes::HUSK_SHELL_FIELDS_STRINGS
            ==> table@[id] is Strings,
        table.spec_fits(id, code) && code == ctypes::HUSK_SYNTAX_PARSER_FILE ==> table@[id] is File,
{
}

/// Convert an error object into a [`crate::Error`] where the tagged result keeps to the
/// protocol, and say how it breaks the protocol where it does not. A result that breaks
/// the protocol leaves the table as it was and gets its handle back, unreleased: no caller
/// can recover from it, and none should go on as if it were an error of the ordinary kind.
pub fn checked_error_obj_to_rust(table: &mut ObjectTable, obj_ptr: Handle, err_int: i32) -> (res:
    Result<Error, (Violation, Handle)>)
    ensures
        match spec_violation(old(table), obj_ptr.spec_addr(), err_int) {
            None => {
                &&& res is Ok
                &&& Some(res->Ok_0) == spec_typed_error(old(table)@[obj_ptr.spec_addr()])
                &&& final(table)@ == old(table)@.remove(obj_ptr.spec_addr())
            },
            Some(violation) => {
                &&& res == Err::<Error, (Violation, Handle)>((violation, obj_ptr))
                &&& final(table)@ == old(table)@
            },
        },
        final(table).issued() == old(table).issued() + (if res is Ok {
            sub_handles(old(table)@[obj_ptr.spec_addr()])
        } else {
            0
        }),
        final(table).asked() == old(table).asked(),
{
    match ctypes::classify(err_int) {
        None => Err((Violation::OutsideTable, obj_ptr)),
        Some(ctypes::Discriminant::Success(_)) => Err((Violation::NotAnError, obj_ptr)),
        Some(ctypes::Discriminant::Error(kind)) => {
            if !kind.is_implemented() {
                Err((Violation::Reserved, obj_ptr))
            } else if !table.fits(&obj_ptr, err_int) {
                Err((Violation::WrongPayload, obj_ptr))
            } else {
                Ok(error_obj_to_rust(table, obj_ptr, err_int))
            }
        },
    }
}

/// The questions that reading an array asks: the indices from 0 up, `n` of them, each asked
/// once of the array under `id`.
pub open spec fn questions(id: usize, n: nat) -> Seq<(usize, usize)> {
    Seq::new(n, |i: int| (id, i as usize))
}

/// Asks the array that `array_ptr` names for one index after the other until it reports
/// its end. Returns the strings, and the index at which the end was met.
fn probe_until_end(table: &mut ObjectTable, array_ptr: &Handle) -> (out: (Vec<String>, usize))
    requires
        old(table)@.contains_key(array_ptr.spec_addr()),
        old(table)@[array_ptr.spec_addr()] is Strings,
    ensures
        out.0@ == old(table)@[array_ptr.spec_addr()]->Strings_0@,
        out.1 == out.0@.len(),
        final(table)@ == old(table)@,
        final(table).issued() == old(table).issued(),
        final(table).asked() == old(table).asked() + questions(
            array_ptr.spec_addr(),
            (out.0@.len() + 1) as nat,
        ),
{
    let ghost items = old(table)@[array_ptr.spec_addr()]->Strings_0@;
    let ghost id = array_ptr.spec_addr();
    let mut index: usize = 0;
    let mut rust_vec: Vec<String> = Vec::new();
    loop
        invariant_except_break
            table.asked() == old(table).asked() + questions(id, index as nat),
        invariant
            table@ == old(table)@,
            table.issued() == old(table).issued(),
            id == array_ptr.spec_addr(),
            table@.contains_key(id),
            table@[id] is Strings,
            items == table@[id]->Strings_0@,
            index <= items.len(),
            rust_vec@ == items.take(index as int),
        ensures
            index == items.len(),
            table.asked() == old(table).asked() + questions(id, (index + 1) as nat),
        decreases items.len() - index,
    {
        let answer = table.get_string_from_array(array_ptr, index);
        match answer {
            None => {
                break ;
            },
            Some(item) => {
                rust_vec.push(item);
                index += 1;
            },
        }
    }
    (rust_vec, index)
}

/// Reads the array of strings that `array_ptr` names by asking for one index after the
/// other until the array reports its end. Returns the strings in their order, together
/// with the number of questions asked: one for each string, and the one that met the end.
/// The handle stays live.
pub fn probe_string_array(table: &mut ObjectTable, array_ptr: &Handle) -> (out: (
    Vec<String>,
    usize,
))
    requires
        old(table)@.contains_key(array_ptr.spec_addr()),
        old(table)@[array_ptr.spec_addr()] is Strings,
        old(table)@[array_ptr.spec_addr()]->Strings_0@.len() < usize::MAX,
    ensures
        out.0@ == old(table)@[array_ptr.spec_addr()]->Strings_0@,
        out.1 == out.0@.len() + 1,
        final(table)@ == old(table)@,
        final(table).issued() == old(table).issued(),
        final(table).asked() == old(table).asked() + questions(
            array_ptr.spec_addr(),
            (out.0@.len() + 1) as nat,
        ),
{
    let found = probe_until_end(table, array_ptr);
    (found.0, found.1 + 1)
}

/// Get a [`Vec<String>`] from the handle of an array of strings: the same strings in the
/// same order. The array is asked for the indices from 0 up, each once, until it reports
/// its end: one question more than it has strings. The handle is released after that, and
/// names nothing afterwards.
pub fn go_to_rust_string_vec(table: &mut ObjectTable, array_ptr: Handle) -> (rust_vec: Vec<String>)
    requires
        old(table)@.contains_key(array_ptr.spec_addr()),
        old(table)@[array_ptr.spec_addr()] is Strings,
    ensures
        rust_vec@ == old(table)@[array_ptr.spec_addr()]->Strings_0@,
        final(table)@ == old(table)@.remove(array_ptr.spec_addr()),
        final(table).issued() == old(table).issued(),
        final(table).asked() == old(table).asked() + questions(
            array_ptr.spec_addr(),
            (rust_vec@.len() + 1) as nat,
        ),
{
    let found = probe_until_end(table, &array_ptr);
    table.release(array_ptr);
    found.0
}

/// The payload of a call that succeeded, in values of the caller's own.
#[derive(Debug)]
pub enum Payload {
    /// A plain string.
    String(String),
    /// An array of strings.
    Strings(Vec<String>),
    /// Nothing to read.
    Nothing,
}

/// Whether `payload` is what the caller gets of the object `obj` after a call that
/// succeeded.
pub open spec fn spec_payload_of(obj: Object, payload: Payload) -> bool {
    match obj {
        Object::Text(text) => payload == Payload::String(text),
        Object::Strings(items) => payload is Strings && payload->Strings_0@ == items@,
        Object::File => payload is Nothing,
        _ => false,
    }
}

/// Reads a tagged result of any kind: branches on the discriminant, takes the payload of a
/// success into values of the caller's own, turns the payload of an error into the typed
/// error, and releases the handle. A result that breaks the protocol (a discriminant that
/// is not in the table or of a reserved kind, a payload that the discriminant does not
/// announce) leaves the table as it was and gets its handle back, unreleased.
pub fn classify_result(table: &mut ObjectTable, resp: TaggedResult) -> (res: Result<
    Result<Payload, Error>,
    (Violation, Handle),
>)
    ensures
        final(table).issued() == old(table).issued() + (if res is Ok {
            sub_handles(old(table)@[resp.r0.spec_addr()])
        } else {
            0
        }),
        final(table).asked() == old(table).asked() + (if resp.r1
            == ctypes::HUSK_SHELL_FIELDS_STRINGS && old(table).spec_fits(
            resp.r0.spec_addr(),
            resp.r1,
        ) {
            questions(
                resp.r0.spec_addr(),
                (old(table)@[resp.r0.spec_addr()]->Strings_0@.len() + 1) as nat,
            )
        } else {
            Seq::<(usize, usize)>::empty()
        }),
        match ctypes::spec_classify(resp.r1) {
            Some(ctypes::Discriminant::Success(_)) => if old(table).spec_fits(
                resp.r0.spec_addr(),
                resp.r1,
            ) {
                &&& res is Ok
                &&& res->Ok_0 is Ok
                &&& spec_payload_of(old(table)@[resp.r0.spec_addr()], res->Ok_0->Ok_0)
                &&& final(table)@ == old(table)@.remove(resp.r0.spec_addr())
            } else {
                &&& res == Err::<Result<Payload, Error>, (Violation, Handle)>(
                    (Violation::WrongPayload, resp.r0),
                )
                &&& final(table)@ == old(table)@
            },
            _ => match spec_violation(old(table), resp.r0.spec_addr(), resp.r1) {
                None => {
                    &&& res is Ok
                    &&& res->Ok_0 is Err
                    &&& Some(res->Ok_0->Err_0) == spec_typed_error(
                        old(table)@[resp.r0.spec_addr()],
                    )
                    &&& final(table)@ == old(table)@.remove(resp.r0.spec_addr())
                },
                Some(violation) => {
                    &&& res == Err::<Result<Payload, Error>, (Violation, Handle)>(
                        (violation, resp.r0),
                    )
                    &&& final(table)@ == old(table)@
                },
            },
        },
{
    match ctypes::classify(resp.r1) {
        Some(ctypes::Discriminant::Success(shape)) => {
            if !table.fits(&resp.r0, resp.r1) {
                return Err((Violation::WrongPayload, resp.r0));
            }
            let payload = match shape {
                ctypes::SuccessShape::ExpandString | ctypes::SuccessShape::QuoteString => {
                    let text = table.stringer_to_string(&resp.r0);
                    table.release(resp.r0);
                    Payload::String(text)
                },
                ctypes::SuccessShape::FieldsStrings => Payload::Strings(
                    go_to_rust_string_vec(table, resp.r0),
                ),
                ctypes::SuccessShape::ParserFile => {
                    table.release(resp.r0);
                    Payload::Nothing
                },
            };
            Ok(Ok(payload))
        },
        _ => match checked_error_obj_to_rust(table, resp.r0, resp.r1) {
            Ok(err) => Ok(Err(err)),
            Err(violation) => Err(violation),
        },
    }
}

} // verus!
