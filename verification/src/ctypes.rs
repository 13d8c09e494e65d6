//! The discriminant table shared by both sides of the boundary, and the stream-read bridge.
use vstd::prelude::*;
use crate::envmap::EnvMap;
use crate::handle::{Handle, Object, ObjectTable};
use crate::util;
use crate::Error;

verus! {

pub const HUSK_ERROR_IO: i32 = 0;
pub const HUSK_ERROR_UNEXPECTED_COMMAND: i32 = 1;
pub const HUSK_ERROR_UNSET_PARAMETER: i32 = 2;
pub const HUSK_ERROR_EXIT_STATUS: i32 = 3;
pub const HUSK_ERROR_LANG: i32 = 4;
pub const HUSK_ERROR_PARSE: i32 = 5;
pub const HUSK_ERROR_QUOTE: i32 = 6;
pub const HUSK_ERROR_UNKNOWN: i32 = 7;

pub const HUSK_SHELL_EXPAND_STRING: i32 = 8;
pub const HUSK_SHELL_FIELDS_STRINGS: i32 = 9;
pub const HUSK_SYNTAX_QUOTE_STRING: i32 = 10;
pub const HUSK_SYNTAX_PARSER_FILE: i32 = 11;

pub const HUSK_LANG_BASH: i32 = 12;
pub const HUSK_LANG_POSIX: i32 = 13;
pub const HUSK_LANG_MKSH: i32 = 14;
pub const HUSK_LANG_BATS: i32 = 15;
pub const HUSK_LANG_AUTO: i32 = 16;

/// The kinds of error that a tagged result can announce.
#[derive(Clone, Copy, Debug, PartialEq, Eq, Structural)]
pub enum ErrorKind {
    IO,
    UnexpectedCommand,
    UnsetParameter,
    ExitStatus,
    Lang,
    Parse,
    Quote,
    Unknown,
}

/// The shapes of payload that a successful call can return.
#[derive(Clone, Copy, Debug, PartialEq, Eq, Structural)]
pub enum SuccessShape {
    /// The payload is a plain string.
    ExpandString,
    /// The payload is an array of strings.
    FieldsStrings,
    /// The payload is a plain string.
    QuoteString,
    /// The call succeeded and the payload carries nothing to read.
    ParserFile,
}

/// What a discriminant of a tagged result stands for.
#[derive(Clone, Copy, Debug, PartialEq, Eq, Structural)]
pub enum Discriminant {
    Error(ErrorKind),
    Success(SuccessShape),
}

impl ErrorKind {
    /// The discriminant of this kind.
    pub open spec fn spec_code(self) -> i32 {
        match self {
            ErrorKind::IO => HUSK_ERROR_IO,
            ErrorKind::UnexpectedCommand => HUSK_ERROR_UNEXPECTED_COMMAND,
            ErrorKind::UnsetParameter => HUSK_ERROR_UNSET_PARAMETER,
            ErrorKind::ExitStatus => HUSK_ERROR_EXIT_STATUS,
            ErrorKind::Lang => HUSK_ERROR_LANG,
            ErrorKind::Parse => HUSK_ERROR_PARSE,
            ErrorKind::Quote => HUSK_ERROR_QUOTE,
            ErrorKind::Unknown => HUSK_ERROR_UNKNOWN,
        }
    }

    /// Whether errors of this kind have a typed form. The other four kinds are reserved:
    /// their discriminants are part of the table, but no error can be built from them.
    pub open spec fn spec_is_implemented(self) -> bool {
        self == ErrorKind::IO || self == ErrorKind::Parse || self == ErrorKind::Quote
            || self == ErrorKind::Unknown
    }

    #[verifier::when_used_as_spec(spec_code)]
    pub fn code(self) -> (c: i32)
        ensures
            c == self.spec_code(),
    {
        match self {
            ErrorKind::IO => HUSK_ERROR_IO,
            ErrorKind::UnexpectedCommand => HUSK_ERROR_UNEXPECTED_COMMAND,
            ErrorKind::UnsetParameter => HUSK_ERROR_UNSET_PARAMETER,
            ErrorKind::ExitStatus => HUSK_ERROR_EXIT_STATUS,
            ErrorKind::Lang => HUSK_ERROR_LANG,
            ErrorKind::Parse => HUSK_ERROR_PARSE,
            ErrorKind::Quote => HUSK_ERROR_QUOTE,
            ErrorKind::Unknown => HUSK_ERROR_UNKNOWN,
        }
    }

    #[verifier::when_used_as_spec(spec_is_implemented)]
    pub fn is_implemented(self) -> (b: bool)
        ensures
            b == self.spec_is_implemented(),
    {
        match self {
            ErrorKind::IO | ErrorKind::Parse | ErrorKind::Quote | ErrorKind::Unknown => true,
            _ => false,
        }
    }
}

impl SuccessShape {
    /// The discriminant of this shape.
    pub open spec fn spec_code(self) -> i32 {
        match self {
            SuccessShape::ExpandString => HUSK_SHELL_EXPAND_STRING,
            SuccessShape::FieldsStrings => HUSK_SHELL_FIELDS_STRINGS,
            SuccessShape::QuoteString => HUSK_SYNTAX_QUOTE_STRING,
            SuccessShape::ParserFile => HUSK_SYNTAX_PARSER_FILE,
        }
    }

    #[verifier::when_used_as_spec(spec_code)]
    pub fn code(self) -> (c: i32)
        ensures
            c == self.spec_code(),
    {
        match self {
            SuccessShape::ExpandString => HUSK_SHELL_EXPAND_STRING,
            SuccessShape::FieldsStrings => HUSK_SHELL_FIELDS_STRINGS,
            SuccessShape::QuoteString => HUSK_SYNTAX_QUOTE_STRING,
            SuccessShape::ParserFile => HUSK_SYNTAX_PARSER_FILE,
        }
    }
}

impl Discriminant {
    /// The integer that stands for this discriminant on the boundary.
    pub open spec fn spec_code(self) -> i32 {
        match self {
            Discriminant::Error(kind) => kind.spec_code(),
            Discriminant::Success(shape) => shape.spec_code(),
        }
    }

    #[verifier::when_used_as_spec(spec_code)]
    pub fn code(self) -> (c: i32)
        ensures
            c == self.spec_code(),
    {
        match self {
            Discriminant::Error(kind) => kind.code(),
            Discriminant::Success(shape) => shape.code(),
        }
    }
}

/// Whether `code` is one of the result discriminants of the table.
pub open spec fn in_table(code: i32) -> bool {
    HUSK_ERROR_IO <= code <= HUSK_SYNTAX_PARSER_FILE
}

/// The meaning of `code`: the one discriminant whose integer it is, if there is one.
pub open spec fn spec_classify(code: i32) -> Option<Discriminant> {
    if code == HUSK_ERROR_IO {
        Some(Discriminant::Error(ErrorKind::IO))
    } else if code == HUSK_ERROR_UNEXPECTED_COMMAND {
        Some(Discriminant::Error(ErrorKind::UnexpectedCommand))
    } else if code == HUSK_ERROR_UNSET_PARAMETER {
        Some(Discriminant::Error(ErrorKind::UnsetParameter))
    } else if code == HUSK_ERROR_EXIT_STATUS {
        Some(Discriminant::Error(ErrorKind::ExitStatus))
    } else if code == HUSK_ERROR_LANG {
        Some(Discriminant::Error(ErrorKind::Lang))
    } else if code == HUSK_ERROR_PARSE {
        Some(Discriminant::Error(ErrorKind::Parse))
    } else if code == HUSK_ERROR_QUOTE {
        Some(Discriminant::Error(ErrorKind::Quote))
    } else if code == HUSK_ERROR_UNKNOWN {
        Some(Discriminant::Error(ErrorKind::Unknown))
    } else if code == HUSK_SHELL_EXPAND_STRING {
        Some(Discriminant::Success(SuccessShape::ExpandString))
    } else if code == HUSK_SHELL_FIELDS_STRINGS {
        Some(Discriminant::Success(SuccessShape::FieldsStrings))
    } else if code == HUSK_SYNTAX_QUOTE_STRING {
        Some(Discriminant::Success(SuccessShape::QuoteString))
    } else if code == HUSK_SYNTAX_PARSER_FILE {
        Some(Discriminant::Success(SuccessShape::ParserFile))
    } else {
        None
    }
}

/// Looks `code` up in the discriminant table. `None` means that the two sides of the
/// boundary disagree on the table, which no caller can recover from.
#[verifier::when_used_as_spec(spec_classify)]
pub fn classify(code: i32) -> (d: Option<Discriminant>)
    ensures
        d == spec_classify(code),
        d is Some <==> in_table(code),
        d is Some ==> d->0.spec_code() == code,
{
    if code == HUSK_ERROR_IO {
        Some(Discriminant::Error(ErrorKind::IO))
    } else if code == HUSK_ERROR_UNEXPECTED_COMMAND {
        Some(Discriminant::Error(ErrorKind::UnexpectedCommand))
    } else if code == HUSK_ERROR_UNSET_PARAMETER {
        Some(Discriminant::Error(ErrorKind::UnsetParameter))
    } else if code == HUSK_ERROR_EXIT_STATUS {
        Some(Discriminant::Error(ErrorKind::ExitStatus))
    } else if code == HUSK_ERROR_LANG {
        Some(Discriminant::Error(ErrorKind::Lang))
    } else if code == HUSK_ERROR_PARSE {
        Some(Discriminant::Error(ErrorKind::Parse))
    } else if code == HUSK_ERROR_QUOTE {
        Some(Discriminant::Error(ErrorKind::Quote))
    } else if code == HUSK_ERROR_UNKNOWN {
        Some(Discriminant::Error(ErrorKind::Unknown))
    } else if code == HUSK_SHELL_EXPAND_STRING {
        Some(Discriminant::Success(SuccessShape::ExpandString))
    } else if code == HUSK_SHELL_FIELDS_STRINGS {
        Some(Discriminant::Success(SuccessShape::FieldsStrings))
    } else if code == HUSK_SYNTAX_QUOTE_STRING {
        Some(Discriminant::Success(SuccessShape::QuoteString))
    } else if code == HUSK_SYNTAX_PARSER_FILE {
        Some(Discriminant::Success(SuccessShape::ParserFile))
    } else {
        None
    }
}

/// Every discriminant has one integer and every integer of the table one discriminant:
/// `classify` undoes `code`, and it answers exactly on the integers of the table.
pub proof fn lemma_classify_covers_table(d: Discriminant, code: i32)
    ensures
        spec_classify(d.spec_code()) == Some(d),
        in_table(d.spec_code()),
        in_table(code) <==> spec_classify(code) is Some,
        spec_classify(code) == Some(d) <==> d.spec_code() == code,
{
}

/// The entry point by which the callee tells the names of an environment one by one: the
/// name at `index`, or `None` once the index has passed the last name.
#[allow(non_snake_case)]
pub fn HuskRustGetHashMapKey(hmap: &EnvMap, index: u32) -> (key: Option<String>)
    ensures
        key is Some == (index < hmap.spec_keys().len()),
        key is Some ==> key->0@ == hmap.spec_keys()[index as int],
{
    hmap.key_at(index as usize)
}

/// The entry point by which the callee asks an environment for the value of `key`: the
/// value, or `None` where the environment has no such variable.
#[allow(non_snake_case)]
pub fn HuskRustGetHashMapValue(hmap: &EnvMap, key: &str) -> (value: Option<String>)
    requires
        hmap.wf(),
    ensures
        value is Some == hmap@.contains_key(key@),
        value is Some ==> value->0@ == hmap@[key@],
{
    hmap.get(key)
}

/// A read failure that waits in a [`ByteSource`] until the cursor reaches `at`.
#[derive(Debug)]
struct Fault {
    at: usize,
    error: std::io::Error,
}

/// A finite byte source held in memory. It yields its bytes in order, one per read, and
/// can be armed with one failure that is raised in place of the byte at a chosen position.
/// Once raised the failure is gone, and the next read goes on where the cursor stands.
#[derive(Debug)]
pub struct ByteSource {
    data: Vec<u8>,
    cursor: usize,
    fault: Option<Fault>,
}

/// A failure that waits in a source.
pub struct FaultView {
    /// The position at which the failure is raised.
    pub at: nat,
    /// The error that it raises.
    pub error: std::io::Error,
}

/// What a [`ByteSource`] is made of.
pub struct SourceView {
    /// All the bytes of the source, read or not.
    pub bytes: Seq<u8>,
    /// How many bytes have been read.
    pub position: nat,
    /// The failure that waits in the source, if one does.
    pub fault: Option<FaultView>,
}

impl SourceView {
    /// The cursor stands within the bytes or at their end.
    pub open spec fn wf(self) -> bool {
        self.position <= self.bytes.len()
    }

    /// Whether the next read fails.
    pub open spec fn fires_now(self) -> bool {
        self.fault is Some && self.fault->0.at <= self.position
    }

    /// What the next read returns: the error of a failure that is due, else the byte under
    /// the cursor, else nothing.
    pub open spec fn read_result(self) -> Result<Option<u8>, std::io::Error> {
        if self.fires_now() {
            Err(self.fault->0.error)
        } else if self.position < self.bytes.len() {
            Ok(Some(self.bytes[self.position as int]))
        } else {
            Ok(None)
        }
    }

    /// The source after the next read: a failure that was raised is gone, a byte that was
    /// read is behind the cursor.
    pub open spec fn after_read(self) -> SourceView {
        if self.fires_now() {
            SourceView { fault: None, ..self }
        } else if self.position < self.bytes.len() {
            SourceView { position: self.position + 1, ..self }
        } else {
            self
        }
    }

    /// Whether reading the source to its end meets the failure.
    pub open spec fn fails(self) -> bool {
        self.fault is Some && self.fault->0.at <= self.bytes.len()
    }

    /// The position at which reading the source to its end stops: that of the failure
    /// where one is met, else the end of the bytes.
    pub open spec fn stop(self) -> nat {
        if !self.fails() {
            self.bytes.len()
        } else if self.fault->0.at <= self.position {
            self.position
        } else {
            self.fault->0.at
        }
    }

    /// The bytes that reading the source to its end delivers.
    pub open spec fn delivered(self) -> Seq<u8> {
        self.bytes.subrange(self.position as int, self.stop() as int)
    }

    /// The source after it was read to its end.
    pub open spec fn drained(self) -> SourceView {
        SourceView {
            bytes: self.bytes,
            position: self.stop(),
            fault: if self.fails() {
                None
            } else {
                self.fault
            },
        }
    }
}

impl View for ByteSource {
    type V = SourceView;

    closed spec fn view(&self) -> SourceView {
        SourceView {
            bytes: self.data@,
            position: self.cursor as nat,
            fault: match self.fault {
                Some(fault) => Some(FaultView { at: fault.at as nat, error: fault.error }),
                None => None,
            },
        }
    }
}

impl ByteSource {
    /// A source that yields `data` and then reports its end.
    pub fn new(data: Vec<u8>) -> (source: ByteSource)
        ensures
            source@ == (SourceView { bytes: data@, position: 0, fault: None }),
    {
        ByteSource { data, cursor: 0, fault: None }
    }

    /// A source that yields the first `at` bytes of `data` and then fails with `error`. A
    /// failure beyond the end of `data` is never met.
    pub fn failing_at(data: Vec<u8>, at: usize, error: std::io::Error) -> (source: ByteSource)
        ensures
            source@ == (SourceView {
                bytes: data@,
                position: 0,
                fault: Some(FaultView { at: at as nat, error }),
            }),
    {
        ByteSource { data, cursor: 0, fault: Some(Fault { at, error }) }
    }

    /// How many bytes have been read.
    pub fn position(&self) -> (n: usize)
        ensures
            n == self@.position,
    {
        self.cursor
    }

    /// Reads one byte: `Ok(Some(byte))` for the next byte, `Ok(None)` at the end of the
    /// source, `Err` where the waiting failure is due.
    pub fn read(&mut self) -> (res: Result<Option<u8>, std::io::Error>)
        requires
            old(self)@.wf(),
        ensures
            res == old(self)@.read_result(),
            final(self)@ == old(self)@.after_read(),
            final(self)@.wf(),
    {
        let due = match &self.fault {
            Some(fault) => fault.at <= self.cursor,
            None => false,
        };
        if due {
            match self.fault.take() {
                Some(fault) => Err(fault.error),
                None => unreached(),
            }
        } else if self.cursor < self.data.len() {
            let byte: u8 = self.data[self.cursor];
            self.cursor += 1;
            Ok(Some(byte))
        } else {
            Ok(None)
        }
    }
}

/// A single-use wrapper around the exclusive reference to a byte source, made for one call
/// across the boundary.
pub struct ReadContainer<'a>(pub &'a mut ByteSource);

/// What one request for a byte returns.
#[derive(Debug)]
pub struct HuskRustRead<E> {
    /// Whether the read succeeded.
    pub is_ok: bool,
    /// The byte that was read. It means something only where `bytes_read` is 1.
    pub byte: u8,
    /// How many bytes were read: 0 or 1.
    pub bytes_read: u32,
    /// The error of a read that failed.
    pub err_obj: Option<E>,
}

impl<E> HuskRustRead<E> {
    /// The record of a read into a buffer of one byte, from what the read returned and what
    /// the buffer holds afterwards.
    pub fn from_outcome(res: Result<usize, E>, byte: u8) -> (record: HuskRustRead<E>)
        requires
            res is Ok ==> res->Ok_0 <= 1,
        ensures
            record.is_ok == (res is Ok),
            record.byte == byte,
            record.bytes_read == (match res {
                Ok(num_bytes) => num_bytes as u32,
                Err(_) => 0u32,
            }),
            record.err_obj == (match res {
                Ok(_) => None,
                Err(err) => Some(err),
            }),
    {
        match res {
            Ok(num_bytes) => HuskRustRead {
                is_ok: true,
                byte,
                bytes_read: num_bytes as u32,
                err_obj: None,
            },
            Err(err) => HuskRustRead { is_ok: false, byte, bytes_read: 0, err_obj: Some(err) },
        }
    }
}

/// The entry point that the callee calls for each byte it wants: performs exactly one
/// single-byte read on the source behind `container`. An error of the source is stored in
/// `table`, and the record carries the fresh handle that names it.
#[allow(non_snake_case)]
pub fn HuskRustGetByteFromReadTrait(container: ReadContainer<'_>, table: &mut ObjectTable) -> (record:
    HuskRustRead<Handle>)
    requires
        old(container.0)@.wf(),
    ensures
        final(container.0)@ == old(container.0)@.after_read(),
        final(container.0)@.wf(),
        final(table).asked() == old(table).asked(),
        match old(container.0)@.read_result() {
            Ok(Some(byte)) => {
                &&& record.is_ok
                &&& record.byte == byte
                &&& record.bytes_read == 1
                &&& record.err_obj is None
                &&& final(table)@ == old(table)@
                &&& final(table).issued() == old(table).issued()
            },
            Ok(None) => {
                &&& record.is_ok
                &&& record.byte == 0
                &&& record.bytes_read == 0
                &&& record.err_obj is None
                &&& final(table)@ == old(table)@
                &&& final(table).issued() == old(table).issued()
            },
            Err(error) => {
                &&& !record.is_ok
                &&& record.byte == 0
                &&& record.bytes_read == 0
                &&& record.err_obj is Some
                &&& record.err_obj->0.spec_addr() == old(table).issued()
                &&& !old(table)@.contains_key(record.err_obj->0.spec_addr())
                &&& final(table)@ == old(table)@.insert(
                    record.err_obj->0.spec_addr(),
                    Object::NativeError(error),
                )
                &&& final(table).issued() == old(table).issued() + 1
            },
        },
{
    match container.0.read() {
        Ok(Some(byte)) => HuskRustRead::from_outcome(Ok(1), byte),
        Ok(None) => HuskRustRead::from_outcome(Ok(0), 0),
        Err(err) => {
            let err_obj = table.create(Object::NativeError(err));
            HuskRustRead::from_outcome(Err(err_obj), 0)
        },
    }
}

/// Reads `source` to its end through the bridge, one request per byte, as the callee's
/// read loop does. Returns the bytes in the order in which they were delivered, and the
/// handle of the error where a read failed: the loop stops at the first record that
/// reports a failure or no byte.
pub fn pull_all(source: &mut ByteSource, table: &mut ObjectTable) -> (out: (
    Vec<u8>,
    Option<Handle>,
))
    requires
        old(source)@.wf(),
    ensures
        final(source)@ == old(source)@.drained(),
        final(source)@.wf(),
        out.0@ == old(source)@.delivered(),
        out.1 is Some == old(source)@.fails(),
        final(table).asked() == old(table).asked(),
        if old(source)@.fails() {
            &&& out.1->0.spec_addr() == old(table).issued()
            &&& !old(table)@.contains_key(out.1->0.spec_addr())
            &&& final(table).issued() == old(table).issued() + 1
            &&& final(table)@ == old(table)@.insert(
                out.1->0.spec_addr(),
                Object::NativeError(old(source)@.fault->0.error),
            )
        } else {
            &&& final(table).issued() == old(table).issued()
            &&& final(table)@ == old(table)@
        },
{
    let mut delivered: Vec<u8> = Vec::new();
    let mut failure: Option<Handle> = None;
    loop
        invariant_except_break
            source@.wf(),
            source@.bytes == old(source)@.bytes,
            source@.fault == old(source)@.fault,
            old(source)@.position <= source@.position <= old(source)@.stop(),
            table@ == old(table)@,
            table.issued() == old(table).issued(),
            failure is None,
        invariant
            table.asked() == old(table).asked(),
            delivered@ == old(source)@.bytes.subrange(
                old(source)@.position as int,
                source@.position as int,
            ),
        ensures
            source@ == old(source)@.drained(),
            source@.wf(),
            delivered@ == old(source)@.delivered(),
            failure is Some == old(source)@.fails(),
            if old(source)@.fails() {
                &&& failure->0.spec_addr() == old(table).issued()
                &&& !old(table)@.contains_key(failure->0.spec_addr())
                &&& table.issued() == old(table).issued() + 1
                &&& table@ == old(table)@.insert(
                    failure->0.spec_addr(),
                    Object::NativeError(old(source)@.fault->0.error),
                )
            } else {
                &&& table.issued() == old(table).issued()
                &&& table@ == old(table)@
            },
        decreases source@.bytes.len() - source@.position,
    {
        let record = HuskRustGetByteFromReadTrait(ReadContainer(&mut *source), table);
        if !record.is_ok {
            failure = record.err_obj;
            break ;
        }
        if record.bytes_read == 0 {
            break ;
        }
        delivered.push(record.byte);
    }
    (delivered, failure)
}

/// Reads `source` to its end through the bridge and turns a failed read into the typed
/// error. The bytes come out as the source holds them, in order, up to its end or to the
/// position of the failure; the failure comes out as the I/O error that the source raised.
/// The object that carried the error through the table is released again.
pub fn read_through_bridge(source: &mut ByteSource, table: &mut ObjectTable) -> (out: (
    Vec<u8>,
    Result<(), Error>,
))
    requires
        old(source)@.wf(),
    ensures
        final(source)@ == old(source)@.drained(),
        final(source)@.wf(),
        out.0@ == old(source)@.delivered(),
        out.1 == (if old(source)@.fails() {
            Err::<(), Error>(Error::IO(old(source)@.fault->0.error))
        } else {
            Ok::<(), Error>(())
        }),
        final(table)@ == old(table)@,
        final(table).asked() == old(table).asked(),
        final(table).issued() == old(table).issued() + (if old(source)@.fails() {
            1nat
        } else {
            0nat
        }),
{
    let pulled = pull_all(source, table);
    match pulled.1 {
        Some(err_obj) => {
            let err = util::error_obj_to_rust(table, err_obj, HUSK_ERROR_IO);
            (pulled.0, Err(err))
        },
        None => (pulled.0, Ok(())),
    }
}

/// Reading a source of `bytes` from its start delivers all of them where no failure waits
/// within them, and exactly the first `at` of them where one waits at `at`.
pub proof fn lemma_delivered_from_start(bytes: Seq<u8>, at: nat, error: std::io::Error)
    ensures
        (SourceView { bytes, position: 0, fault: None }).delivered() == bytes,
        !(SourceView { bytes, position: 0, fault: None }).fails(),
        at <= bytes.len() ==> (SourceView {
            bytes,
            position: 0,
            fault: Some(FaultView { at, error }),
        }).delivered() == bytes.take(at as int),
        at <= bytes.len() ==> (SourceView { bytes, position: 0, fault: Some(FaultView { at, error }) }).fails(),
        at > bytes.len() ==> (SourceView {
            bytes,
            position: 0,
            fault: Some(FaultView { at, error }),
        }).delivered() == bytes,
        at > bytes.len() ==> !(SourceView { bytes, position: 0, fault: Some(FaultView { at, error }) }).fails(),
{
}

} // verus!
