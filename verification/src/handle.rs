//! Handles, and the table of callee-owned objects that they name.
//!
//! A [`Handle`] is an integer that names one object on the callee's side. It cannot be
//! copied, and [`ObjectTable::release`] takes it by value: a handle is released once, by
//! its one owner, and nothing can be asked of it afterwards.
use vstd::prelude::*;
use crate::ctypes;
use crate::syntax::Pos;
use crate::util;

verus! {

/// An opaque reference to one object that the callee owns.
#[derive(Debug)]
pub struct Handle {
    id: usize,
}

impl Handle {
    pub closed spec fn spec_addr(&self) -> usize {
        self.id
    }

    /// The integer that names the object.
    #[verifier::when_used_as_spec(spec_addr)]
    pub fn addr(&self) -> (a: usize)
        ensures
            a == self.spec_addr(),
    {
        self.id
    }
}

/// What the callee keeps behind a handle.
#[derive(Debug)]
pub enum Object {
    /// An error that a byte source raised, wrapped to travel through the callee.
    NativeError(std::io::Error),
    /// A parse error and the four fields that can be asked of it.
    ParseError { filename: String, pos: Pos, text: String, incomplete: bool },
    /// A quoting error: a byte offset and a message.
    QuoteError { byte_offset: i32, msg: String },
    /// An error that has nothing but its message.
    Message(String),
    /// A value that renders as a string.
    Text(String),
    /// An array of strings.
    Strings(Vec<String>),
    /// A parsed program, of which nothing is read.
    File,
    /// A position within a source, handed out under a handle of its own.
    Position(Pos),
}

/// Whether an object is a payload that the discriminant `code` can announce. The four
/// reserved error kinds announce no object.
pub open spec fn payload_fits(obj: Object, code: i32) -> bool {
    match obj {
        Object::NativeError(_) => code == ctypes::HUSK_ERROR_IO,
        Object::ParseError { .. } => code == ctypes::HUSK_ERROR_PARSE,
        Object::QuoteError { byte_offset, .. } => code == ctypes::HUSK_ERROR_QUOTE && byte_offset
            >= 0,
        Object::Message(_) => code == ctypes::HUSK_ERROR_UNKNOWN,
        Object::Text(_) => code == ctypes::HUSK_SHELL_EXPAND_STRING || code
            == ctypes::HUSK_SYNTAX_QUOTE_STRING,
        Object::Strings(_) => code == ctypes::HUSK_SHELL_FIELDS_STRINGS,
        Object::File => code == ctypes::HUSK_SYNTAX_PARSER_FILE,
        Object::Position(_) => false,
    }
}

/// How many handles are made while an error object is read: a parse error hands its
/// position out under a handle of its own, and no other object hands out anything.
pub open spec fn sub_handles(obj: Object) -> nat {
    if obj is ParseError {
        1
    } else {
        0
    }
}

/// What a call across the boundary returns: a payload and the discriminant that says how
/// to read it.
#[derive(Debug)]
pub struct TaggedResult {
    pub r0: Handle,
    pub r1: i32,
}

/// The fields of a parse error as they cross the boundary. The position comes as a handle
/// of its own, which the receiver owns and has to release.
#[derive(Debug)]
pub struct ParseErrorData {
    pub r0: String,
    pub r1: Handle,
    pub r2: String,
    pub r3: u8,
}

/// The fields of a quoting error as they cross the boundary.
#[derive(Debug)]
pub struct QuoteErrorData {
    pub r0: i32,
    pub r1: String,
}

/// The objects that the callee holds, each under the handle that names it, and the record
/// of the questions that its arrays were asked.
#[derive(Debug)]
pub struct ObjectTable {
    slots: Vec<Option<Object>>,
    log: Vec<(usize, usize)>,
}

impl View for ObjectTable {
    type V = Map<usize, Object>;

    /// The live objects, by the integer of their handle.
    closed spec fn view(&self) -> Map<usize, Object> {
        Map::new(
            |id: usize| id < self.slots.len() && self.slots[id as int] is Some,
            |id: usize| self.slots[id as int]->0,
        )
    }
}

impl ObjectTable {
    /// How many handles the table has given out so far. The next one gets this integer,
    /// so no integer names two objects, not even one after the other.
    pub closed spec fn issued(&self) -> nat {
        self.slots.len() as nat
    }

    /// The questions that arrays were asked so far, in the order in which they were asked:
    /// each is the integer of the array's handle and the index that was asked for.
    pub closed spec fn asked(&self) -> Seq<(usize, usize)> {
        self.log@
    }

    /// Whether `id` names a live object that the discriminant `code` can announce.
    pub open spec fn spec_fits(&self, id: usize, code: i32) -> bool {
        self@.contains_key(id) && payload_fits(self@[id], code)
    }

    /// A table that holds nothing.
    pub fn new() -> (t: ObjectTable)
        ensures
            t@ == Map::<usize, Object>::empty(),
            t.issued() == 0,
            t.asked() == Seq::<(usize, usize)>::empty(),
    {
        ObjectTable { slots: Vec::new(), log: Vec::new() }
    }

    /// Stores `obj` and returns the fresh handle that names it.
    pub fn create(&mut self, obj: Object) -> (h: Handle)
        ensures
            h.spec_addr() == old(self).issued(),
            !old(self)@.contains_key(h.spec_addr()),
            final(self)@ == old(self)@.insert(h.spec_addr(), obj),
            final(self).issued() == old(self).issued() + 1,
            final(self).asked() == old(self).asked(),
    {
        let id: usize = self.slots.len();
        self.slots.push(Some(obj));
        Handle { id }
    }

    /// Releases the object that `h` names, and hands it out. The handle is used up. Where
    /// it names nothing in this table, nothing changes and `None` is returned.
    pub fn release(&mut self, h: Handle) -> (obj: Option<Object>)
        ensures
            final(self)@ == old(self)@.remove(h.spec_addr()),
            final(self).issued() == old(self).issued(),
            final(self).asked() == old(self).asked(),
            obj == (if old(self)@.contains_key(h.spec_addr()) {
                Some(old(self)@[h.spec_addr()])
            } else {
                None
            }),
    {
        if h.id < self.slots.len() {
            let mut taken: Option<Object> = None;
            std::mem::swap(&mut self.slots[h.id], &mut taken);
            taken
        } else {
            None
        }
    }

    /// How many objects are live: what would leak if the table were forgotten now.
    pub fn live_count(&self) -> (n: usize)
        ensures
            self@.dom().finite(),
            n == self@.dom().len(),
    {
        let ghost mut seen: Set<usize> = Set::empty();
        let mut n: usize = 0;
        let mut i: usize = 0;
        while i < self.slots.len()
            invariant
                i <= self.slots.len(),
                n <= i,
                seen.finite(),
                seen.len() == n,
                seen =~= Set::new(|id: usize| id < i && self.slots[id as int] is Some),
            decreases self.slots.len() - i,
        {
            if self.slots[i].is_some() {
                proof {
                    seen = seen.insert(i);
                }
                n += 1;
            }
            i += 1;
        }
        n
    }

    /// Whether `h` names a live object.
    pub fn is_live(&self, h: &Handle) -> (b: bool)
        ensures
            b == self@.contains_key(h.spec_addr()),
    {
        self.contains_id(h.id)
    }

    /// Whether the integer `id` names a live object.
    pub fn contains_id(&self, id: usize) -> (b: bool)
        ensures
            b == self@.contains_key(id),
    {
        id < self.slots.len() && self.slots[id].is_some()
    }

    fn get(&self, h: &Handle) -> (obj: Option<&Object>)
        ensures
            obj == (if self@.contains_key(h.spec_addr()) {
                Some(&self@[h.spec_addr()])
            } else {
                None
            }),
    {
        if h.id < self.slots.len() {
            self.slots[h.id].as_ref()
        } else {
            None
        }
    }

    /// Whether `h` names a live object that the discriminant `code` can announce.
    pub fn fits(&self, h: &Handle, code: i32) -> (b: bool)
        ensures
            b == self.spec_fits(h.spec_addr(), code),
    {
        match self.get(h) {
            None => false,
            Some(Object::NativeError(_)) => code == ctypes::HUSK_ERROR_IO,
            Some(Object::ParseError { .. }) => code == ctypes::HUSK_ERROR_PARSE,
            Some(Object::QuoteError { byte_offset, .. }) => code == ctypes::HUSK_ERROR_QUOTE
                && *byte_offset >= 0,
            Some(Object::Message(_)) => code == ctypes::HUSK_ERROR_UNKNOWN,
            Some(Object::Text(_)) => code == ctypes::HUSK_SHELL_EXPAND_STRING || code
                == ctypes::HUSK_SYNTAX_QUOTE_STRING,
            Some(Object::Strings(_)) => code == ctypes::HUSK_SHELL_FIELDS_STRINGS,
            Some(Object::File) => code == ctypes::HUSK_SYNTAX_PARSER_FILE,
            Some(Object::Position(_)) => false,
        }
    }

    /// The message of the error that `h` names, in a string of the caller's own.
    pub fn error_to_string(&self, h: &Handle) -> (s: String)
        requires
            self@.contains_key(h.spec_addr()),
            self@[h.spec_addr()] is Message,
        ensures
            s == self@[h.spec_addr()]->Message_0,
    {
        match self.get(h) {
            Some(Object::Message(msg)) => msg.clone(),
            _ => unreached(),
        }
    }

    /// The rendering of the value that `h` names, in a string of the caller's own.
    pub fn stringer_to_string(&self, h: &Handle) -> (s: String)
        requires
            self@.contains_key(h.spec_addr()),
            self@[h.spec_addr()] is Text,
        ensures
            s == self@[h.spec_addr()]->Text_0,
    {
        match self.get(h) {
            Some(Object::Text(text)) => text.clone(),
            _ => unreached(),
        }
    }

    /// Asks the array that `h` names for the string at `index`: the string, in a string of
    /// the caller's own, or `None` where the array has no such index. The array reports its
    /// end and never its length. The table keeps the question.
    pub fn get_string_from_array(&mut self, h: &Handle, index: usize) -> (s: Option<String>)
        requires
            old(self)@.contains_key(h.spec_addr()),
            old(self)@[h.spec_addr()] is Strings,
        ensures
            s == (if index < old(self)@[h.spec_addr()]->Strings_0@.len() {
                Some(old(self)@[h.spec_addr()]->Strings_0@[index as int])
            } else {
                None
            }),
            old(self)@[h.spec_addr()]->Strings_0@.len() <= usize::MAX,
            final(self)@ == old(self)@,
            final(self).issued() == old(self).issued(),
            final(self).asked() == old(self).asked().push((h.spec_addr(), index)),
    {
        let answer = match self.get(h) {
            Some(Object::Strings(items)) => {
                if index < items.len() {
                    Some(items[index].clone())
                } else {
                    None
                }
            },
            _ => unreached(),
        };
        self.log.push((h.id, index));
        answer
    }

    /// The questions that arrays were asked so far, in the order in which they were asked.
    pub fn asked_log(&self) -> (log: &Vec<(usize, usize)>)
        ensures
            log@ == self.asked(),
    {
        &self.log
    }

    /// The four fields of the parse error that `h` names. The flag crosses as a byte. The
    /// position is stored as an object of its own, and its fresh handle is handed out: the
    /// error stays as it was.
    pub fn parse_error_data(&mut self, h: &Handle) -> (data: ParseErrorData)
        requires
            old(self)@.contains_key(h.spec_addr()),
            old(self)@[h.spec_addr()] is ParseError,
        ensures
            data.r0 == old(self)@[h.spec_addr()]->ParseError_filename,
            data.r1.spec_addr() == old(self).issued(),
            !old(self)@.contains_key(data.r1.spec_addr()),
            data.r2 == old(self)@[h.spec_addr()]->ParseError_text,
            data.r3 == util::spec_to_u8(old(self)@[h.spec_addr()]->ParseError_incomplete),
            final(self)@ == old(self)@.insert(
                data.r1.spec_addr(),
                Object::Position(old(self)@[h.spec_addr()]->ParseError_pos),
            ),
            final(self).issued() == old(self).issued() + 1,
            final(self).asked() == old(self).asked(),
    {
        let (r0, pos, r2, r3) = match self.get(h) {
            Some(Object::ParseError { filename, pos, text, incomplete }) => (
                filename.clone(),
                *pos,
                text.clone(),
                util::to_u8(*incomplete),
            ),
            _ => unreached(),
        };
        let r1 = self.create(Object::Position(pos));
        ParseErrorData { r0, r1, r2, r3 }
    }

    /// The offset of the position that `h` names.
    pub fn pos_offset(&self, h: &Handle) -> (offset: u32)
        requires
            self@.contains_key(h.spec_addr()),
            self@[h.spec_addr()] is Position,
        ensures
            offset == self@[h.spec_addr()]->Position_0.spec_offset(),
    {
        match self.get(h) {
            Some(Object::Position(pos)) => pos.offset(),
            _ => unreached(),
        }
    }

    /// The line of the position that `h` names.
    pub fn pos_line(&self, h: &Handle) -> (line: u32)
        requires
            self@.contains_key(h.spec_addr()),
            self@[h.spec_addr()] is Position,
        ensures
            line == self@[h.spec_addr()]->Position_0.spec_line(),
            line <= crate::syntax::LINE_MAX,
    {
        match self.get(h) {
            Some(Object::Position(pos)) => pos.line(),
            _ => unreached(),
        }
    }

    /// The column of the position that `h` names.
    pub fn pos_col(&self, h: &Handle) -> (col: u32)
        requires
            self@.contains_key(h.spec_addr()),
            self@[h.spec_addr()] is Position,
        ensures
            col == self@[h.spec_addr()]->Position_0.spec_col(),
            col <= crate::syntax::COL_MAX,
    {
        match self.get(h) {
            Some(Object::Position(pos)) => pos.col(),
            _ => unreached(),
        }
    }

    /// The two fields of the quoting error that `h` names.
    pub fn quote_error_data(&self, h: &Handle) -> (data: QuoteErrorData)
        requires
            self@.contains_key(h.spec_addr()),
            self@[h.spec_addr()] is QuoteError,
        ensures
            data.r0 == self@[h.spec_addr()]->QuoteError_byte_offset,
            data.r1 == self@[h.spec_addr()]->QuoteError_msg,
    {
        match self.get(h) {
            Some(Object::QuoteError { byte_offset, msg }) => QuoteErrorData {
                r0: *byte_offset,
                r1: msg.clone(),
            },
            _ => unreached(),
        }
    }
}

/// A handle that is created and released at once leaves the table as it was, and names
/// nothing afterwards: no object is leaked, and none is left to ask anything of. Here
/// `id` is the integer of the handle that [`ObjectTable::create`] returns for `obj`, and
/// the table after the two calls is one whose view is `table@` with `id` added and removed.
pub proof fn lemma_create_release_round_trip(table: &ObjectTable, obj: Object, id: usize)
    requires
        id == table.issued(),
    ensures
        !table@.contains_key(id),
        table@.insert(id, obj).contains_key(id),
        table@.insert(id, obj)[id] == obj,
        table@.insert(id, obj).remove(id) == table@,
        !table@.insert(id, obj).remove(id).contains_key(id),
{
}

} // verus!
