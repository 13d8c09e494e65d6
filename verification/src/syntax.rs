//! Positions, typed errors and parser configuration for shell programs.
use vstd::prelude::*;
use crate::ctypes;
use crate::handle::{sub_handles, ObjectTable, TaggedResult};
use crate::util;
use crate::Error;

verus! {

/// An error of the quoting operation.
#[derive(Debug)]
pub struct QuoteError {
    /// Where the error occurred at, represented as the number of bytes from the beginning of
    /// the string.
    pub byte_offset: u32,
    /// The error message.
    pub msg: String,
}

impl QuoteError {
    /// Builds the typed error from the two fields that the callee reports: the offset as the
    /// signed integer that crosses the boundary, which is never negative, and the message.
    pub fn new(byte_offset: i32, msg: String) -> (e: QuoteError)
        requires
            byte_offset >= 0,
        ensures
            e.byte_offset == byte_offset,
            e.msg == msg,
    {
        QuoteError { byte_offset: byte_offset as u32, msg }
    }
}

/// An error of the parsing operation.
#[derive(Debug)]
pub struct ParseError {
    /// The name of the source that was parsed, where it had one.
    pub filename: Option<String>,
    /// Where the error occurred.
    pub pos: Pos,
    /// The offending text.
    pub text: String,
    /// Whether the input ended before the program was complete.
    pub incomplete: bool,
}

impl ParseError {
    /// The file name that a parse error keeps of the name that the callee reports: an empty
    /// name stands for none.
    pub open spec fn spec_filename(reported: String) -> Option<String> {
        if reported@.len() == 0 {
            None
        } else {
            Some(reported)
        }
    }

    /// Builds the typed error from the four fields that the callee reports. An empty
    /// `filename` becomes `None`, and `incomplete` is the byte that stands for a truth value.
    pub fn new(filename: String, pos: Pos, text: String, incomplete: u8) -> (e: ParseError)
        requires
            incomplete <= 1,
        ensures
            e.filename == ParseError::spec_filename(filename),
            e.pos == pos,
            e.text == text,
            e.incomplete == util::spec_to_bool(incomplete),
    {
        let filename = if filename.as_str().is_empty() {
            None
        } else {
            Some(filename)
        };
        let incomplete = util::to_bool(incomplete);
        ParseError { filename, pos, text, incomplete }
    }

    /// Where the error occurred.
    pub fn pos(&self) -> (p: Pos)
        ensures
            p == self.pos,
    {
        self.pos
    }
}

/// A shell language variant to use when tokenizing and parsing shell code.
#[derive(Clone, Copy, Debug, PartialEq, Eq, Structural)]
pub enum LangVariant {
    /// The GNU Bash language.
    Bash,
    /// The POSIX Shell language.
    Posix,
    /// The MirBSD Korn Shell, also known as mksh.
    Mksh,
    /// The Bash Automated Testing System language, a small extension of Bash.
    Bats,
    /// Automatically detect the language.
    Auto,
}

impl LangVariant {
    /// The integer that selects this variant on the boundary.
    pub open spec fn spec_to_int(&self) -> i32 {
        match self {
            LangVariant::Bash => ctypes::HUSK_LANG_BASH,
            LangVariant::Posix => ctypes::HUSK_LANG_POSIX,
            LangVariant::Mksh => ctypes::HUSK_LANG_MKSH,
            LangVariant::Bats => ctypes::HUSK_LANG_BATS,
            LangVariant::Auto => ctypes::HUSK_LANG_AUTO,
        }
    }

    #[verifier::when_used_as_spec(spec_to_int)]
    pub fn to_int(&self) -> (n: i32)
        ensures
            n == self.spec_to_int(),
            ctypes::HUSK_LANG_BASH <= n <= ctypes::HUSK_LANG_AUTO,
            !ctypes::in_table(n),
    {
        match self {
            LangVariant::Bash => ctypes::HUSK_LANG_BASH,
            LangVariant::Posix => ctypes::HUSK_LANG_POSIX,
            LangVariant::Mksh => ctypes::HUSK_LANG_MKSH,
            LangVariant::Bats => ctypes::HUSK_LANG_BATS,
            LangVariant::Auto => ctypes::HUSK_LANG_AUTO,
        }
    }
}

/// Two variants that cross the boundary as the same integer are the same variant.
pub proof fn lemma_to_int_injective(a: LangVariant, b: LangVariant)
    requires
        a.spec_to_int() == b.spec_to_int(),
    ensures
        a == b,
{
}

/// The largest line number that a position can hold.
pub const LINE_MAX: u32 = 262143;

/// The largest column number that a position can hold.
pub const COL_MAX: u32 = 16383;

/// A position within a shell source file.
#[derive(Clone, Copy, Debug, PartialEq, Eq, Structural)]
pub struct Pos {
    offs: u32,
    line: u32,
    col: u32,
}

impl Pos {
    #[verifier::type_invariant]
    spec fn in_range(self) -> bool {
        self.line <= LINE_MAX && self.col <= COL_MAX
    }

    /// The position that `new` makes of its three arguments: a line or a column that does
    /// not fit is kept as 0.
    pub closed spec fn spec_new(offset: u32, line: u32, column: u32) -> Pos {
        Pos {
            offs: offset,
            line: if line > LINE_MAX {
                0
            } else {
                line
            },
            col: if column > COL_MAX {
                0
            } else {
                column
            },
        }
    }

    pub closed spec fn spec_offset(&self) -> u32 {
        self.offs
    }

    pub closed spec fn spec_line(&self) -> u32 {
        self.line
    }

    pub closed spec fn spec_col(&self) -> u32 {
        self.col
    }

    pub open spec fn spec_after(&self, p2: &Pos) -> bool {
        self.spec_offset() > p2.spec_offset()
    }

    pub open spec fn spec_is_valid(&self) -> bool {
        self.spec_offset() != 0 || self.spec_line() != 0 || self.spec_col() != 0
    }

    /// Create a new position with the given `offset`, `line`, and `column`. A line above
    /// [`LINE_MAX`] or a column above [`COL_MAX`] is replaced by 0.
    pub fn new(offset: u32, line: u32, column: u32) -> (p: Pos)
        ensures
            p == Pos::spec_new(offset, line, column),
            p.spec_offset() == offset,
            p.spec_line() == (if line > LINE_MAX {
                0
            } else {
                line
            }),
            p.spec_col() == (if column > COL_MAX {
                0
            } else {
                column
            }),
    {
        let kept_line: u32 = if line > LINE_MAX {
            0
        } else {
            line
        };
        let kept_col: u32 = if column > COL_MAX {
            0
        } else {
            column
        };
        Pos { offs: offset, line: kept_line, col: kept_col }
    }

    /// Check whether `self` is after `p2`. It is a more expressive version of
    /// `self.offset() > p2.offset()`.
    #[verifier::when_used_as_spec(spec_after)]
    pub fn after(&self, p2: &Pos) -> (b: bool)
        ensures
            b == self.spec_after(p2),
    {
        self.offs > p2.offs
    }

    /// Get the offset of this position, starting at 0. It counts in bytes.
    #[verifier::when_used_as_spec(spec_offset)]
    pub fn offset(&self) -> (n: u32)
        ensures
            n == self.spec_offset(),
    {
        self.offs
    }

    /// Get the line number of this position, starting at 1. A line number of 0 stands for a
    /// line that did not fit.
    #[verifier::when_used_as_spec(spec_line)]
    pub fn line(&self) -> (n: u32)
        ensures
            n == self.spec_line(),
            n <= LINE_MAX,
    {
        proof {
            use_type_invariant(self);
        }
        self.line
    }

    /// Get the column number of this position, starting at 1. It counts in bytes. A column
    /// number of 0 stands for a column that did not fit.
    #[verifier::when_used_as_spec(spec_col)]
    pub fn col(&self) -> (n: u32)
        ensures
            n == self.spec_col(),
            n <= COL_MAX,
    {
        proof {
            use_type_invariant(self);
        }
        self.col
    }

    /// Check whether this [`Pos`] contains useful position information: whether it differs
    /// from the position whose offset, line and column are all 0.
    #[verifier::when_used_as_spec(spec_is_valid)]
    pub fn is_valid(&self) -> (b: bool)
        ensures
            b == self.spec_is_valid(),
    {
        self.offs != 0 || self.line != 0 || self.col != 0
    }

    /// What `new` keeps of its arguments.
    pub proof fn lemma_new_fields(offset: u32, line: u32, column: u32)
        ensures
            Pos::spec_new(offset, line, column).spec_offset() == offset,
            Pos::spec_new(offset, line, column).spec_line() == (if line > LINE_MAX {
                0
            } else {
                line
            }),
            Pos::spec_new(offset, line, column).spec_col() == (if column > COL_MAX {
                0
            } else {
                column
            }),
            Pos::spec_new(offset, line, column).spec_line() <= LINE_MAX,
            Pos::spec_new(offset, line, column).spec_col() <= COL_MAX,
    {
    }

    /// A position is made again of its own three fields, where they are in range.
    pub proof fn lemma_new_of_fields(p: Pos)
        requires
            p.spec_line() <= LINE_MAX,
            p.spec_col() <= COL_MAX,
        ensures
            Pos::spec_new(p.spec_offset(), p.spec_line(), p.spec_col()) == p,
    {
    }

    /// Positions are ordered by their offsets alone: of two positions made with offsets
    /// `o1 < o2`, the second is after the first and the first is not after the second,
    /// whatever their lines and columns.
    pub proof fn lemma_after_follows_offset(
        o1: u32,
        l1: u32,
        c1: u32,
        o2: u32,
        l2: u32,
        c2: u32,
    )
        requires
            o1 < o2,
        ensures
            Pos::spec_new(o2, l2, c2).spec_after(&Pos::spec_new(o1, l1, c1)),
            !Pos::spec_new(o1, l1, c1).spec_after(&Pos::spec_new(o2, l2, c2)),
    {
    }
}

/// A builder to configure a new [`Parser`]. Each field is optional, and one that was never
/// set is left for the callee to fill with its own default.
#[derive(Clone, Debug)]
pub struct ParserBuilder {
    keep_comments: Option<bool>,
    stop_at: Option<String>,
    lang_variant: Option<LangVariant>,
}

impl ParserBuilder {
    /// What was set for keeping comments.
    pub closed spec fn spec_keep_comments(&self) -> Option<bool> {
        self.keep_comments
    }

    /// The stop word that was set.
    pub closed spec fn spec_stop_at(&self) -> Option<String> {
        self.stop_at
    }

    /// The language variant that was set.
    pub closed spec fn spec_variant(&self) -> Option<LangVariant> {
        self.lang_variant
    }

    /// A builder with no field set.
    pub fn new() -> (builder: ParserBuilder)
        ensures
            builder.spec_keep_comments() is None,
            builder.spec_stop_at() is None,
            builder.spec_variant() is None,
    {
        ParserBuilder { keep_comments: None, stop_at: None, lang_variant: None }
    }

    /// When set to `true`, makes the parser parse comments and attach them to nodes, as
    /// opposed to discarding them.
    pub fn keep_comments(self, enabled: bool) -> (builder: ParserBuilder)
        ensures
            builder.spec_keep_comments() == Some(enabled),
            builder.spec_stop_at() == self.spec_stop_at(),
            builder.spec_variant() == self.spec_variant(),
    {
        let mut builder = self;
        builder.keep_comments = Some(enabled);
        builder
    }

    /// Configure the lexer to stop at an arbitrary word, treating it as if it were the end
    /// of the input. The callee accepts a word of at most four bytes without whitespace;
    /// the builder takes any word and leaves the judgement to the callee.
    pub fn stop_at(self, word: &str) -> (builder: ParserBuilder)
        ensures
            builder.spec_keep_comments() == self.spec_keep_comments(),
            builder.spec_stop_at() is Some,
            builder.spec_stop_at()->0@ == word@,
            builder.spec_variant() == self.spec_variant(),
    {
        let mut builder = self;
        builder.stop_at = Some(word.to_owned());
        builder
    }

    /// The shell language variant that the parser will accept.
    pub fn variant(self, lang: LangVariant) -> (builder: ParserBuilder)
        ensures
            builder.spec_keep_comments() == self.spec_keep_comments(),
            builder.spec_stop_at() == self.spec_stop_at(),
            builder.spec_variant() == Some(lang),
    {
        let mut builder = self;
        builder.lang_variant = Some(lang);
        builder
    }

    /// Build this [`ParserBuilder`] into a [`Parser`]: each field that was set becomes the
    /// scalar that crosses the boundary, and each field that was not stays absent.
    pub fn build(self) -> (parser: Parser)
        ensures
            parser.spec_keep_comments_arg() == (match self.spec_keep_comments() {
                Some(keep) => Some(util::spec_to_u8(keep)),
                None => None,
            }),
            parser.spec_stop_at_arg() == self.spec_stop_at(),
            parser.spec_lang_arg() == (match self.spec_variant() {
                Some(lang) => Some(lang.spec_to_int()),
                None => None,
            }),
    {
        let keep_comments = match self.keep_comments {
            Some(keep) => Some(util::to_u8(keep)),
            None => None,
        };
        let lang_int = match self.lang_variant {
            Some(lang) => Some(lang.to_int()),
            None => None,
        };
        Parser { keep_comments, stop_at: self.stop_at, lang_int }
    }
}

/// The configuration of a parser as it crosses the boundary: one optional scalar for each
/// field, where an absent one stands for the callee's default.
#[derive(Debug)]
pub struct Parser {
    keep_comments: Option<u8>,
    stop_at: Option<String>,
    lang_int: Option<i32>,
}

impl Parser {
    /// The byte for keeping comments: 1 for yes, 0 for no.
    pub closed spec fn spec_keep_comments_arg(&self) -> Option<u8> {
        self.keep_comments
    }

    /// The stop word.
    pub closed spec fn spec_stop_at_arg(&self) -> Option<String> {
        self.stop_at
    }

    /// The integer that selects the language variant.
    pub closed spec fn spec_lang_arg(&self) -> Option<i32> {
        self.lang_int
    }

    /// Create a new [`Parser`] with the default configuration options: every field absent.
    pub fn new() -> (parser: Parser)
        ensures
            parser.spec_keep_comments_arg() is None,
            parser.spec_stop_at_arg() is None,
            parser.spec_lang_arg() is None,
    {
        Parser::builder().build()
    }

    /// Create and configure a new [`Parser`].
    pub fn builder() -> (builder: ParserBuilder)
        ensures
            builder.spec_keep_comments() is None,
            builder.spec_stop_at() is None,
            builder.spec_variant() is None,
    {
        ParserBuilder::new()
    }

    /// The byte for keeping comments: 1 for yes, 0 for no, `None` for the callee's default.
    #[verifier::when_used_as_spec(spec_keep_comments_arg)]
    pub fn keep_comments_arg(&self) -> (arg: Option<u8>)
        ensures
            arg == self.spec_keep_comments_arg(),
    {
        self.keep_comments
    }

    /// The stop word, or `None` for the callee's default.
    pub fn stop_at_arg(&self) -> (arg: Option<&str>)
        ensures
            arg is Some == self.spec_stop_at_arg() is Some,
            arg is Some ==> arg->0@ == self.spec_stop_at_arg()->0@,
    {
        match &self.stop_at {
            Some(word) => Some(word.as_str()),
            None => None,
        }
    }

    /// The integer that selects the language variant, or `None` for the callee's default.
    #[verifier::when_used_as_spec(spec_lang_arg)]
    pub fn lang_arg(&self) -> (arg: Option<i32>)
        ensures
            arg == self.spec_lang_arg(),
    {
        self.lang_int
    }

    /// Reads the callee's answer to a request to parse a program: `Ok` where the
    /// discriminant announces a parsed file, else the typed error that the payload stands
    /// for. The payload's handle is released either way.
    pub fn parse(&self, table: &mut ObjectTable, data: TaggedResult) -> (res: Result<(), Error>)
        requires
            data.r1 == ctypes::HUSK_SYNTAX_PARSER_FILE || ctypes::HUSK_ERROR_IO <= data.r1
                <= ctypes::HUSK_ERROR_UNKNOWN,
            old(table).spec_fits(data.r0.spec_addr(), data.r1),
        ensures
            data.r1 == ctypes::HUSK_SYNTAX_PARSER_FILE ==> res is Ok,
            data.r1 != ctypes::HUSK_SYNTAX_PARSER_FILE ==> res is Err && Some(res->Err_0)
                == util::spec_typed_error(old(table)@[data.r0.spec_addr()]),
            final(table)@ == old(table)@.remove(data.r0.spec_addr()),
            final(table).issued() == old(table).issued() + sub_handles(
                old(table)@[data.r0.spec_addr()],
            ),
            final(table).asked() == old(table).asked(),
    {
        if data.r1 == ctypes::HUSK_SYNTAX_PARSER_FILE {
            table.release(data.r0);
            Ok(())
        } else {
            Err(util::error_obj_to_rust(table, data.r0, data.r1))
        }
    }
}

/// Reads the callee's answer to a request to quote a string: the quoted string where the
/// discriminant announces one, else the typed error that the payload stands for. The
/// payload's handle is released either way.
pub fn quote(table: &mut ObjectTable, resp: TaggedResult) -> (res: Result<String, Error>)
    requires
        resp.r1 == ctypes::HUSK_SYNTAX_QUOTE_STRING || ctypes::HUSK_ERROR_IO <= resp.r1
            <= ctypes::HUSK_ERROR_UNKNOWN,
        old(table).spec_fits(resp.r0.spec_addr(), resp.r1),
    ensures
        resp.r1 == ctypes::HUSK_SYNTAX_QUOTE_STRING ==> res == Ok::<String, Error>(
            old(table)@[resp.r0.spec_addr()]->Text_0,
        ),
        resp.r1 != ctypes::HUSK_SYNTAX_QUOTE_STRING ==> res is Err && Some(res->Err_0)
            == util::spec_typed_error(old(table)@[resp.r0.spec_addr()]),
        final(table)@ == old(table)@.remove(resp.r0.spec_addr()),
        final(table).issued() == old(table).issued() + sub_handles(
            old(table)@[resp.r0.spec_addr()],
        ),
        final(table).asked() == old(table).asked(),
{
    if resp.r1 == ctypes::HUSK_SYNTAX_QUOTE_STRING {
        let chars = table.stringer_to_string(&resp.r0);
        table.release(resp.r0);
        Ok(chars)
    } else {
        Err(util::error_obj_to_rust(table, resp.r0, resp.r1))
    }
}

} // verus!
