use husk::ctypes::{
    HUSK_ERROR_IO, HUSK_ERROR_LANG, HUSK_ERROR_PARSE, HUSK_ERROR_QUOTE, HUSK_ERROR_UNKNOWN,
    HUSK_SHELL_EXPAND_STRING, HUSK_SHELL_FIELDS_STRINGS, HUSK_SYNTAX_PARSER_FILE,
    HUSK_SYNTAX_QUOTE_STRING,
};
use husk::handle::{Object, ObjectTable, TaggedResult};
use husk::shell;
use husk::syntax::{self, ParseError, Parser, Pos, QuoteError};
use husk::util::{
    checked_error_obj_to_rust, classify_result, error_obj_to_rust, go_to_rust_string_vec,
    probe_string_array, Payload, Violation,
};
use husk::Error;
use std::io;

fn strings(items: &[&str]) -> Vec<String> {
    items.iter().map(|item| item.to_string()).collect()
}

#[test]
fn create_then_release_leaves_nothing() {
    let mut table = ObjectTable::new();
    let handle = table.create(Object::Text("kept".to_string()));
    let addr = handle.addr();
    assert!(table.is_live(&handle));
    assert!(table.contains_id(addr));
    let released = table.release(handle);
    assert!(matches!(released, Some(Object::Text(text)) if text == "kept"));
    assert!(!table.contains_id(addr));
}

#[test]
fn handles_are_fresh() {
    let mut table = ObjectTable::new();
    let first = table.create(Object::File);
    let first_addr = first.addr();
    table.release(first);
    let second = table.create(Object::File);
    assert_ne!(second.addr(), first_addr);
    assert!(!table.contains_id(first_addr));
    assert!(table.is_live(&second));
}

#[test]
fn release_of_a_stranger_changes_nothing() {
    let mut one = ObjectTable::new();
    let mut other = ObjectTable::new();
    let kept = one.create(Object::File);
    other.create(Object::File);
    let stranger = other.create(Object::File);
    assert!(!one.is_live(&stranger));
    assert!(one.release(stranger).is_none());
    assert!(one.is_live(&kept));
}

#[test]
fn fits_tells_which_discriminant_announces_an_object() {
    let mut table = ObjectTable::new();
    let message = table.create(Object::Message("odd".to_string()));
    assert!(table.fits(&message, HUSK_ERROR_UNKNOWN));
    assert!(!table.fits(&message, HUSK_ERROR_PARSE));
    assert!(!table.fits(&message, HUSK_ERROR_LANG));
    assert!(!table.fits(&message, 99));
    let text = table.create(Object::Text("x".to_string()));
    assert!(table.fits(&text, HUSK_SHELL_EXPAND_STRING));
    assert!(table.fits(&text, HUSK_SYNTAX_QUOTE_STRING));
    assert!(!table.fits(&text, HUSK_SHELL_FIELDS_STRINGS));
    let negative = table.create(Object::QuoteError { byte_offset: -1, msg: String::new() });
    assert!(!table.fits(&negative, HUSK_ERROR_QUOTE));
    let file = table.create(Object::File);
    assert!(table.fits(&file, HUSK_SYNTAX_PARSER_FILE));
    table.release(file);
}

#[test]
fn parse_error_with_empty_filename() {
    let mut table = ObjectTable::new();
    let handle = table.create(Object::ParseError {
        filename: String::new(),
        pos: Pos::new(12, 2, 3),
        text: "fi".to_string(),
        incomplete: true,
    });
    let addr = handle.addr();
    assert!(table.fits(&handle, HUSK_ERROR_PARSE));
    match error_obj_to_rust(&mut table, handle, HUSK_ERROR_PARSE) {
        Error::Parse(err) => {
            assert_eq!(err.filename, None);
            assert_eq!(err.text, "fi");
            assert_eq!(err.incomplete, true);
            assert_eq!(err.pos().offset(), 12);
            assert_eq!(err.pos.line(), 2);
            assert_eq!(err.pos.col(), 3);
        }
        other => panic!("not a parse error: {:?}", other),
    }
    assert!(!table.contains_id(addr));
}

#[test]
fn parse_error_with_a_filename() {
    let mut table = ObjectTable::new();
    let handle = table.create(Object::ParseError {
        filename: "build.sh".to_string(),
        pos: Pos::new(0, 1, 1),
        text: "unexpected token".to_string(),
        incomplete: false,
    });
    match error_obj_to_rust(&mut table, handle, HUSK_ERROR_PARSE) {
        Error::Parse(err) => {
            assert_eq!(err.filename, Some("build.sh".to_string()));
            assert_eq!(err.text, "unexpected token");
            assert_eq!(err.incomplete, false);
        }
        other => panic!("not a parse error: {:?}", other),
    }
}

#[test]
fn parse_error_from_its_fields() {
    let err = ParseError::new(String::new(), Pos::new(12, 1, 13), "fi".to_string(), 1);
    assert_eq!(err.filename, None);
    assert_eq!(err.text, "fi");
    assert!(err.incomplete);
    let named = ParseError::new("a.sh".to_string(), Pos::new(1, 1, 2), "x".to_string(), 0);
    assert_eq!(named.filename, Some("a.sh".to_string()));
    assert!(!named.incomplete);
}

#[test]
fn quote_error_keeps_offset_and_message() {
    let mut table = ObjectTable::new();
    let handle = table.create(Object::QuoteError { byte_offset: 4, msg: "bad byte".to_string() });
    let addr = handle.addr();
    match error_obj_to_rust(&mut table, handle, HUSK_ERROR_QUOTE) {
        Error::Quote(err) => {
            assert_eq!(err.byte_offset, 4);
            assert_eq!(err.msg, "bad byte");
        }
        other => panic!("not a quoting error: {:?}", other),
    }
    assert!(!table.contains_id(addr));
    let direct = QuoteError::new(i32::MAX, "m".to_string());
    assert_eq!(direct.byte_offset, 2147483647);
    assert_eq!(direct.msg, "m");
}

#[test]
fn unknown_error_keeps_its_message() {
    let mut table = ObjectTable::new();
    let handle = table.create(Object::Message("something else".to_string()));
    let addr = handle.addr();
    match error_obj_to_rust(&mut table, handle, HUSK_ERROR_UNKNOWN) {
        Error::Unknown(msg) => assert_eq!(msg, "something else"),
        other => panic!("not an unknown error: {:?}", other),
    }
    assert!(!table.contains_id(addr));
}

#[test]
fn io_error_comes_out_as_it_went_in() {
    let mut table = ObjectTable::new();
    let native = io::Error::new(io::ErrorKind::TimedOut, "too slow");
    let handle = table.create(Object::NativeError(native));
    let addr = handle.addr();
    match error_obj_to_rust(&mut table, handle, HUSK_ERROR_IO) {
        Error::IO(err) => {
            assert_eq!(err.kind(), io::ErrorKind::TimedOut);
            assert_eq!(err.to_string(), "too slow");
        }
        other => panic!("not an I/O error: {:?}", other),
    }
    assert!(!table.contains_id(addr));
}

#[test]
fn empty_array_takes_one_probe() {
    let mut table = ObjectTable::new();
    let handle = table.create(Object::Strings(Vec::new()));
    let addr = handle.addr();
    let (items, probes) = probe_string_array(&mut table, &handle);
    assert!(items.is_empty());
    assert_eq!(probes, 1);
    assert_eq!(table.asked_log(), &vec![(addr, 0)]);
    assert!(table.is_live(&handle));
    table.release(handle);
}

#[test]
fn empty_array_reports_its_end_at_index_zero() {
    let mut table = ObjectTable::new();
    let handle = table.create(Object::Strings(Vec::new()));
    assert_eq!(table.get_string_from_array(&handle, 0), None);
    assert_eq!(table.asked_log(), &vec![(handle.addr(), 0)]);
    table.release(handle);
}

#[test]
fn array_of_three_takes_four_probes() {
    let mut table = ObjectTable::new();
    let handle = table.create(Object::Strings(strings(&["b", "a", "c"])));
    let addr = handle.addr();
    let (items, probes) = probe_string_array(&mut table, &handle);
    assert_eq!(items, strings(&["b", "a", "c"]));
    assert_eq!(probes, 4);
    assert_eq!(table.asked_log(), &vec![(addr, 0), (addr, 1), (addr, 2), (addr, 3)]);
    table.release(handle);
}

#[test]
fn array_answers_by_index() {
    let mut table = ObjectTable::new();
    let handle = table.create(Object::Strings(strings(&["b", "a", "c"])));
    assert_eq!(table.get_string_from_array(&handle, 1), Some("a".to_string()));
    assert_eq!(table.get_string_from_array(&handle, 3), None);
    assert_eq!(table.asked_log(), &vec![(handle.addr(), 1), (handle.addr(), 3)]);
    table.release(handle);
}

#[test]
fn array_of_two_is_asked_for_indices_zero_to_two() {
    let mut table = ObjectTable::new();
    table.create(Object::File);
    let handle = table.create(Object::Strings(strings(&["a", "b"])));
    let addr = handle.addr();
    let items = go_to_rust_string_vec(&mut table, handle);
    assert_eq!(items, vec!["a".to_string(), "b".to_string()]);
    assert_eq!(table.asked_log(), &vec![(addr, 0), (addr, 1), (addr, 2)]);
    assert!(!table.contains_id(addr));
}

#[test]
fn empty_array_is_marshaled_with_one_question() {
    let mut table = ObjectTable::new();
    let handle = table.create(Object::Strings(Vec::new()));
    let addr = handle.addr();
    let items = go_to_rust_string_vec(&mut table, handle);
    assert_eq!(items, Vec::<String>::new());
    assert_eq!(table.asked_log(), &vec![(addr, 0)]);
}

#[test]
fn questions_add_up_over_arrays() {
    let mut table = ObjectTable::new();
    let first = table.create(Object::Strings(strings(&["x"])));
    let second = table.create(Object::Strings(strings(&["y", "z"])));
    let (a, b) = (first.addr(), second.addr());
    let resp = TaggedResult { r0: second, r1: HUSK_SHELL_FIELDS_STRINGS };
    assert_eq!(shell::fields(&mut table, resp).unwrap(), strings(&["y", "z"]));
    go_to_rust_string_vec(&mut table, first);
    assert_eq!(table.asked_log(), &vec![(b, 0), (b, 1), (b, 2), (a, 0), (a, 1)]);
}

#[test]
fn only_arrays_are_asked() {
    let mut table = ObjectTable::new();
    let r0 = table.create(Object::Text("t".to_string()));
    shell::expand(&mut table, TaggedResult { r0, r1: HUSK_SHELL_EXPAND_STRING }).unwrap();
    let handle = table.create(Object::Message("m".to_string()));
    error_obj_to_rust(&mut table, handle, HUSK_ERROR_UNKNOWN);
    assert!(table.asked_log().is_empty());
}

#[test]
fn position_of_a_parse_error_comes_under_its_own_handle() {
    let mut table = ObjectTable::new();
    let handle = table.create(Object::ParseError {
        filename: "f.sh".to_string(),
        pos: Pos::new(40, 3, 9),
        text: "bad".to_string(),
        incomplete: false,
    });
    let data = table.parse_error_data(&handle);
    assert_eq!(data.r0, "f.sh");
    assert_eq!(data.r2, "bad");
    assert_eq!(data.r3, 0);
    assert_ne!(data.r1.addr(), handle.addr());
    assert!(table.is_live(&data.r1));
    assert_eq!(table.live_count(), 2);
    assert_eq!(table.pos_offset(&data.r1), 40);
    assert_eq!(table.pos_line(&data.r1), 3);
    assert_eq!(table.pos_col(&data.r1), 9);
    assert!(!table.fits(&data.r1, HUSK_ERROR_PARSE));
    assert!(matches!(table.release(data.r1), Some(Object::Position(pos)) if pos == Pos::new(40, 3, 9)));
    assert!(table.is_live(&handle));
    table.release(handle);
    assert_eq!(table.live_count(), 0);
}

#[test]
fn classification_releases_the_position_too() {
    let mut table = ObjectTable::new();
    let handle = table.create(Object::ParseError {
        filename: String::new(),
        pos: Pos::new(12, 2, 3),
        text: "fi".to_string(),
        incomplete: true,
    });
    assert_eq!(handle.addr(), 0);
    match error_obj_to_rust(&mut table, handle, HUSK_ERROR_PARSE) {
        Error::Parse(err) => assert_eq!(err.pos, Pos::new(12, 2, 3)),
        other => panic!("not a parse error: {:?}", other),
    }
    assert_eq!(table.live_count(), 0);
    assert!(!table.contains_id(1));
    let next = table.create(Object::File);
    assert_eq!(next.addr(), 2);
}

#[test]
fn array_is_released_after_marshaling() {
    let mut table = ObjectTable::new();
    let handle = table.create(Object::Strings(strings(&["one", "two"])));
    let addr = handle.addr();
    let items = go_to_rust_string_vec(&mut table, handle);
    assert_eq!(items, strings(&["one", "two"]));
    assert!(!table.contains_id(addr));
}

#[test]
fn expand_reads_a_string_or_an_error() {
    let mut table = ObjectTable::new();
    let r0 = table.create(Object::Text("hello world".to_string()));
    let addr = r0.addr();
    let resp = TaggedResult { r0, r1: HUSK_SHELL_EXPAND_STRING };
    assert_eq!(shell::expand(&mut table, resp).unwrap(), "hello world");
    assert!(!table.contains_id(addr));

    let r0 = table.create(Object::Message("unset".to_string()));
    let resp = TaggedResult { r0, r1: HUSK_ERROR_UNKNOWN };
    assert!(matches!(shell::expand(&mut table, resp), Err(Error::Unknown(msg)) if msg == "unset"));
}

#[test]
fn fields_reads_an_array_or_an_error() {
    let mut table = ObjectTable::new();
    let r0 = table.create(Object::Strings(strings(&["ls", "-l", "/tmp"])));
    let addr = r0.addr();
    let resp = TaggedResult { r0, r1: HUSK_SHELL_FIELDS_STRINGS };
    assert_eq!(shell::fields(&mut table, resp).unwrap(), strings(&["ls", "-l", "/tmp"]));
    assert!(!table.contains_id(addr));

    let r0 = table.create(Object::ParseError {
        filename: String::new(),
        pos: Pos::new(3, 1, 4),
        text: "(".to_string(),
        incomplete: true,
    });
    let resp = TaggedResult { r0, r1: HUSK_ERROR_PARSE };
    assert!(matches!(shell::fields(&mut table, resp), Err(Error::Parse(err)) if err.text == "("));
}

#[test]
fn quote_reads_a_string_or_an_error() {
    let mut table = ObjectTable::new();
    let r0 = table.create(Object::Text("'a b'".to_string()));
    let addr = r0.addr();
    let resp = TaggedResult { r0, r1: HUSK_SYNTAX_QUOTE_STRING };
    assert_eq!(syntax::quote(&mut table, resp).unwrap(), "'a b'");
    assert!(!table.contains_id(addr));

    let r0 = table.create(Object::QuoteError { byte_offset: 2, msg: "nul".to_string() });
    let resp = TaggedResult { r0, r1: HUSK_ERROR_QUOTE };
    match syntax::quote(&mut table, resp) {
        Err(Error::Quote(err)) => {
            assert_eq!(err.byte_offset, 2);
            assert_eq!(err.msg, "nul");
        }
        other => panic!("not a quoting error: {:?}", other),
    }
}

#[test]
fn parse_reads_success_or_an_error() {
    let parser = Parser::new();
    let mut table = ObjectTable::new();
    let r0 = table.create(Object::File);
    let addr = r0.addr();
    let data = TaggedResult { r0, r1: HUSK_SYNTAX_PARSER_FILE };
    assert!(parser.parse(&mut table, data).is_ok());
    assert!(!table.contains_id(addr));

    let r0 = table.create(Object::ParseError {
        filename: String::new(),
        pos: Pos::new(12, 1, 13),
        text: "fi".to_string(),
        incomplete: true,
    });
    let data = TaggedResult { r0, r1: HUSK_ERROR_PARSE };
    match parser.parse(&mut table, data) {
        Err(Error::Parse(err)) => {
            assert_eq!(err.filename, None);
            assert_eq!(err.text, "fi");
            assert!(err.incomplete);
            assert_eq!(err.pos.offset(), 12);
        }
        other => panic!("not a parse error: {:?}", other),
    }
}

#[test]
fn checked_classification_of_a_sound_result() {
    let mut table = ObjectTable::new();
    let handle = table.create(Object::Message("m".to_string()));
    let addr = handle.addr();
    match checked_error_obj_to_rust(&mut table, handle, HUSK_ERROR_UNKNOWN) {
        Ok(Error::Unknown(msg)) => assert_eq!(msg, "m"),
        other => panic!("not an unknown error: {:?}", other),
    }
    assert!(!table.contains_id(addr));
}

#[test]
fn discriminant_outside_the_table_is_a_violation() {
    let mut table = ObjectTable::new();
    let handle = table.create(Object::Message("m".to_string()));
    let addr = handle.addr();
    match checked_error_obj_to_rust(&mut table, handle, 12) {
        Err((violation, back)) => {
            assert_eq!(violation, Violation::OutsideTable);
            assert_eq!(back.addr(), addr);
            assert!(table.is_live(&back));
        }
        other => panic!("accepted: {:?}", other),
    }
    let handle = table.create(Object::Message("m".to_string()));
    assert!(matches!(
        checked_error_obj_to_rust(&mut table, handle, -1),
        Err((Violation::OutsideTable, _))
    ));
}

#[test]
fn success_discriminant_is_no_error() {
    let mut table = ObjectTable::new();
    let handle = table.create(Object::Text("fine".to_string()));
    assert!(matches!(
        checked_error_obj_to_rust(&mut table, handle, HUSK_SHELL_EXPAND_STRING),
        Err((Violation::NotAnError, _))
    ));
}

#[test]
fn reserved_kinds_are_not_coerced() {
    let mut table = ObjectTable::new();
    for code in [1, 2, 3, 4] {
        let handle = table.create(Object::Message("reserved".to_string()));
        let addr = handle.addr();
        match checked_error_obj_to_rust(&mut table, handle, code) {
            Err((violation, back)) => {
                assert_eq!(violation, Violation::Reserved);
                assert!(table.contains_id(addr));
                table.release(back);
            }
            other => panic!("accepted: {:?}", other),
        }
    }
}

#[test]
fn payload_of_another_shape_is_a_violation() {
    let mut table = ObjectTable::new();
    let handle = table.create(Object::QuoteError { byte_offset: 1, msg: "q".to_string() });
    match checked_error_obj_to_rust(&mut table, handle, HUSK_ERROR_PARSE) {
        Err((violation, back)) => {
            assert_eq!(violation, Violation::WrongPayload);
            assert!(table.is_live(&back));
            assert!(table.release(back).is_some());
        }
        other => panic!("accepted: {:?}", other),
    }
    let mut other_table = ObjectTable::new();
    let stranger = other_table.create(Object::File);
    let mut empty = ObjectTable::new();
    assert!(matches!(
        checked_error_obj_to_rust(&mut empty, stranger, HUSK_ERROR_IO),
        Err((Violation::WrongPayload, _))
    ));
}

#[test]
fn live_count_tells_what_is_held() {
    let mut table = ObjectTable::new();
    assert_eq!(table.live_count(), 0);
    let first = table.create(Object::File);
    let second = table.create(Object::Text("t".to_string()));
    assert_eq!(table.live_count(), 2);
    table.release(first);
    assert_eq!(table.live_count(), 1);
    table.release(second);
    assert_eq!(table.live_count(), 0);
}

#[test]
fn classification_leaks_nothing() {
    let mut table = ObjectTable::new();
    let kept = table.create(Object::File);
    let handle = table.create(Object::QuoteError { byte_offset: 0, msg: String::new() });
    assert_eq!(table.live_count(), 2);
    error_obj_to_rust(&mut table, handle, HUSK_ERROR_QUOTE);
    assert_eq!(table.live_count(), 1);
    assert!(table.is_live(&kept));
}

#[test]
fn every_success_shape_is_read() {
    let mut table = ObjectTable::new();
    let r0 = table.create(Object::Text("expanded".to_string()));
    match classify_result(&mut table, TaggedResult { r0, r1: HUSK_SHELL_EXPAND_STRING }) {
        Ok(Ok(Payload::String(text))) => assert_eq!(text, "expanded"),
        other => panic!("not a string: {:?}", other),
    }
    let r0 = table.create(Object::Text("'quoted'".to_string()));
    match classify_result(&mut table, TaggedResult { r0, r1: HUSK_SYNTAX_QUOTE_STRING }) {
        Ok(Ok(Payload::String(text))) => assert_eq!(text, "'quoted'"),
        other => panic!("not a string: {:?}", other),
    }
    let r0 = table.create(Object::Strings(strings(&["a", "b"])));
    match classify_result(&mut table, TaggedResult { r0, r1: HUSK_SHELL_FIELDS_STRINGS }) {
        Ok(Ok(Payload::Strings(items))) => assert_eq!(items, strings(&["a", "b"])),
        other => panic!("not an array: {:?}", other),
    }
    let r0 = table.create(Object::File);
    match classify_result(&mut table, TaggedResult { r0, r1: HUSK_SYNTAX_PARSER_FILE }) {
        Ok(Ok(Payload::Nothing)) => {}
        other => panic!("not empty: {:?}", other),
    }
    assert_eq!(table.live_count(), 0);
}

#[test]
fn every_implemented_error_kind_is_read() {
    let mut table = ObjectTable::new();
    let r0 = table.create(Object::NativeError(io::Error::new(io::ErrorKind::NotFound, "nf")));
    assert!(matches!(
        classify_result(&mut table, TaggedResult { r0, r1: HUSK_ERROR_IO }),
        Ok(Err(Error::IO(err))) if err.kind() == io::ErrorKind::NotFound
    ));
    let r0 = table.create(Object::ParseError {
        filename: "f".to_string(),
        pos: Pos::new(1, 1, 2),
        text: "t".to_string(),
        incomplete: false,
    });
    assert!(matches!(
        classify_result(&mut table, TaggedResult { r0, r1: HUSK_ERROR_PARSE }),
        Ok(Err(Error::Parse(err))) if err.filename.as_deref() == Some("f") && !err.incomplete
    ));
    let r0 = table.create(Object::QuoteError { byte_offset: 9, msg: "q".to_string() });
    assert!(matches!(
        classify_result(&mut table, TaggedResult { r0, r1: HUSK_ERROR_QUOTE }),
        Ok(Err(Error::Quote(err))) if err.byte_offset == 9
    ));
    let r0 = table.create(Object::Message("u".to_string()));
    assert!(matches!(
        classify_result(&mut table, TaggedResult { r0, r1: HUSK_ERROR_UNKNOWN }),
        Ok(Err(Error::Unknown(msg))) if msg == "u"
    ));
    assert_eq!(table.live_count(), 0);
}

#[test]
fn a_result_that_breaks_the_protocol_is_handed_back() {
    let mut table = ObjectTable::new();
    let r0 = table.create(Object::Text("t".to_string()));
    match classify_result(&mut table, TaggedResult { r0, r1: 17 }) {
        Err((Violation::OutsideTable, back)) => assert!(table.is_live(&back)),
        other => panic!("accepted: {:?}", other),
    }
    let r0 = table.create(Object::Text("t".to_string()));
    match classify_result(&mut table, TaggedResult { r0, r1: HUSK_SHELL_FIELDS_STRINGS }) {
        Err((Violation::WrongPayload, back)) => assert!(table.is_live(&back)),
        other => panic!("accepted: {:?}", other),
    }
    let r0 = table.create(Object::Message("m".to_string()));
    match classify_result(&mut table, TaggedResult { r0, r1: HUSK_ERROR_LANG }) {
        Err((Violation::Reserved, back)) => assert!(table.is_live(&back)),
        other => panic!("accepted: {:?}", other),
    }
    assert_eq!(table.live_count(), 3);
}
