use husk::ctypes::{
    classify, Discriminant, ErrorKind, SuccessShape, HUSK_ERROR_EXIT_STATUS, HUSK_ERROR_IO,
    HUSK_ERROR_LANG, HUSK_ERROR_PARSE, HUSK_ERROR_QUOTE, HUSK_ERROR_UNEXPECTED_COMMAND,
    HUSK_ERROR_UNKNOWN, HUSK_ERROR_UNSET_PARAMETER, HUSK_LANG_AUTO, HUSK_LANG_BASH,
    HUSK_LANG_BATS, HUSK_LANG_MKSH, HUSK_LANG_POSIX, HUSK_SHELL_EXPAND_STRING,
    HUSK_SHELL_FIELDS_STRINGS, HUSK_SYNTAX_PARSER_FILE, HUSK_SYNTAX_QUOTE_STRING,
};
use husk::syntax::LangVariant;
use husk::util::{checked_to_bool, to_bool, to_u8};

#[test]
fn table_counts_from_zero_in_declaration_order() {
    let table = [
        HUSK_ERROR_IO,
        HUSK_ERROR_UNEXPECTED_COMMAND,
        HUSK_ERROR_UNSET_PARAMETER,
        HUSK_ERROR_EXIT_STATUS,
        HUSK_ERROR_LANG,
        HUSK_ERROR_PARSE,
        HUSK_ERROR_QUOTE,
        HUSK_ERROR_UNKNOWN,
        HUSK_SHELL_EXPAND_STRING,
        HUSK_SHELL_FIELDS_STRINGS,
        HUSK_SYNTAX_QUOTE_STRING,
        HUSK_SYNTAX_PARSER_FILE,
        HUSK_LANG_BASH,
        HUSK_LANG_POSIX,
        HUSK_LANG_MKSH,
        HUSK_LANG_BATS,
        HUSK_LANG_AUTO,
    ];
    for (index, code) in table.iter().enumerate() {
        assert_eq!(*code, index as i32);
    }
}

#[test]
fn classify_names_every_error_kind() {
    assert_eq!(classify(0), Some(Discriminant::Error(ErrorKind::IO)));
    assert_eq!(classify(1), Some(Discriminant::Error(ErrorKind::UnexpectedCommand)));
    assert_eq!(classify(2), Some(Discriminant::Error(ErrorKind::UnsetParameter)));
    assert_eq!(classify(3), Some(Discriminant::Error(ErrorKind::ExitStatus)));
    assert_eq!(classify(4), Some(Discriminant::Error(ErrorKind::Lang)));
    assert_eq!(classify(5), Some(Discriminant::Error(ErrorKind::Parse)));
    assert_eq!(classify(6), Some(Discriminant::Error(ErrorKind::Quote)));
    assert_eq!(classify(7), Some(Discriminant::Error(ErrorKind::Unknown)));
}

#[test]
fn classify_names_every_success_shape() {
    assert_eq!(classify(8), Some(Discriminant::Success(SuccessShape::ExpandString)));
    assert_eq!(classify(9), Some(Discriminant::Success(SuccessShape::FieldsStrings)));
    assert_eq!(classify(10), Some(Discriminant::Success(SuccessShape::QuoteString)));
    assert_eq!(classify(11), Some(Discriminant::Success(SuccessShape::ParserFile)));
}

#[test]
fn classify_rejects_what_is_not_in_the_table() {
    assert_eq!(classify(-1), None);
    assert_eq!(classify(12), None);
    assert_eq!(classify(16), None);
    assert_eq!(classify(i32::MAX), None);
    assert_eq!(classify(i32::MIN), None);
}

#[test]
fn classify_undoes_code() {
    for code in 0..12 {
        let found = classify(code).unwrap();
        assert_eq!(found.code(), code);
    }
    assert_eq!(ErrorKind::Parse.code(), 5);
    assert_eq!(SuccessShape::ParserFile.code(), 11);
}

#[test]
fn four_error_kinds_are_reserved() {
    assert!(ErrorKind::IO.is_implemented());
    assert!(ErrorKind::Parse.is_implemented());
    assert!(ErrorKind::Quote.is_implemented());
    assert!(ErrorKind::Unknown.is_implemented());
    assert!(!ErrorKind::UnexpectedCommand.is_implemented());
    assert!(!ErrorKind::UnsetParameter.is_implemented());
    assert!(!ErrorKind::ExitStatus.is_implemented());
    assert!(!ErrorKind::Lang.is_implemented());
}

#[test]
fn lang_variants_cross_as_their_integers() {
    assert_eq!(LangVariant::Bash.to_int(), 12);
    assert_eq!(LangVariant::Posix.to_int(), 13);
    assert_eq!(LangVariant::Mksh.to_int(), 14);
    assert_eq!(LangVariant::Bats.to_int(), 15);
    assert_eq!(LangVariant::Auto.to_int(), 16);
}

#[test]
fn bytes_and_truth_values() {
    assert!(!to_bool(0));
    assert!(to_bool(1));
    assert_eq!(to_u8(true), 1);
    assert_eq!(to_u8(false), 0);
    assert_eq!(to_bool(to_u8(true)), true);
    assert_eq!(to_bool(to_u8(false)), false);
}

#[test]
fn only_zero_and_one_are_truth_values() {
    assert_eq!(checked_to_bool(0), Some(false));
    assert_eq!(checked_to_bool(1), Some(true));
    assert_eq!(checked_to_bool(2), None);
    assert_eq!(checked_to_bool(255), None);
}
