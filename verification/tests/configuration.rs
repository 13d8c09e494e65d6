use husk::syntax::{LangVariant, Parser, ParserBuilder};

#[test]
fn default_parser_leaves_everything_to_the_callee() {
    let parser = Parser::new();
    assert_eq!(parser.keep_comments_arg(), None);
    assert_eq!(parser.stop_at_arg(), None);
    assert_eq!(parser.lang_arg(), None);
}

#[test]
fn set_fields_cross_as_scalars() {
    let parser = Parser::builder()
        .keep_comments(true)
        .stop_at("$$")
        .variant(LangVariant::Posix)
        .build();
    assert_eq!(parser.keep_comments_arg(), Some(1));
    assert_eq!(parser.stop_at_arg(), Some("$$"));
    assert_eq!(parser.lang_arg(), Some(13));
}

#[test]
fn fields_are_independent() {
    let parser = ParserBuilder::new().keep_comments(false).build();
    assert_eq!(parser.keep_comments_arg(), Some(0));
    assert_eq!(parser.stop_at_arg(), None);
    assert_eq!(parser.lang_arg(), None);
    let parser = Parser::builder().variant(LangVariant::Auto).build();
    assert_eq!(parser.keep_comments_arg(), None);
    assert_eq!(parser.lang_arg(), Some(16));
}

#[test]
fn later_setting_wins() {
    let parser = Parser::builder().stop_at("a").stop_at("b").keep_comments(true).keep_comments(false).build();
    assert_eq!(parser.stop_at_arg(), Some("b"));
    assert_eq!(parser.keep_comments_arg(), Some(0));
}

#[test]
fn over_long_stop_word_is_not_judged_here() {
    let parser = Parser::builder().stop_at("far too long").build();
    assert_eq!(parser.stop_at_arg(), Some("far too long"));
}
