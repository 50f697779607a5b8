use krab::color::{can_read, from, Rgb};
use krab::popups::insert_password::InsertPassword;
use krab::popups::message::MessagePopup;
use krab::text::{chars_of, line_count, same_text, text_from};

#[test]
fn the_colours_of_the_application_are_read() {
    assert_eq!(from("#503D2D"), Ok(Rgb { r: 0x50, g: 0x3d, b: 0x2d }));
    assert_eq!(from("#F0ECC9"), Ok(Rgb { r: 0xf0, g: 0xec, b: 0xc9 }));
    assert_eq!(from("#E3AD43"), Ok(Rgb { r: 0xe3, g: 0xad, b: 0x43 }));
    assert_eq!(from("#D44C1A"), Ok(Rgb { r: 0xd4, g: 0x4c, b: 0x1a }));
    assert_eq!(from("#1f9295"), Ok(Rgb { r: 0x1f, g: 0x92, b: 0x95 }));
}

#[test]
fn hashes_are_skipped_and_more_text_is_ignored() {
    assert_eq!(from("000000"), Ok(Rgb { r: 0, g: 0, b: 0 }));
    assert_eq!(from("###ffFFff"), Ok(Rgb { r: 255, g: 255, b: 255 }));
    assert_eq!(from("#0102030405"), Ok(Rgb { r: 1, g: 2, b: 3 }));
}

#[test]
fn a_pair_is_two_digits_or_a_sign_and_a_digit() {
    assert_eq!(from("#+a0b0c"), Ok(Rgb { r: 10, g: 11, b: 12 }));
    assert_eq!(from("#gg0000"), Err("Invalid color".to_string()));
    assert_eq!(from("#00-100"), Err("Invalid color".to_string()));
    assert_eq!(from("#0000 0"), Err("Invalid color".to_string()));
    assert_eq!(from("#0000++"), Err("Invalid color".to_string()));
    assert_eq!(from("#00000+"), Err("Invalid color".to_string()));
    assert_eq!(from("#éé00"), Err("Invalid color".to_string()));
}

#[test]
fn texts_that_cannot_be_cut_are_not_readable() {
    assert!(can_read("#123456"));
    assert!(can_read("123456"));
    assert!(!can_read(""));
    assert!(!can_read("#"));
    assert!(!can_read("#12345"));
    assert!(!can_read("######"));
    // A pair would end inside a character.
    assert!(!can_read("#0é000"));
    assert!(!can_read("#00000é"));
    assert!(can_read("#000000é"));
}

#[test]
fn messages_of_more_than_three_lines_are_pages() {
    assert!(!MessagePopup::new("Cannot create record".to_string()).is_page());
    assert!(!MessagePopup::new("Secrets exported\nsuccessfully to the\ndownloads folder".to_string())
        .is_page());
    assert!(!MessagePopup::new("a\nb\nc\n".to_string()).is_page());
    assert!(MessagePopup::new("a\nb\nc\nd".to_string()).is_page());
    assert!(MessagePopup::new("\n\n\n\n".to_string()).is_page());
    assert!(!MessagePopup::new(String::new()).is_page());
}

#[test]
fn lines_are_counted_up_to_the_limit() {
    for text in ["", "a", "a\n", "a\nb", "\n", "\n\n", "a\r\nb\r\n", "a\n\nb\nc\nd"] {
        assert_eq!(line_count(text, 100), text.lines().count());
    }
    assert_eq!(line_count("a\nb\nc\nd", 2), 2);
    assert_eq!(line_count("a\nb", 0), 0);
}

#[test]
fn long_domains_are_cut_and_end_in_dots() {
    let short = "a".repeat(32);
    assert_eq!(InsertPassword::new(short.clone()).domain_label(), short);
    let long = "0123456789".repeat(4);
    assert_eq!(
        InsertPassword::new(long).domain_label(),
        "01234567890123456789012345678..."
    );
    let wide = "é".repeat(17);
    assert_eq!(InsertPassword::new(wide.clone()).domain_label(), format!("{wide}..."));
}

#[test]
fn texts_are_taken_apart_and_put_together() {
    assert_eq!(chars_of("aé•"), vec!['a', 'é', '•']);
    assert_eq!(chars_of(""), Vec::<char>::new());
    assert_eq!(text_from(&vec!['a', 'é', '•'], 1), "é•");
    assert_eq!(text_from(&vec!['a', 'é', '•'], 3), "");
    assert!(same_text("é", "é"));
    assert!(!same_text("e", "é"));
}
