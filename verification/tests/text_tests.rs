use gcmgen::client::{finish_text, provider_by_name, Provider};
use gcmgen::decision::commit_decision;

#[test]
fn white_space_is_taken_from_both_ends() {
    assert_eq!(finish_text(None, "  Add hello greeting  "), "Add hello greeting");
    assert_eq!(finish_text(None, "\n\ta b\r\n"), "a b");
}

#[test]
fn inner_white_space_is_kept() {
    assert_eq!(finish_text(None, " a  b "), "a  b");
}

#[test]
fn white_space_alone_leaves_nothing() {
    assert_eq!(finish_text(None, " \t\n"), "");
    assert_eq!(finish_text(None, ""), "");
}

#[test]
fn white_space_beyond_ascii_is_taken_too() {
    assert_eq!(finish_text(None, "\u{a0}x\u{3000}"), "x");
}

#[test]
fn names_are_compared_character_by_character() {
    assert_eq!(provider_by_name("OpenAI"), Some(Provider::OpenAI));
    assert_eq!(provider_by_name("openai"), None);
    assert_eq!(provider_by_name("OpenAI "), None);
    assert_eq!(provider_by_name("OpenA"), None);
    assert_eq!(commit_decision("a"), commit_decision("A"));
    assert_eq!(commit_decision("ab"), None);
}

#[test]
fn every_white_space_character_is_taken_away() {
    let mut white: Vec<u32> = vec![0x20, 0x85, 0xa0, 0x1680, 0x2028, 0x2029, 0x202f, 0x205f, 0x3000];
    white.extend(0x09..=0x0d);
    white.extend(0x2000..=0x200a);
    assert_eq!(white.len(), 25);
    for code in white {
        let c = char::from_u32(code).unwrap();
        assert_eq!(finish_text(None, &format!("{}x{}", c, c)), "x");
    }
}

#[test]
fn no_other_character_is_taken_away() {
    let kept: Vec<u32> = vec![
        0x00, 0x08, 0x0e, 0x1c, 0x1f, 0x21, 0x41, 0x67, 0x7f, 0x84, 0x86, 0x9f, 0xa1, 0x167f, 0x1681,
        0x180e, 0x1fff, 0x200b, 0x200c, 0x2027, 0x202a, 0x202e, 0x2030, 0x205e, 0x2060, 0x2fff, 0x3001,
        0xfeff, 0x10ffff,
    ];
    for code in kept {
        let c = char::from_u32(code).unwrap();
        let text = format!("{}x{}", c, c);
        assert_eq!(finish_text(None, &text), text);
    }
}
