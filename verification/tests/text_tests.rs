use dcp::client::{client_start, ClientStart, RECONNECT_DELAY_SECONDS};
use dcp::messages::AuthRequired;
use dcp::text::{is_white_space_char, trim_white_space};

#[test]
fn white_space_matches_std_for_every_char() {
    for code in 0u32..=0x10FFFF {
        if let Some(c) = char::from_u32(code) {
            assert_eq!(is_white_space_char(c), c.is_whitespace(), "U+{:04X}", code);
        }
    }
}

#[test]
fn trim_matches_std() {
    for text in [
        "", " ", "  a  ", "a", "\t\n hello world \r\n", "\u{3000}x\u{2029}", "\u{200B}x\u{200B}",
        "a b", "\u{85}\u{a0}", " \u{180E}y ",
    ] {
        assert_eq!(trim_white_space(text), text.trim(), "text {:?}", text);
    }
}

#[test]
fn trim_values() {
    assert_eq!(trim_white_space("  bob \n"), "bob");
    assert_eq!(trim_white_space("\u{2003}ann lee\u{205f}"), "ann lee");
    assert_eq!(trim_white_space(" \t "), "");
}

#[test]
fn client_start_follows_announcement() {
    assert_eq!(client_start(&AuthRequired { requires_auth: false }), ClientStart::AskUsername);
    assert_eq!(client_start(&AuthRequired { requires_auth: true }), ClientStart::UnsupportedAuthentication);
    assert_eq!(RECONNECT_DELAY_SECONDS, 5);
}
