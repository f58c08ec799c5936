use write_only::email::{find_from, message_id_of, topic_of, welcome};

const TEA: u128 = 0xa1a2a3a4b1b2c1c2d1d2d3d4d5d6d7d8;
const ANN: u128 = 0x0123456789abcdef0123456789abcdef;

#[test]
fn topic_is_the_subject() {
    assert_eq!(topic_of("tea"), "tea");
    assert_eq!(topic_of(""), "");
    assert_eq!(topic_of("re:"), "re:");
    assert_eq!(topic_of("re:tea"), "re:tea");
    assert_eq!(topic_of("are: tea"), "are: tea");
}

#[test]
fn topic_drops_reply_marks() {
    assert_eq!(topic_of("re: tea"), "tea");
    assert_eq!(topic_of("Re: tea"), "tea");
    assert_eq!(topic_of("RE: tea"), "tea");
    assert_eq!(topic_of("rE: tea"), "tea");
    assert_eq!(topic_of("Re: re: RE: tea"), "tea");
    assert_eq!(topic_of("re: "), "");
    assert_eq!(topic_of("re: re:"), "re:");
}

#[test]
fn topic_keeps_marks_that_are_not_in_front() {
    assert_eq!(topic_of("tea re: cake"), "tea re: cake");
    assert_eq!(topic_of(" re: tea"), " re: tea");
    assert_eq!(topic_of("re:  re: tea"), " re: tea");
}

#[test]
fn topic_of_text_beyond_ascii() {
    assert_eq!(topic_of("Re: thé ☕"), "thé ☕");
    assert_eq!(topic_of("é€"), "é€");
    assert_eq!(topic_of("reé"), "reé");
}

#[test]
fn find_from_gives_the_first_place() {
    assert_eq!(find_from("abcabc", "bc", 0), Some(1));
    assert_eq!(find_from("abcabc", "bc", 1), Some(1));
    assert_eq!(find_from("abcabc", "bc", 2), Some(4));
    assert_eq!(find_from("abcabc", "bc", 5), None);
    assert_eq!(find_from("abcabc", "x", 0), None);
    assert_eq!(find_from("ab", "abc", 0), None);
    assert_eq!(find_from("ab", "", 2), Some(2));
    assert_eq!(find_from("ab", "", 3), None);
    assert_eq!(find_from("é>", ">", 0), Some(1));
}

#[test]
fn message_id_is_taken_with_its_brackets() {
    let headers = r#"[["Received", "by mail"], ["Message-Id", "<abc@mail.example.com>"], ["To", "<note@write-only.space>"]]"#;
    assert_eq!(message_id_of(headers), Some("<abc@mail.example.com>".to_string()));
}

#[test]
fn message_id_is_the_first_of_them() {
    let headers = r#"[["Message-Id", "<1@a>"], ["Message-Id", "<2@b>"]]"#;
    assert_eq!(message_id_of(headers), Some("<1@a>".to_string()));
}

#[test]
fn message_id_after_an_earlier_bracket() {
    let headers = r#"[["From", "Ann <ann@example.com>"], ["Message-Id", "<é@x>"]]"#;
    assert_eq!(message_id_of(headers), Some("<é@x>".to_string()));
}

#[test]
fn message_id_is_missing() {
    assert_eq!(message_id_of(""), None);
    assert_eq!(message_id_of(r#"[["To", "<note@write-only.space>"]]"#), None);
    assert_eq!(message_id_of(r#"[["Message-ID", "<abc@x>"]]"#), None);
    assert_eq!(message_id_of(r#"[["Message-Id", "abc@x"]]"#), None);
}

#[test]
fn message_id_without_an_end() {
    assert_eq!(message_id_of(r#"[["Message-Id", "<abc@x"#), None);
}

#[test]
fn welcome_goes_to_the_mail_service() {
    let request = welcome("mg.example.org", "ann@example.com", "tea & cake", TEA, ANN, None);
    assert_eq!(request.url, "https://api.mailgun.net/v3/mg.example.org/messages");
}

#[test]
fn welcome_payload_is_the_encoded_form() {
    let request = welcome("mg.example.org", "ann@example.com", "tea & cake", TEA, ANN, None);
    assert_eq!(
        request.payload,
        "from=write-only%20%3Cnote@write-only.space%3E&to=ann@example.com&subject=tea%20&%20cake&html=%3C!DOCTYPE%20html%20PUBLIC%20%22-//W3C//DTD%20XHTML%201.0%20Transitional//EN%22%20%22http://www.w3.org/TR/xhtml1/DTD/xhtml1-transitional.dtd%22%3E%3Chtml%20xmlns=%22http://www.w3.org/1999/xhtml%22%3E%3Chead%3E%3Cmeta%20http-equiv=%22Content-Type%22%20content=%22text/html;%20charset=UTF-8%22%20/%3E%3Ctitle%3EWelcome%20to%20write-only%20%F0%9F%8C%98%3C/title%3E%3Cmeta%20name=%22viewport%22%20content=%22width=device-width,%20initial-scale=1.0%22%20/%3E%3C/head%3E%3Cbody%20style=%22margin:%200;%20padding:%200;%22%3E%3Ctable%20border=%220%22%20cellpadding=%220%22%20cellspacing=%220%22%20width=%22400%22%3E%3Ctr%3E%3Ctd%20style=%22padding:%201.5em%201em%201em%201em;%20text-align:%20center;%20font-size:%2018px%22%20bgcolor=%22%23000000%22%3E%3Ca%20href=%22http://write-only.space%22%20style=%22color:%20%23ffff00;%20text-decoration:none%22%3Ewrite-only%E2%98%84space%3C/a%3E%3C/td%3E%3C/tr%3E%3Ctr%3E%3Ctd%20bgcolor=%22%23003344%22%20style=%22color:%20%23ffffff;%20padding:%201em%201em%201em%201em;%20font-size:%2018px%22%3E%3Cb%20style=%22font-size:%2024px;%20padding:%201em%200%201em%200;%22%3EWelcome%20to%20write-only%20%F0%9F%8C%98%3C/b%3E%3Cp%3EYou%20just%20posted%20%3Ca%20href=%22mg.example.org/t/a1a2a3a4-b1b2-c1c2-d1d2-d3d4d5d6d7d8%22%20style=%22font-weight:%20bold;%20color:%20%23ffff00;%20text-decoration:none%22%3Eyour%20first%20note%3C/a%3E%20%E2%80%93%20awesome!%3C/p%3E%3Cp%3EEverything%20you%20post%20to%20write-only%20is%20%3Cem%3Eunlisted%3C/em%3E,%20which%20means%20only%20people%20with%20the%20link%20can%20find%20it.%20Here%20is%20the%20special%20link%20that%20shows%20everything%20posted%20from%20your%20email%20address:%3C/p%3E%3Cp%3E%3Ca%20href=%22mg.example.org/01234567-89ab-cdef-0123-456789abcdef%22%20style=%22font-weight:%20bold;%20color:%20ffff00;%20text-decoration:none%22%3Emg.example.org/01234567-89ab-cdef-0123-456789abcdef%3C/a%3E%3C/p%3E%3Cp%3EYour%20notes%20are%20grouped%20by%20the%20email's%20subject%20line,%20so%20you%20can%20post%20more%20about%20%3Cb%3Etea%20&%20cake%3C/b%3E%20by%20simply%20replying%20to%20this%20email,%20or%20sending%20new%20emails%20with%20the%20same%20subject.%3C/p%3E%3Cp%3EThat's%20it!%3C/p%3E%3Cp%3EHappy%20writing%20%E2%9C%8E%3C/p%3E%3C/td%3E%3C/tr%3E%3C/table%3E%3C/body%3E%3C/html%3E&o:tag=welcome"
    );
}

#[test]
fn welcome_refers_to_the_message_it_answers() {
    let plain = welcome("mg.example.org", "ann@example.com", "tea", TEA, ANN, None);
    let reply = welcome(
        "mg.example.org",
        "ann@example.com",
        "tea",
        TEA,
        ANN,
        Some("<abc@mail.example.com>"),
    );
    assert_eq!(
        reply.payload,
        format!(
            "{}{}",
            plain.payload,
            "&h:In-Reply-To=<abc@mail.example.com>&h:References=<abc@mail.example.com>"
        )
    );
    assert_eq!(reply.url, plain.url);
}

#[test]
fn welcome_encodes_the_domain_in_links_only() {
    let request = welcome("a b", "x", "y", 0, u128::MAX, None);
    assert_eq!(request.url, "https://api.mailgun.net/v3/a b/messages");
    assert!(request.payload.contains("href=%22a%20b/t/00000000-0000-0000-0000-000000000000%22"));
    assert!(request.payload.contains("href=%22a%20b/ffffffff-ffff-ffff-ffff-ffffffffffff%22"));
}
