use open_timeline_gui::dates::{
    judge_dates, dates_validity, gui_date_components_from_date, read_end_date, read_input_number,
    read_selected_month, read_start_date, DateComponents, MAX_YEAR, MIN_YEAR,
};
use open_timeline_gui::decimal::{parse_i32, parse_i64, parse_isize, render_i64, render_isize};
use open_timeline_gui::enums::ShowRemoveButton;
use open_timeline_gui::helpers::{chars_of, conform_string_input_to_int_in_range, joined, same_text, string_of};
use open_timeline_gui::tags::{
    tag_problem_from, RequestedAction, TagComponentError, TagFocusRequestTarget, TagGui, TagText,
    TagsGui,
};
use open_timeline_gui::text::{is_blank, trim_chars};
use open_timeline_gui::validity::{
    ChannelPoll, combined_validity, combined_validity_synchronous, ValidityAsynchronous, ValiditySynchronous,
    ValitityStatus,
};
use open_timeline_gui::validity::{Valid, ValidSynchronous};

fn conform(input: &str, min: isize, max: isize) -> String {
    let mut s = String::from(input);
    conform_string_input_to_int_in_range(&mut s, min..=max);
    s
}

fn chars(s: &str) -> Vec<char> {
    s.chars().collect()
}

#[test]
fn conform_keeps_a_number_in_range() {
    assert_eq!(conform("12", 1, 31), "12");
    assert_eq!(conform("-50000", -50000, 10000), "-50000");
}

#[test]
fn conform_drops_leading_zeros() {
    assert_eq!(conform("007", 1, 31), "7");
    assert_eq!(conform("0", 0, 10), "0");
}

#[test]
fn conform_removes_characters_that_are_not_digits() {
    assert_eq!(conform("1a2", 1, 31), "12");
    assert_eq!(conform("abc", 1, 31), "");
}

#[test]
fn conform_turns_minus_zero_into_minus() {
    assert_eq!(conform("-0", -50000, 10000), "-");
    assert_eq!(conform("-", -50000, 10000), "-");
}

#[test]
fn conform_drops_a_negative_number_where_none_is_admitted() {
    assert_eq!(conform("-5", 1, 31), "");
    assert_eq!(conform("-12", 1, 31), "");
    assert_eq!(conform("-", 1, 31), "");
}

#[test]
fn conform_drops_last_digits_until_the_number_is_in_range() {
    assert_eq!(conform("45", 1, 31), "4");
    assert_eq!(conform("500", 1, 31), "5");
    assert_eq!(conform("25", 10, 20), "");
    assert_eq!(conform("10001", -50000, 10000), "1000");
    assert_eq!(conform("-600000", -50000, 10000), "-6000");
    assert_eq!(conform("0", 1, 31), "");
    assert_eq!(conform("99999999999999999999999", 1, 31), "9");
}

#[test]
fn conform_twice_changes_nothing_more() {
    for (input, min, max) in [("500", 1, 31), ("25", 10, 20), ("-0", -5, 5), ("0042x", 1, 31), ("-77", -100, 100), ("abc", 0, 9), ("123456", 0, 1000)] {
        let once = conform(input, min, max);
        assert_eq!(conform(&once, min, max), once, "{input:?}");
    }
}

#[test]
fn conform_leaves_empty_input_empty() {
    assert_eq!(conform("", 1, 31), "");
}

#[test]
fn conform_leaves_its_in_range_result_alone() {
    let once = conform("0042x", 1, 31);
    assert_eq!(once, "4");
    assert_eq!(conform(&once, 1, 31), once);
}

#[test]
fn parse_reads_signed_decimal_text() {
    assert_eq!(parse_isize(&chars("42")), Some(42));
    assert_eq!(parse_isize(&chars("-42")), Some(-42));
    assert_eq!(parse_isize(&chars("+7")), Some(7));
    assert_eq!(parse_isize(&chars("-0")), Some(0));
    assert_eq!(parse_isize(&chars("")), None);
    assert_eq!(parse_isize(&chars("-")), None);
    assert_eq!(parse_isize(&chars("4 2")), None);
    assert_eq!(parse_i64(&chars("9223372036854775807")), Some(i64::MAX));
    assert_eq!(parse_i64(&chars("-9223372036854775808")), Some(i64::MIN));
    assert_eq!(parse_i64(&chars("9223372036854775808")), None);
    assert_eq!(parse_i32(&chars("2147483648")), None);
    assert_eq!(parse_i32(&chars("-2147483648")), Some(i32::MIN));
}

#[test]
fn parse_agrees_with_std() {
    for text in ["0", "12", "-12", "+3", "x", "", "-", "+", "99999999999", "007", " 1"] {
        assert_eq!(parse_i64(&chars(text)), text.parse::<i64>().ok(), "{text:?}");
        assert_eq!(parse_i32(&chars(text)), text.parse::<i32>().ok(), "{text:?}");
    }
}

#[test]
fn render_writes_what_to_string_writes() {
    for v in [0i64, 7, -7, 10, 1999, -50000, i64::MAX, i64::MIN] {
        assert_eq!(string_of(&render_i64(v)), v.to_string());
    }
    for v in [0isize, 42, -42, isize::MAX, isize::MIN] {
        assert_eq!(string_of(&render_isize(v)), v.to_string());
    }
}

#[test]
fn text_helpers_round_trip() {
    assert_eq!(chars_of("héllo"), vec!['h', 'é', 'l', 'l', 'o']);
    assert_eq!(string_of(&vec!['a', 'b']), "ab");
    assert!(same_text("abc", "abc"));
    assert!(!same_text("abc", "abd"));
    assert!(!same_text("abc", "ab"));
    assert_eq!(joined("a", "bc", "d"), "abcd");
}

#[test]
fn trim_removes_surrounding_whitespace_only() {
    assert_eq!(string_of(&trim_chars(&chars("  a b \t\n"))), "a b");
    assert_eq!(string_of(&trim_chars(&chars("\u{3000}x\u{a0}"))), "x");
    assert!(is_blank(" \t "));
    assert!(is_blank(""));
    assert!(!is_blank(" x "));
}

#[test]
fn input_numbers_are_trimmed_and_parsed() {
    assert_eq!(read_input_number(" 12 "), Some(12));
    assert_eq!(read_input_number("-1999"), Some(-1999));
    assert_eq!(read_input_number(""), None);
    assert_eq!(read_input_number("1 2"), None);
    assert_eq!(read_selected_month(0), None);
    assert_eq!(read_selected_month(1), Some(1));
    assert_eq!(read_selected_month(12), Some(12));
    assert_eq!(read_selected_month(13), None);
}

#[test]
fn start_date_needs_a_year() {
    assert_eq!(read_start_date("3", 4, ""), Err(String::from("No start year")));
    assert_eq!(
        read_start_date(" 3", 4, "1999 "),
        Ok(DateComponents { day: Some(3), month: Some(4), year: 1999 })
    );
    assert_eq!(
        read_start_date("", 0, "-44"),
        Ok(DateComponents { day: None, month: None, year: -44 })
    );
}

#[test]
fn end_date_may_be_empty_but_not_without_a_year() {
    assert_eq!(read_end_date("", 0, ""), Ok(None));
    assert_eq!(read_end_date("5", 0, ""), Err(String::from("End year is empty")));
    assert_eq!(read_end_date("", 2, ""), Err(String::from("End year is empty")));
    assert_eq!(
        read_end_date("", 2, "2001"),
        Ok(Some(DateComponents { day: None, month: Some(2), year: 2001 }))
    );
}

#[test]
fn date_inputs_show_a_date_and_read_back() {
    let (day, month, year) = gui_date_components_from_date(Some(9), Some(11), -300);
    assert_eq!((day.as_str(), month, year.as_str()), ("9", 11, "-300"));
    assert_eq!(
        read_start_date(&day, month, &year),
        Ok(DateComponents { day: Some(9), month: Some(11), year: -300 })
    );
    let (day, month, year) = gui_date_components_from_date(None, None, 2024);
    assert_eq!((day.as_str(), month, year.as_str()), ("", 0, "2024"));
}

#[test]
fn year_limits_are_those_of_the_dates() {
    assert_eq!(MIN_YEAR, -50000);
    assert_eq!(MAX_YEAR, 10000);
}

#[test]
fn dates_validity_reports_the_first_problem() {
    assert_eq!(dates_validity(Ok(()), Ok(None)), ValiditySynchronous::Valid);
    assert_eq!(dates_validity(Ok(()), Ok(Some(false))), ValiditySynchronous::Valid);
    assert_eq!(
        dates_validity(Ok(()), Ok(Some(true))),
        ValiditySynchronous::Invalid(String::from("The start date must be before the end date"))
    );
    assert_eq!(
        dates_validity(Err(String::from("bad start")), Err(String::from("bad end"))),
        ValiditySynchronous::Invalid(String::from("bad start"))
    );
    assert_eq!(
        dates_validity(Ok(()), Err(String::from("bad end"))),
        ValiditySynchronous::Invalid(String::from("bad end"))
    );
}

#[test]
fn invalid_msg_gives_the_message() {
    let v = ValiditySynchronous::Invalid(String::from("nope"));
    assert_eq!(v.invalid_msg(), "nope");
    assert!(!v.is_valid());
    assert!(ValiditySynchronous::Valid.is_valid());
}

#[test]
fn combined_validity_is_the_first_that_is_not_valid() {
    let all_valid = vec![ValidityAsynchronous::Valid, ValidityAsynchronous::Valid];
    assert_eq!(combined_validity(&all_valid), ValidityAsynchronous::Valid);
    let mixed = vec![
        ValidityAsynchronous::Valid,
        ValidityAsynchronous::Waiting,
        ValidityAsynchronous::Invalid(String::from("x")),
    ];
    assert_eq!(combined_validity(&mixed), ValidityAsynchronous::Waiting);
    assert_eq!(combined_validity(&vec![]), ValidityAsynchronous::Valid);
    let sync = vec![
        ValiditySynchronous::Valid,
        ValiditySynchronous::Invalid(String::from("first")),
        ValiditySynchronous::Invalid(String::from("second")),
    ];
    assert_eq!(
        combined_validity_synchronous(&sync),
        ValiditySynchronous::Invalid(String::from("first"))
    );
}

#[test]
fn validity_status_keeps_what_it_is_given() {
    let mut status: ValitityStatus<(), String> =
        ValitityStatus::from(ValiditySynchronous::Valid, Some(Ok(())));
    assert_eq!(status.synchronous(), ValiditySynchronous::Valid);
    status.set_synchronous(ValiditySynchronous::Invalid(String::from("bad")));
    assert_eq!(status.synchronous(), ValiditySynchronous::Invalid(String::from("bad")));
    assert_eq!(status.poll_answer(), None);
    status.set_asynchronous(None);
    assert_eq!(*status.asynchronous(), None);
}

#[test]
fn validity_status_hands_back_the_answer() {
    let mut status: ValitityStatus<bool, String> = ValitityStatus::from(ValiditySynchronous::Valid, None);
    let (tx, rx) = tokio::sync::mpsc::channel(1);
    status.await_answer(rx);
    assert_eq!(status.poll_answer(), None);
    assert_eq!(*status.asynchronous(), None);
    tx.try_send(Ok(true)).unwrap();
    assert_eq!(status.poll_answer(), Some(Ok(true)));
    assert!(!status.is_awaiting_answer());
}

#[test]
fn new_tag_input_is_invalid_as_empty() {
    let tag = TagGui::new(ShowRemoveButton::Yes, Some(TagFocusRequestTarget::Name));
    assert_eq!(
        tag.validity_synchronous(),
        ValiditySynchronous::Invalid(String::from("Tag name cannot be empty"))
    );
    assert_eq!(tag.invalid_msg(), "Tag name cannot be empty");
    assert!(tag.shows_remove_button());
    assert!(!tag.to_be_removed());
}

#[test]
fn tag_input_is_checked_by_the_tag_crate() {
    let mut tag = TagGui::new(ShowRemoveButton::No, None);
    tag.value = String::from("  My-tag ");
    tag.update_validity_synchronous();
    assert_eq!(tag.validity_synchronous(), ValiditySynchronous::Valid);
    assert_eq!(
        tag.checked_tag_text(),
        Some(TagText { name: None, value: String::from("my-tag") })
    );
    tag.name = String::from("-fail");
    tag.update_validity_synchronous();
    assert!(!tag.is_valid_synchronous());
    assert_eq!(tag.checked_tag_text(), None);
    assert_eq!(
        tag.validity(),
        ValidityAsynchronous::Invalid(tag.invalid_msg())
    );
    tag.name = String::from("Kind");
    tag.value = String::from("a--b");
    assert!(tag.input_problem().is_some());
    tag.value = String::from("b");
    assert_eq!(
        tag.checked_tag_text(),
        Some(TagText { name: Some(String::from("kind")), value: String::from("b") })
    );
}

#[test]
fn tag_from_tag_is_valid_and_shows_its_texts() {
    let tag = TagGui::from_tag(
        TagText { name: Some(String::from("kind")), value: String::from("person") },
        ShowRemoveButton::No,
    );
    assert_eq!(tag.name, "kind");
    assert_eq!(tag.value, "person");
    assert!(tag.is_valid_synchronous());
    assert!(!tag.shows_remove_button());
}

#[test]
fn focus_request_is_used_once() {
    let mut tag = TagGui::new(ShowRemoveButton::Yes, Some(TagFocusRequestTarget::Value));
    assert_eq!(tag.take_focus_request(), Some(TagFocusRequestTarget::Value));
    assert_eq!(tag.take_focus_request(), None);
}

#[test]
fn tag_requests_remove_and_add_inputs() {
    let mut tags = TagsGui::from_tags(Some(vec![
        TagText { name: None, value: String::from("a") },
        TagText { name: None, value: String::from("b") },
        TagText { name: None, value: String::from("c") },
    ]));
    assert_eq!(tags.tags().len(), 3);
    assert_eq!(tags.validity(), ValidityAsynchronous::Valid);
    tags.tags_mut()[1].requested_action = Some(RequestedAction::Remove);
    tags.tags_mut()[0].requested_action =
        Some(RequestedAction::AddNew(TagFocusRequestTarget::Name));
    tags.apply_requests(false);
    let values: Vec<&str> = tags.tags().iter().map(|t| t.value.as_str()).collect();
    assert_eq!(values, vec!["a", "c", ""]);
    assert!(tags.tags().iter().all(|t| t.requested_action.is_none()));
    let mut last = TagGui::new(ShowRemoveButton::Yes, None);
    std::mem::swap(&mut last, &mut tags.tags_mut()[2]);
    assert_eq!(last.take_focus_request(), Some(TagFocusRequestTarget::Name));
}

#[test]
fn add_button_adds_an_input_focused_on_its_value() {
    let mut tags = TagsGui::from_tags(None);
    assert_eq!(tags.tags().len(), 0);
    tags.apply_requests(true);
    assert_eq!(tags.tags().len(), 1);
    assert_eq!(tags.tags()[0].value, "");
    assert_eq!(
        tags.tags_mut()[0].take_focus_request(),
        Some(TagFocusRequestTarget::Value)
    );
}

#[test]
fn no_request_changes_nothing() {
    let mut tags = TagsGui::from_tags(Some(vec![TagText { name: None, value: String::from("x") }]));
    tags.apply_requests(false);
    assert_eq!(tags.tags().len(), 1);
    assert_eq!(tags.tags()[0].value, "x");
}

#[test]
fn tags_validity_is_that_of_the_first_invalid_tag() {
    let mut tags = TagsGui::from_tags(Some(vec![TagText { name: None, value: String::from("ok") }]));
    tags.apply_requests(true);
    tags.update_validity_synchronous();
    assert!(!tags.is_valid_synchronous());
    assert_eq!(
        tags.validity_synchronous(),
        ValiditySynchronous::Invalid(String::from("Tag name cannot be empty"))
    );
    assert_eq!(
        tags.validity(),
        ValidityAsynchronous::Invalid(String::from("Tag name cannot be empty"))
    );
}

#[test]
fn tag_problem_reports_the_name_first() {
    assert_eq!(tag_problem_from(None, Ok(String::from("a"))), None);
    assert_eq!(
        tag_problem_from(None, Err(TagComponentError::Empty)),
        Some(String::from("Tag name cannot be empty"))
    );
    assert_eq!(
        tag_problem_from(Some(Err(TagComponentError::Empty)), Err(TagComponentError::Empty)),
        Some(String::from("Tag component cannot be empty"))
    );
    assert_eq!(
        tag_problem_from(
            Some(Err(TagComponentError::Invalid(String::from("bad name")))),
            Err(TagComponentError::Invalid(String::from("bad value")))
        ),
        Some(String::from("bad name"))
    );
    assert_eq!(
        tag_problem_from(
            Some(Ok(String::from("n"))),
            Err(TagComponentError::Invalid(String::from("bad value")))
        ),
        Some(String::from("bad value"))
    );
}

#[test]
fn tag_component_examples_of_the_tag_crate() {
    let mut tag = TagGui::new(ShowRemoveButton::No, None);
    for (value, ok) in [("  My-tag  ", true), ("tag-component-here", true), ("-my-tag", false), ("another-tag-", false), ("tag--component", false), ("café", false)] {
        tag.value = String::from(value);
        assert_eq!(tag.input_problem().is_none(), ok, "{value:?}");
    }
    tag.value = String::from("-my-tag");
    assert_eq!(
        tag.input_problem(),
        Some(String::from("Tag component '-my-tag' starts with a hyphen"))
    );
}


#[test]
fn settle_acts_on_each_poll_outcome() {
    let mut status: ValitityStatus<u8, String> =
        ValitityStatus::from(ValiditySynchronous::Valid, Some(Ok(())));
    let (_tx, rx) = tokio::sync::mpsc::channel(1);
    status.await_answer(rx);
    status.set_asynchronous(Some(Ok(())));
    assert_eq!(status.settle(ChannelPoll::Empty), None);
    assert!(status.is_awaiting_answer());
    assert_eq!(*status.asynchronous(), None);
    assert_eq!(status.settle(ChannelPoll::Message(Ok(7))), Some(Ok(7)));
    assert!(!status.is_awaiting_answer());
    assert_eq!(*status.asynchronous(), None);
    status.set_asynchronous(Some(Err(String::from("x"))));
    assert_eq!(status.settle(ChannelPoll::Disconnected), None);
    assert!(!status.is_awaiting_answer());
    assert_eq!(*status.asynchronous(), Some(Err(String::from("x"))));
}

#[test]
fn name_lookup_answers_set_the_validity() {
    let taken = || String::from("Name taken");
    let mut status: ValitityStatus<bool, String> = ValitityStatus::from(ValiditySynchronous::Valid, None);
    status.settle_name_lookup(ChannelPoll::Message(Ok(false)), taken());
    assert_eq!(*status.asynchronous(), Some(Ok(())));
    status.settle_name_lookup(ChannelPoll::Message(Ok(true)), taken());
    assert_eq!(*status.asynchronous(), Some(Err(taken())));
    status.settle_name_lookup(ChannelPoll::Message(Err(String::from("db"))), taken());
    assert_eq!(*status.asynchronous(), Some(Err(String::from("db"))));
    status.settle_name_lookup(ChannelPoll::Empty, taken());
    assert_eq!(*status.asynchronous(), None);
    let (tx, rx) = tokio::sync::mpsc::channel(1);
    status.await_answer(rx);
    tx.try_send(Ok(false)).unwrap();
    status.poll_name_lookup(taken());
    assert_eq!(*status.asynchronous(), Some(Ok(())));
    assert!(!status.is_awaiting_answer());
    let (tx, rx) = tokio::sync::mpsc::channel(1);
    status.await_answer(rx);
    status.poll_name_lookup(taken());
    assert!(status.is_awaiting_answer());
    assert_eq!(*status.asynchronous(), None);
    tx.try_send(Ok(true)).unwrap();
    status.poll_name_lookup(taken());
    assert_eq!(*status.asynchronous(), Some(Err(taken())));
    let (tx, rx) = tokio::sync::mpsc::channel::<Result<bool, String>>(1);
    status.await_answer(rx);
    drop(tx);
    status.poll_name_lookup(taken());
    assert!(!status.is_awaiting_answer());
    assert_eq!(*status.asynchronous(), None);
}

#[test]
fn judged_dates_report_the_first_problem() {
    let ok: Result<i32, String> = Ok(1990);
    let end: Result<Option<i32>, String> = Ok(Some(1980));
    assert_eq!(
        judge_dates(&ok, &end, true),
        ValiditySynchronous::Invalid(String::from("The start date must be before the end date"))
    );
    assert_eq!(judge_dates(&ok, &Ok(None), false), ValiditySynchronous::Valid);
    assert_eq!(
        judge_dates(&Err::<i32, String>(String::from("bad start")), &Err(String::from("bad end")), false),
        ValiditySynchronous::Invalid(String::from("bad start"))
    );
    assert_eq!(
        judge_dates(&ok, &Err(String::from("bad end")), false),
        ValiditySynchronous::Invalid(String::from("bad end"))
    );
}

#[test]
fn whitespace_is_what_std_calls_whitespace() {
    for code in 0..=0x10FFFFu32 {
        if let Some(c) = char::from_u32(code) {
            assert_eq!(trim_chars(&vec![c]).is_empty(), c.is_whitespace(), "{code:#x}");
        }
    }
}
