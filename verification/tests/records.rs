use ticket_importer::batch::{build_tickets, into_batches};
use ticket_importer::cells::CellValue;
use ticket_importer::config::{
    ApiUrls, Config, Credentials, SystemFields, TicketFields, Worksheet,
};
use ticket_importer::enums::Priority;
use ticket_importer::errors::RowError;
use ticket_importer::fields::{ApiValue, CalDate, CustomField, TicketField};
use ticket_importer::ticket::{Comment, CustomFields, Ticket};

fn config_with(
    system_fields: SystemFields,
    custom_fields: Vec<(String, usize)>,
    timezone: &str,
    top_row: usize,
) -> Config {
    Config {
        urls: ApiUrls {
            get_fields: "/api/v2/ticket_fields.json".to_string(),
            post_many: "/api/v2/tickets/create_many.json".to_string(),
        },
        credentials: Credentials {
            api_token: "token".to_string(),
            email: "someone@example.com".to_string(),
            subdomain: "example".to_string(),
        },
        worksheet: Worksheet {
            name: "Sheet1".to_string(),
            top_row,
            timezone: timezone.to_string(),
        },
        ticket: TicketFields { system_fields, custom_fields },
    }
}

fn comment_only() -> SystemFields {
    SystemFields {
        comment: 0,
        subject: None,
        status: None,
        tickettype: None,
        assignee: None,
        priority: None,
    }
}

fn text(s: &str) -> CellValue {
    CellValue::Text(s.to_string())
}

fn number(text: &str, days: i64, day_seconds: u32) -> CellValue {
    CellValue::Number { text: text.to_string(), days, day_seconds }
}

fn date_field(id: usize, title: &str) -> TicketField {
    TicketField {
        id,
        title: title.to_string(),
        field_type: "date".to_string(),
        custom_field_options: None,
    }
}

#[test]
fn integer_and_decimal_take_the_canonical_text() {
    let f = TicketField {
        id: 11,
        title: "Count".to_string(),
        field_type: "integer".to_string(),
        custom_field_options: None,
    };
    let cell = number("5", 5, 0);
    let got = CustomFields::from_integer(Some(&cell), &f).unwrap();
    assert_eq!(got, CustomFields { id: 11, value: ApiValue::Common("5".to_string()) });
    let cell = number("2.5", 2, 43200);
    let got = CustomFields::from_decimal(Some(&cell), &f).unwrap();
    assert_eq!(got.value, ApiValue::Common("2.5".to_string()));
    assert_eq!(CustomFields::from_integer(None, &f), Err(RowError::NotNumeric));
    assert_eq!(
        CustomFields::from_decimal(Some(&text("five")), &f),
        Err(RowError::NotNumeric)
    );
}

#[test]
fn checkbox_requires_a_boolean() {
    let f = TicketField {
        id: 12,
        title: "Done".to_string(),
        field_type: "checkbox".to_string(),
        custom_field_options: None,
    };
    let got = CustomFields::from_checkbox(Some(&CellValue::Bool(true)), &f).unwrap();
    assert_eq!(got.value, ApiValue::Checkbox(true));
    assert_eq!(
        CustomFields::from_checkbox(Some(&text("yes")), &f),
        Err(RowError::NotBoolean)
    );
}

#[test]
fn text_requires_a_string() {
    let f = TicketField {
        id: 13,
        title: "Note".to_string(),
        field_type: "text".to_string(),
        custom_field_options: None,
    };
    let got = CustomFields::from_text(Some(&text("hello")), &f).unwrap();
    assert_eq!(got.value, ApiValue::Common("hello".to_string()));
    assert_eq!(
        CustomFields::from_text(Some(&number("7", 7, 0)), &f),
        Err(RowError::NotText)
    );
}

#[test]
fn tagger_matches_an_option_name_exactly() {
    let f = TicketField {
        id: 14,
        title: "Size".to_string(),
        field_type: "tagger".to_string(),
        custom_field_options: Some(vec![
            CustomField {
                name: "Big".to_string(),
                value: ApiValue::Common("size_big".to_string()),
            },
            CustomField {
                name: "Small".to_string(),
                value: ApiValue::Common("size_small".to_string()),
            },
        ]),
    };
    let got = CustomFields::from_tagger(Some(&text("Small")), &f).unwrap();
    assert_eq!(got, CustomFields { id: 14, value: ApiValue::Common("size_small".to_string()) });
    assert_eq!(
        CustomFields::from_tagger(Some(&text("big")), &f),
        Err(RowError::UnknownOption)
    );
    assert_eq!(
        CustomFields::from_tagger(Some(&CellValue::Bool(false)), &f),
        Err(RowError::UnknownOption)
    );
}

#[test]
fn date_serial_under_east_zone() {
    let f = date_field(15, "Due");
    let cell = number("44197", 44197, 0);
    let got = CustomFields::from_date(Some(&cell), &f, "East").unwrap();
    assert_eq!(got.value, ApiValue::Date(CalDate { year: 2021, month: 1, day: 1 }));
}

#[test]
fn date_round_trip_across_all_zones() {
    let f = date_field(16, "Due");
    for zone in ["Acre", "DeNoronha", "East", "West"] {
        let cell = number("44197", 44197, 0);
        let got = CustomFields::from_date(Some(&cell), &f, zone).unwrap();
        assert_eq!(got.value, ApiValue::Date(CalDate { year: 2021, month: 1, day: 1 }));
    }
}

#[test]
fn date_errors() {
    let f = date_field(17, "Due");
    let cell = number("44197", 44197, 0);
    assert_eq!(
        CustomFields::from_date(Some(&cell), &f, "Utc"),
        Err(RowError::UnknownTimezone)
    );
    assert_eq!(
        CustomFields::from_date(Some(&text("tomorrow")), &f, "East"),
        Err(RowError::NotNumeric)
    );
    let far = number("big", i64::MAX, 0);
    assert_eq!(
        CustomFields::from_date(Some(&far), &f, "East"),
        Err(RowError::DateOutOfRange)
    );
}

#[test]
fn date_in_a_skipped_local_hour_is_rejected() {
    // Daylight saving began at midnight on 2018-11-04 in Brazil's East
    // zone, so the local half past midnight of that day never happened.
    let f = date_field(18, "Due");
    let cell = number("43408.020833", 43408, 1800);
    assert_eq!(
        CustomFields::from_date(Some(&cell), &f, "East"),
        Err(RowError::DateNotConvertible)
    );
}

#[test]
fn row_with_non_string_comment_builds_nothing() {
    let config = config_with(comment_only(), vec![], "East", 1);
    let row = vec![number("3", 3, 0)];
    assert_eq!(
        Ticket::from_row(&row, &config, &vec![]),
        Err(RowError::CommentNotString)
    );
    let rows = vec![vec![number("3", 3, 0)]];
    let (tickets, failures) = build_tickets(&rows, &config, &vec![]);
    assert_eq!(tickets.len(), 0);
    assert_eq!(failures.len(), 1);
    assert_eq!(failures[0].row, 1);
    assert_eq!(failures[0].error, RowError::CommentNotString);
}

#[test]
fn unmapped_optional_fields_are_omitted_without_error() {
    let mut sys = comment_only();
    sys.subject = Some(5);
    let config = config_with(sys, vec![], "East", 1);
    let row = vec![text("body")];
    let ticket = Ticket::from_row(&row, &config, &vec![]).unwrap();
    assert_eq!(ticket.comment, Comment { body: "body".to_string() });
    assert_eq!(ticket.subject, None);
    assert_eq!(ticket.priority, None);
    assert_eq!(ticket.status, None);
    assert_eq!(ticket.tickettype, None);
    assert_eq!(ticket.assignee, None);
    assert_eq!(ticket.custom_fields, vec![]);
}

#[test]
fn unmatched_custom_key_is_silently_dropped() {
    let config = config_with(
        comment_only(),
        vec![("Colour".to_string(), 1)],
        "East",
        1,
    );
    let remote = vec![TicketField {
        id: 20,
        title: "Color".to_string(),
        field_type: "text".to_string(),
        custom_field_options: None,
    }];
    let row = vec![text("body"), text("blue")];
    let ticket = Ticket::from_row(&row, &config, &remote).unwrap();
    assert_eq!(ticket.custom_fields, vec![None]);
}

#[test]
fn matched_custom_key_is_coerced_by_field_type() {
    let config = config_with(
        comment_only(),
        vec![("Color".to_string(), 1), ("Count".to_string(), 2)],
        "East",
        1,
    );
    let remote = vec![
        TicketField {
            id: 21,
            title: "Color".to_string(),
            field_type: "text".to_string(),
            custom_field_options: None,
        },
        TicketField {
            id: 22,
            title: "Count".to_string(),
            field_type: "integer".to_string(),
            custom_field_options: None,
        },
    ];
    let row = vec![text("body"), text("blue"), number("4", 4, 0)];
    let ticket = Ticket::from_row(&row, &config, &remote).unwrap();
    assert_eq!(
        ticket.custom_fields,
        vec![
            Some(CustomFields { id: 21, value: ApiValue::Common("blue".to_string()) }),
            Some(CustomFields { id: 22, value: ApiValue::Common("4".to_string()) }),
        ]
    );
}

#[test]
fn unknown_field_type_aborts_the_record() {
    let config = config_with(
        comment_only(),
        vec![("Weird".to_string(), 1)],
        "East",
        1,
    );
    let remote = vec![TicketField {
        id: 23,
        title: "Weird".to_string(),
        field_type: "regexp".to_string(),
        custom_field_options: None,
    }];
    let row = vec![text("body"), text("x")];
    assert_eq!(
        Ticket::from_row(&row, &config, &remote),
        Err(RowError::UnknownFieldType)
    );
}

#[test]
fn coercion_failure_aborts_the_record() {
    let config = config_with(
        comment_only(),
        vec![("Count".to_string(), 1)],
        "East",
        1,
    );
    let remote = vec![TicketField {
        id: 24,
        title: "Count".to_string(),
        field_type: "integer".to_string(),
        custom_field_options: None,
    }];
    let row = vec![text("body"), text("four")];
    assert_eq!(Ticket::from_row(&row, &config, &remote), Err(RowError::NotNumeric));
}

#[test]
fn bad_rows_are_skipped_and_reported_with_sheet_numbers() {
    let mut sys = comment_only();
    sys.priority = Some(1);
    let config = config_with(sys, vec![], "East", 2);
    let rows = vec![
        vec![text("header"), text("header")],
        vec![text("first"), text("alta")],
        vec![text("second"), text("??")],
        vec![text("third")],
    ];
    let (tickets, failures) = build_tickets(&rows, &config, &vec![]);
    assert_eq!(tickets.len(), 2);
    assert_eq!(tickets[0].comment, Comment { body: "first".to_string() });
    assert_eq!(tickets[0].priority, Some(Priority::High));
    assert_eq!(tickets[1].comment, Comment { body: "third".to_string() });
    assert_eq!(tickets[1].priority, None);
    assert_eq!(failures.len(), 1);
    assert_eq!(failures[0].row, 3);
    assert_eq!(failures[0].error, RowError::UnknownPriority);
}

#[test]
fn top_row_past_the_sheet_builds_nothing() {
    let config = config_with(comment_only(), vec![], "East", 9);
    let rows = vec![vec![text("only")]];
    let (tickets, failures) = build_tickets(&rows, &config, &vec![]);
    assert_eq!(tickets.len(), 0);
    assert_eq!(failures.len(), 0);
}

#[test]
fn end_to_end_single_row() {
    let mut sys = comment_only();
    sys.priority = Some(1);
    let config = config_with(
        sys,
        vec![("Missing Field".to_string(), 2)],
        "East",
        1,
    );
    let row = vec![text("Hello"), text("alta"), text("ignored")];
    let ticket = Ticket::from_row(&row, &config, &vec![]).unwrap();
    assert_eq!(ticket.comment.body, "Hello");
    assert_eq!(ticket.priority, Some(Priority::High));
    assert_eq!(ticket.priority.unwrap().wire_name(), "high");
    assert_eq!(ticket.custom_fields, vec![None]);
}

fn simple_ticket(n: usize) -> Ticket {
    Ticket {
        subject: None,
        comment: Comment { body: n.to_string() },
        priority: None,
        status: None,
        tickettype: None,
        assignee: None,
        custom_fields: vec![],
    }
}

#[test]
fn two_hundred_fifty_records_make_three_batches() {
    let tickets: Vec<Ticket> = (0..250).map(simple_ticket).collect();
    let batches = into_batches(tickets);
    assert_eq!(batches.len(), 3);
    assert_eq!(batches[0].tickets.len(), 100);
    assert_eq!(batches[1].tickets.len(), 100);
    assert_eq!(batches[2].tickets.len(), 50);
    assert_eq!(batches[0].tickets[0].comment.body, "0");
    assert_eq!(batches[1].tickets[0].comment.body, "100");
    assert_eq!(batches[2].tickets[49].comment.body, "249");
}

#[test]
fn batch_edges() {
    assert_eq!(into_batches(vec![]).len(), 0);
    let batches = into_batches((0..100).map(simple_ticket).collect());
    assert_eq!(batches.len(), 1);
    assert_eq!(batches[0].tickets.len(), 100);
    let batches = into_batches((0..101).map(simple_ticket).collect());
    assert_eq!(batches.len(), 2);
    assert_eq!(batches[1].tickets.len(), 1);
}

#[test]
fn error_descriptions_are_not_empty() {
    let errors = [
        RowError::CommentNotString,
        RowError::UnknownPriority,
        RowError::UnknownStatus,
        RowError::UnknownTicketType,
        RowError::UnknownFieldType,
        RowError::NotNumeric,
        RowError::NotBoolean,
        RowError::NotText,
        RowError::UnknownOption,
        RowError::UnknownTimezone,
        RowError::DateOutOfRange,
        RowError::DateNotConvertible,
    ];
    for e in errors {
        assert!(!e.describe().is_empty());
    }
}
