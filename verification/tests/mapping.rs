use ticket_importer::columns::excel_column_to_index;
use ticket_importer::config::{resolve_custom_labels, resolve_optional_label, resolve_required_label};
use ticket_importer::enums::{Priority, Status, TicketType};
use ticket_importer::errors::{ConfigError, RowError};
use ticket_importer::zones::Zone;

#[test]
fn column_label_basics() {
    assert_eq!(excel_column_to_index("A"), Some(0));
    assert_eq!(excel_column_to_index("Z"), Some(25));
    assert_eq!(excel_column_to_index("AA"), Some(26));
    assert_eq!(excel_column_to_index("AZ"), Some(51));
    assert_eq!(excel_column_to_index("BA"), Some(52));
}

#[test]
fn column_label_is_case_insensitive() {
    assert_eq!(excel_column_to_index("a"), Some(0));
    assert_eq!(excel_column_to_index("aa"), Some(26));
    assert_eq!(excel_column_to_index("aZ"), Some(51));
}

#[test]
fn column_label_rejects_digits_and_symbols() {
    assert_eq!(excel_column_to_index(""), None);
    assert_eq!(excel_column_to_index("A1"), None);
    assert_eq!(excel_column_to_index("1A"), None);
    assert_eq!(excel_column_to_index("B$"), None);
    assert_eq!(excel_column_to_index("A B"), None);
    assert_eq!(excel_column_to_index("Ä"), None);
}

#[test]
fn required_label_resolution() {
    assert_eq!(resolve_required_label("C"), Ok(2));
    assert_eq!(resolve_required_label(""), Err(ConfigError::InvalidColumnLabel));
    assert_eq!(resolve_required_label("C3"), Err(ConfigError::InvalidColumnLabel));
}

#[test]
fn optional_label_resolution() {
    assert_eq!(resolve_optional_label("b"), Ok(Some(1)));
    assert_eq!(resolve_optional_label(""), Ok(None));
    assert_eq!(resolve_optional_label("?"), Err(ConfigError::InvalidColumnLabel));
}

#[test]
fn custom_labels_skip_empty_and_keep_order() {
    let pairs = vec![
        ("First".to_string(), "B".to_string()),
        ("Skipped".to_string(), "".to_string()),
        ("Second".to_string(), "AA".to_string()),
    ];
    let resolved = resolve_custom_labels(&pairs).unwrap();
    assert_eq!(
        resolved,
        vec![("First".to_string(), 1), ("Second".to_string(), 26)]
    );
}

#[test]
fn custom_labels_reject_invalid() {
    let pairs = vec![
        ("Good".to_string(), "A".to_string()),
        ("Bad".to_string(), "A1".to_string()),
    ];
    assert_eq!(resolve_custom_labels(&pairs), Err(ConfigError::InvalidColumnLabel));
}

#[test]
fn priority_accepts_both_spellings_case_insensitively() {
    assert_eq!(Priority::from_str("low"), Ok(Priority::Low));
    assert_eq!(Priority::from_str("Baixa"), Ok(Priority::Low));
    assert_eq!(Priority::from_str("NORMAL"), Ok(Priority::Normal));
    assert_eq!(Priority::from_str("high"), Ok(Priority::High));
    assert_eq!(Priority::from_str("ALTA"), Ok(Priority::High));
    assert_eq!(Priority::from_str("Urgent"), Ok(Priority::Urgent));
    assert_eq!(Priority::from_str("urgente"), Ok(Priority::Urgent));
}

#[test]
fn priority_rejects_unknown_with_spellings_named() {
    let err = Priority::from_str("critical").unwrap_err();
    assert_eq!(err, RowError::UnknownPriority);
    assert_eq!(
        err.describe(),
        "Unknown priority, expected low/baixa, normal, high/alta, urgent/urgente"
    );
}

#[test]
fn status_accepts_both_spellings_case_insensitively() {
    assert_eq!(Status::from_str("open"), Ok(Status::Open));
    assert_eq!(Status::from_str("Aberto"), Ok(Status::Open));
    assert_eq!(Status::from_str("PENDENTE"), Ok(Status::Pending));
    assert_eq!(Status::from_str("em espera"), Ok(Status::Hold));
    assert_eq!(Status::from_str("Em Espera"), Ok(Status::Hold));
    assert_eq!(Status::from_str("resolvido"), Ok(Status::Solved));
    assert_eq!(Status::from_str("Closed"), Ok(Status::Closed));
    assert_eq!(Status::from_str("fechado"), Ok(Status::Closed));
}

#[test]
fn status_new_has_no_input_spelling() {
    let err = Status::from_str("new").unwrap_err();
    assert_eq!(err, RowError::UnknownStatus);
    assert_eq!(
        err.describe(),
        "Unknown status, expected open/aberto, pending/pendente, hold/em espera, solved/resolvido, closed/fechado"
    );
}

#[test]
fn tickettype_accepts_both_spellings_case_insensitively() {
    assert_eq!(TicketType::from_str("question"), Ok(TicketType::Question));
    assert_eq!(TicketType::from_str("Pergunta"), Ok(TicketType::Question));
    assert_eq!(TicketType::from_str("INCIDENTE"), Ok(TicketType::Incident));
    assert_eq!(TicketType::from_str("problema"), Ok(TicketType::Problem));
    assert_eq!(TicketType::from_str("Task"), Ok(TicketType::Task));
    assert_eq!(TicketType::from_str("tarefa"), Ok(TicketType::Task));
}

#[test]
fn tickettype_rejects_unknown_with_spellings_named() {
    let err = TicketType::from_str("feature").unwrap_err();
    assert_eq!(err, RowError::UnknownTicketType);
    assert_eq!(
        err.describe(),
        "Unknown ticket type, expected question/pergunta, incident/incidente, problem/problema, task/tarefa"
    );
}

#[test]
fn wire_names_are_canonical() {
    assert_eq!(Priority::Low.wire_name(), "low");
    assert_eq!(Priority::Normal.wire_name(), "normal");
    assert_eq!(Priority::High.wire_name(), "high");
    assert_eq!(Priority::Urgent.wire_name(), "urgent");
    assert_eq!(Status::New.wire_name(), "new");
    assert_eq!(Status::Open.wire_name(), "open");
    assert_eq!(Status::Pending.wire_name(), "pending");
    assert_eq!(Status::Hold.wire_name(), "hold");
    assert_eq!(Status::Solved.wire_name(), "solved");
    assert_eq!(Status::Closed.wire_name(), "closed");
    assert_eq!(TicketType::Question.wire_name(), "question");
    assert_eq!(TicketType::Incident.wire_name(), "incident");
    assert_eq!(TicketType::Problem.wire_name(), "problem");
    assert_eq!(TicketType::Task.wire_name(), "task");
}

#[test]
fn zone_names_are_exact() {
    assert_eq!(Zone::from_name("Acre"), Some(Zone::Acre));
    assert_eq!(Zone::from_name("DeNoronha"), Some(Zone::DeNoronha));
    assert_eq!(Zone::from_name("East"), Some(Zone::East));
    assert_eq!(Zone::from_name("West"), Some(Zone::West));
    assert_eq!(Zone::from_name("east"), None);
    assert_eq!(Zone::from_name("Utc"), None);
    assert_eq!(Zone::from_name(""), None);
}
