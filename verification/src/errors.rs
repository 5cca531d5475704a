//! Error taxonomy: configuration errors are fatal before any row is
//! processed; row errors abort only the row they arise in.

use vstd::prelude::*;

verus! {

/// A fatal configuration error, reported before any row is processed.
#[derive(Clone, Copy, Debug, PartialEq, Eq, Structural)]
pub enum ConfigError {
    /// A column label is empty, not purely ASCII-alphabetic, or names a
    /// column beyond the machine's index range.
    InvalidColumnLabel,
}

/// An error that aborts the construction of a single record; the
/// surrounding run continues with the next row.
#[derive(Clone, Copy, Debug, PartialEq, Eq, Structural)]
pub enum RowError {
    /// The mandatory comment cell is absent or not a string.
    CommentNotString,
    /// A priority cell holds a string outside the accepted spellings.
    UnknownPriority,
    /// A status cell holds a string outside the accepted spellings.
    UnknownStatus,
    /// A type cell holds a string outside the accepted spellings.
    UnknownTicketType,
    /// A matched remote field declares a type tag with no coercion rule.
    UnknownFieldType,
    /// An integer, decimal or date cell is absent or not numeric.
    NotNumeric,
    /// A checkbox cell is absent or not a boolean.
    NotBoolean,
    /// A text cell is absent or not a string.
    NotText,
    /// An enumerated-tag cell does not name any declared option.
    UnknownOption,
    /// The configured worksheet time zone is not a recognized name.
    UnknownTimezone,
    /// A date cell lies outside the representable instant range.
    DateOutOfRange,
    /// A date cell names a local time the zone cannot map to one instant.
    DateNotConvertible,
}

pub open spec fn config_error_message(e: ConfigError) -> Seq<char> {
    match e {
        ConfigError::InvalidColumnLabel => "Excel columns must be non-empty and purely ascii-alphabetic"@,
    }
}

pub open spec fn row_error_message(e: RowError) -> Seq<char> {
    match e {
        RowError::CommentNotString => "Comment cell should be a string"@,
        RowError::UnknownPriority => "Unknown priority, expected low/baixa, normal, high/alta, urgent/urgente"@,
        RowError::UnknownStatus => "Unknown status, expected open/aberto, pending/pendente, hold/em espera, solved/resolvido, closed/fechado"@,
        RowError::UnknownTicketType => "Unknown ticket type, expected question/pergunta, incident/incidente, problem/problema, task/tarefa"@,
        RowError::UnknownFieldType => "Unknown Zendesk field type"@,
        RowError::NotNumeric => "Could not parse cell as a number"@,
        RowError::NotBoolean => "Could not parse cell as boolean"@,
        RowError::NotText => "Could not parse cell as string"@,
        RowError::UnknownOption => "Could not parse cell as dropdown menu option"@,
        RowError::UnknownTimezone => "Unknown timezone"@,
        RowError::DateOutOfRange => "Date cell is outside the supported range"@,
        RowError::DateNotConvertible => "Date cell has no unique instant in the worksheet timezone"@,
    }
}

impl ConfigError {
    /// A human-readable description of the error.
    pub fn describe(&self) -> (r: String)
        ensures
            r@ == config_error_message(*self),
    {
        match self {
            ConfigError::InvalidColumnLabel => "Excel columns must be non-empty and purely ascii-alphabetic".to_owned(),
        }
    }
}

impl RowError {
    /// A human-readable description of the error; for the enumerated
    /// fields it names the accepted spellings.
    pub fn describe(&self) -> (r: String)
        ensures
            r@ == row_error_message(*self),
    {
        match self {
            RowError::CommentNotString => "Comment cell should be a string".to_owned(),
            RowError::UnknownPriority => "Unknown priority, expected low/baixa, normal, high/alta, urgent/urgente".to_owned(),
            RowError::UnknownStatus => "Unknown status, expected open/aberto, pending/pendente, hold/em espera, solved/resolvido, closed/fechado".to_owned(),
            RowError::UnknownTicketType => "Unknown ticket type, expected question/pergunta, incident/incidente, problem/problema, task/tarefa".to_owned(),
            RowError::UnknownFieldType => "Unknown Zendesk field type".to_owned(),
            RowError::NotNumeric => "Could not parse cell as a number".to_owned(),
            RowError::NotBoolean => "Could not parse cell as boolean".to_owned(),
            RowError::NotText => "Could not parse cell as string".to_owned(),
            RowError::UnknownOption => "Could not parse cell as dropdown menu option".to_owned(),
            RowError::UnknownTimezone => "Unknown timezone".to_owned(),
            RowError::DateOutOfRange => "Date cell is outside the supported range".to_owned(),
            RowError::DateNotConvertible => "Date cell has no unique instant in the worksheet timezone".to_owned(),
        }
    }
}

} // verus!
