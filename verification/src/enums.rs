//! The enumerated system fields: closed symbol sets with fixed wire
//! names and case-insensitive accepted input spellings.

use vstd::prelude::*;
use crate::errors::RowError;
use crate::text::{lower_seq, eq_ignore_ascii_case, lemma_lower_seq_idempotent};

verus! {

/// Characters outside 'A'..'Z' are fixed points of case folding, so a
/// sequence without upper-case ASCII letters folds to itself.
proof fn lemma_lower_fixed(s: Seq<char>)
    requires
        forall|i: int| 0 <= i < s.len() ==> !(65 <= #[trigger] s[i] as u32 && s[i] as u32 <= 90),
    ensures
        lower_seq(s) == s,
{
    assert(lower_seq(s) =~= s);
}

#[derive(Clone, Copy, Debug, PartialEq, Eq, Structural)]
pub enum Priority {
    Low,
    Normal,
    High,
    Urgent,
}

/// The priority a spelling selects, case-insensitively, if any.
pub open spec fn priority_of(s: Seq<char>) -> Option<Priority> {
    let l = lower_seq(s);
    if l == "low"@ || l == "baixa"@ {
        Some(Priority::Low)
    } else if l == "normal"@ {
        Some(Priority::Normal)
    } else if l == "high"@ || l == "alta"@ {
        Some(Priority::High)
    } else if l == "urgent"@ || l == "urgente"@ {
        Some(Priority::Urgent)
    } else {
        None
    }
}

/// The fixed wire name a priority serializes to.
pub open spec fn priority_wire(p: Priority) -> Seq<char> {
    match p {
        Priority::Low => "low"@,
        Priority::Normal => "normal"@,
        Priority::High => "high"@,
        Priority::Urgent => "urgent"@,
    }
}

impl Priority {
    /// Parses an accepted spelling, case-insensitively; any other string
    /// is rejected.
    pub fn from_str(name: &str) -> (r: Result<Priority, RowError>)
        ensures
            match r {
                Ok(p) => priority_of(name@) == Some(p),
                Err(e) => priority_of(name@) is None && e == RowError::UnknownPriority,
            },
    {
        proof {
            reveal_strlit("low");
            reveal_strlit("baixa");
            reveal_strlit("normal");
            reveal_strlit("high");
            reveal_strlit("alta");
            reveal_strlit("urgent");
            reveal_strlit("urgente");
            lemma_lower_fixed("low"@);
            lemma_lower_fixed("baixa"@);
            lemma_lower_fixed("normal"@);
            lemma_lower_fixed("high"@);
            lemma_lower_fixed("alta"@);
            lemma_lower_fixed("urgent"@);
            lemma_lower_fixed("urgente"@);
        }
        if eq_ignore_ascii_case(name, "low") || eq_ignore_ascii_case(name, "baixa") {
            Ok(Priority::Low)
        } else if eq_ignore_ascii_case(name, "normal") {
            Ok(Priority::Normal)
        } else if eq_ignore_ascii_case(name, "high") || eq_ignore_ascii_case(name, "alta") {
            Ok(Priority::High)
        } else if eq_ignore_ascii_case(name, "urgent") || eq_ignore_ascii_case(name, "urgente") {
            Ok(Priority::Urgent)
        } else {
            Err(RowError::UnknownPriority)
        }
    }

    /// The canonical wire name.
    pub fn wire_name(&self) -> (r: String)
        ensures
            r@ == priority_wire(*self),
    {
        match self {
            Priority::Low => "low".to_owned(),
            Priority::Normal => "normal".to_owned(),
            Priority::High => "high".to_owned(),
            Priority::Urgent => "urgent".to_owned(),
        }
    }
}

/// Parsing a priority is insensitive to the case of its input: a string
/// and its lower-cased form select the same symbol.
pub proof fn lemma_priority_parse_case_insensitive(s: Seq<char>)
    ensures
        priority_of(lower_seq(s)) == priority_of(s),
{
    lemma_lower_seq_idempotent(s);
}

#[derive(Clone, Copy, Debug, PartialEq, Eq, Structural)]
pub enum Status {
    New,
    Open,
    Pending,
    Hold,
    Solved,
    Closed,
}

/// The status a spelling selects, case-insensitively, if any. The wire
/// value "new" has no accepted input spelling.
pub open spec fn status_of(s: Seq<char>) -> Option<Status> {
    let l = lower_seq(s);
    if l == "open"@ || l == "aberto"@ {
        Some(Status::Open)
    } else if l == "pending"@ || l == "pendente"@ {
        Some(Status::Pending)
    } else if l == "hold"@ || l == "em espera"@ {
        Some(Status::Hold)
    } else if l == "solved"@ || l == "resolvido"@ {
        Some(Status::Solved)
    } else if l == "closed"@ || l == "fechado"@ {
        Some(Status::Closed)
    } else {
        None
    }
}

/// The fixed wire name a status serializes to.
pub open spec fn status_wire(s: Status) -> Seq<char> {
    match s {
        Status::New => "new"@,
        Status::Open => "open"@,
        Status::Pending => "pending"@,
        Status::Hold => "hold"@,
        Status::Solved => "solved"@,
        Status::Closed => "closed"@,
    }
}

impl Status {
    /// Parses an accepted spelling, case-insensitively; any other string
    /// is rejected.
    pub fn from_str(name: &str) -> (r: Result<Status, RowError>)
        ensures
            match r {
                Ok(s) => status_of(name@) == Some(s),
                Err(e) => status_of(name@) is None && e == RowError::UnknownStatus,
            },
    {
        proof {
            reveal_strlit("open");
            reveal_strlit("aberto");
            reveal_strlit("pending");
            reveal_strlit("pendente");
            reveal_strlit("hold");
            reveal_strlit("em espera");
            reveal_strlit("solved");
            reveal_strlit("resolvido");
            reveal_strlit("closed");
            reveal_strlit("fechado");
            lemma_lower_fixed("open"@);
            lemma_lower_fixed("aberto"@);
            lemma_lower_fixed("pending"@);
            lemma_lower_fixed("pendente"@);
            lemma_lower_fixed("hold"@);
            lemma_lower_fixed("em espera"@);
            lemma_lower_fixed("solved"@);
            lemma_lower_fixed("resolvido"@);
            lemma_lower_fixed("closed"@);
            lemma_lower_fixed("fechado"@);
        }
        if eq_ignore_ascii_case(name, "open") || eq_ignore_ascii_case(name, "aberto") {
            Ok(Status::Open)
        } else if eq_ignore_ascii_case(name, "pending") || eq_ignore_ascii_case(name, "pendente") {
            Ok(Status::Pending)
        } else if eq_ignore_ascii_case(name, "hold") || eq_ignore_ascii_case(name, "em espera") {
            Ok(Status::Hold)
        } else if eq_ignore_ascii_case(name, "solved") || eq_ignore_ascii_case(name, "resolvido") {
            Ok(Status::Solved)
        } else if eq_ignore_ascii_case(name, "closed") || eq_ignore_ascii_case(name, "fechado") {
            Ok(Status::Closed)
        } else {
            Err(RowError::UnknownStatus)
        }
    }

    /// The canonical wire name.
    pub fn wire_name(&self) -> (r: String)
        ensures
            r@ == status_wire(*self),
    {
        match self {
            Status::New => "new".to_owned(),
            Status::Open => "open".to_owned(),
            Status::Pending => "pending".to_owned(),
            Status::Hold => "hold".to_owned(),
            Status::Solved => "solved".to_owned(),
            Status::Closed => "closed".to_owned(),
        }
    }
}

/// Parsing a status is insensitive to the case of its input.
pub proof fn lemma_status_parse_case_insensitive(s: Seq<char>)
    ensures
        status_of(lower_seq(s)) == status_of(s),
{
    lemma_lower_seq_idempotent(s);
}

#[derive(Clone, Copy, Debug, PartialEq, Eq, Structural)]
pub enum TicketType {
    Question,
    Incident,
    Problem,
    Task,
}

/// The ticket type a spelling selects, case-insensitively, if any.
pub open spec fn tickettype_of(s: Seq<char>) -> Option<TicketType> {
    let l = lower_seq(s);
    if l == "question"@ || l == "pergunta"@ {
        Some(TicketType::Question)
    } else if l == "incident"@ || l == "incidente"@ {
        Some(TicketType::Incident)
    } else if l == "problem"@ || l == "problema"@ {
        Some(TicketType::Problem)
    } else if l == "task"@ || l == "tarefa"@ {
        Some(TicketType::Task)
    } else {
        None
    }
}

/// The fixed wire name a ticket type serializes to.
pub open spec fn tickettype_wire(t: TicketType) -> Seq<char> {
    match t {
        TicketType::Question => "question"@,
        TicketType::Incident => "incident"@,
        TicketType::Problem => "problem"@,
        TicketType::Task => "task"@,
    }
}

impl TicketType {
    /// Parses an accepted spelling, case-insensitively; any other string
    /// is rejected.
    pub fn from_str(name: &str) -> (r: Result<TicketType, RowError>)
        ensures
            match r {
                Ok(t) => tickettype_of(name@) == Some(t),
                Err(e) => tickettype_of(name@) is None && e == RowError::UnknownTicketType,
            },
    {
        proof {
            reveal_strlit("question");
            reveal_strlit("pergunta");
            reveal_strlit("incident");
            reveal_strlit("incidente");
            reveal_strlit("problem");
            reveal_strlit("problema");
            reveal_strlit("task");
            reveal_strlit("tarefa");
            lemma_lower_fixed("question"@);
            lemma_lower_fixed("pergunta"@);
            lemma_lower_fixed("incident"@);
            lemma_lower_fixed("incidente"@);
            lemma_lower_fixed("problem"@);
            lemma_lower_fixed("problema"@);
            lemma_lower_fixed("task"@);
            lemma_lower_fixed("tarefa"@);
        }
        if eq_ignore_ascii_case(name, "question") || eq_ignore_ascii_case(name, "pergunta") {
            Ok(TicketType::Question)
        } else if eq_ignore_ascii_case(name, "incident") || eq_ignore_ascii_case(name, "incidente") {
            Ok(TicketType::Incident)
        } else if eq_ignore_ascii_case(name, "problem") || eq_ignore_ascii_case(name, "problema") {
            Ok(TicketType::Problem)
        } else if eq_ignore_ascii_case(name, "task") || eq_ignore_ascii_case(name, "tarefa") {
            Ok(TicketType::Task)
        } else {
            Err(RowError::UnknownTicketType)
        }
    }

    /// The canonical wire name.
    pub fn wire_name(&self) -> (r: String)
        ensures
            r@ == tickettype_wire(*self),
    {
        match self {
            TicketType::Question => "question".to_owned(),
            TicketType::Incident => "incident".to_owned(),
            TicketType::Problem => "problem".to_owned(),
            TicketType::Task => "task".to_owned(),
        }
    }
}

/// Parsing a ticket type is insensitive to the case of its input.
pub proof fn lemma_tickettype_parse_case_insensitive(s: Seq<char>)
    ensures
        tickettype_of(lower_seq(s)) == tickettype_of(s),
{
    lemma_lower_seq_idempotent(s);
}

} // verus!
