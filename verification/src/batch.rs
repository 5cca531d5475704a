//! The driving loop over rows — per-row failure isolation — and the
//! partitioning of built records into bounded submission batches.

use vstd::prelude::*;
use crate::cells::CellValue;
use crate::config::{Config, TicketFields};
use crate::errors::RowError;
use crate::fields::TicketField;
use crate::ticket::{Ticket, TicketV, ticket_of_row, ticket_result_view};

verus! {

/// The largest number of records one submission request may carry.
pub const BATCH_LIMIT: usize = 100;

/// One reported row failure: the 1-based sheet row and its cause.
#[derive(Clone, Copy, Debug, PartialEq, Eq, Structural)]
pub struct RowFailure {
    pub row: usize,
    pub error: RowError,
}

/// One submission batch.
#[derive(Debug, PartialEq, Eq)]
pub struct TicketWrapper {
    pub tickets: Vec<Ticket>,
}

pub open spec fn tickets_view(s: Seq<Ticket>) -> Seq<TicketV> {
    s.map_values(|t: Ticket| t@)
}

/// The records the rows with indices in `[lo, hi)` build, in row order,
/// rows that fail omitted.
pub open spec fn built_range(
    rows: Seq<Vec<CellValue>>,
    lo: int,
    hi: int,
    tf: TicketFields,
    fields: Seq<TicketField>,
    tz: Seq<char>,
) -> Seq<TicketV>
    decreases hi - lo,
{
    if hi <= lo {
        Seq::empty()
    } else {
        built_range(rows, lo, hi - 1, tf, fields, tz) + (match ticket_of_row(
            rows[hi - 1]@,
            tf,
            fields,
            tz,
        ) {
            Ok(t) => seq![t],
            Err(_) => Seq::empty(),
        })
    }
}

/// The failures the rows with indices in `[lo, hi)` report, in row
/// order, each named by its 1-based sheet row.
pub open spec fn failures_range(
    rows: Seq<Vec<CellValue>>,
    lo: int,
    hi: int,
    tf: TicketFields,
    fields: Seq<TicketField>,
    tz: Seq<char>,
) -> Seq<RowFailure>
    decreases hi - lo,
{
    if hi <= lo {
        Seq::empty()
    } else {
        failures_range(rows, lo, hi - 1, tf, fields, tz) + (match ticket_of_row(
            rows[hi - 1]@,
            tf,
            fields,
            tz,
        ) {
            Ok(_) => Seq::empty(),
            Err(e) => seq![RowFailure { row: hi as usize, error: e }],
        })
    }
}

/// Record building is all-or-nothing and failure is isolated per row:
/// over any row range, every row contributes exactly one outcome —
/// either one built record or one reported failure, never both, never
/// neither.
pub proof fn lemma_row_outcomes_partition(
    rows: Seq<Vec<CellValue>>,
    lo: int,
    hi: int,
    tf: TicketFields,
    fields: Seq<TicketField>,
    tz: Seq<char>,
)
    requires
        lo <= hi,
    ensures
        built_range(rows, lo, hi, tf, fields, tz).len() + failures_range(
            rows,
            lo,
            hi,
            tf,
            fields,
            tz,
        ).len() == hi - lo,
    decreases hi - lo,
{
    if lo < hi {
        lemma_row_outcomes_partition(rows, lo, hi - 1, tf, fields, tz);
    }
}

/// Builds one record per data row, skipping the rows above the
/// configured first data row. A failing row never stops the run: it is
/// reported with its 1-based sheet row number and its cause, and every
/// other row still yields its record, in row order.
#[verifier::loop_isolation(false)]
pub fn build_tickets(rows: &Vec<Vec<CellValue>>, config: &Config, api_fields: &Vec<TicketField>)
    -> (r: (Vec<Ticket>, Vec<RowFailure>))
    requires
        config.worksheet.top_row >= 1,
    ensures
        tickets_view(r.0@) == built_range(
            rows@,
            config.worksheet.top_row - 1,
            rows@.len() as int,
            config.ticket,
            api_fields@,
            config.worksheet.timezone@,
        ),
        r.1@ == failures_range(
            rows@,
            config.worksheet.top_row - 1,
            rows@.len() as int,
            config.ticket,
            api_fields@,
            config.worksheet.timezone@,
        ),
{
    let start: usize = config.worksheet.top_row - 1;
    let mut tickets: Vec<Ticket> = Vec::new();
    let mut failures: Vec<RowFailure> = Vec::new();
    proof {
        assert(tickets_view(tickets@) =~= Seq::<TicketV>::empty());
    }
    if start >= rows.len() {
        return (tickets, failures);
    }
    let mut j: usize = start;
    while j < rows.len()
        invariant
            start <= j <= rows@.len(),
            tickets_view(tickets@) == built_range(
                rows@,
                start as int,
                j as int,
                config.ticket,
                api_fields@,
                config.worksheet.timezone@,
            ),
            failures@ == failures_range(
                rows@,
                start as int,
                j as int,
                config.ticket,
                api_fields@,
                config.worksheet.timezone@,
            ),
        decreases rows@.len() - j,
    {
        let outcome = Ticket::from_row(&rows[j], config, api_fields);
        proof {
            assert(ticket_result_view(outcome) == ticket_of_row(
                rows@[j as int]@,
                config.ticket,
                api_fields@,
                config.worksheet.timezone@,
            ));
        }
        match outcome {
            Ok(t) => {
                let ghost prev = tickets@;
                tickets.push(t);
                proof {
                    assert(tickets_view(tickets@) =~= tickets_view(prev).push(t@));
                }
            },
            Err(e) => {
                failures.push(RowFailure { row: j + 1, error: e });
            },
        }
        j += 1;
    }
    (tickets, failures)
}

/// Partitions the built records into consecutive batches of at most
/// [`BATCH_LIMIT`] records, preserving order across and within batches:
/// batch `i` carries exactly the records with positions
/// `100 * i .. min(100 * (i + 1), n)`, so all batches are full except
/// possibly the last, and their concatenation is the input.
#[verifier::loop_isolation(false)]
pub fn into_batches(tickets: Vec<Ticket>) -> (r: Vec<TicketWrapper>)
    ensures
        r@.len() == (tickets@.len() + BATCH_LIMIT - 1) / (BATCH_LIMIT as int),
        forall|i: int|
            0 <= i < r@.len() ==> #[trigger] r@[i].tickets@ == tickets@.subrange(
                BATCH_LIMIT * i,
                if BATCH_LIMIT * (i + 1) <= tickets@.len() {
                    BATCH_LIMIT * (i + 1)
                } else {
                    tickets@.len() as int
                },
            ),
{
    let ghost all = tickets@;
    let mut rest = tickets;
    let mut out: Vec<TicketWrapper> = Vec::new();
    while rest.len() > BATCH_LIMIT
        invariant
            BATCH_LIMIT * out@.len() + rest@.len() == all.len(),
            rest@ == all.subrange(BATCH_LIMIT * out@.len(), all.len() as int),
            forall|i: int|
                0 <= i < out@.len() ==> #[trigger] out@[i].tickets@ == all.subrange(
                    BATCH_LIMIT * i,
                    BATCH_LIMIT * (i + 1),
                ),
        decreases rest@.len(),
    {
        let tail = rest.split_off(BATCH_LIMIT);
        let ghost m = out@.len();
        out.push(TicketWrapper { tickets: rest });
        proof {
            assert(out@[m as int].tickets@ =~= all.subrange(
                BATCH_LIMIT * m,
                BATCH_LIMIT * (m + 1),
            ));
            assert(tail@ =~= all.subrange(BATCH_LIMIT * (m + 1), all.len() as int));
        }
        rest = tail;
    }
    let ghost m = out@.len();
    let last_len = rest.len();
    if last_len > 0 {
        out.push(TicketWrapper { tickets: rest });
    }
    proof {
        if last_len == 0 {
            assert((all.len() + BATCH_LIMIT - 1) / (BATCH_LIMIT as int) == m) by (nonlinear_arith)
                requires
                    all.len() == BATCH_LIMIT * m,
                    m >= 0,
            ;
        } else {
            assert((all.len() + BATCH_LIMIT - 1) / (BATCH_LIMIT as int) == m + 1)
                by (nonlinear_arith)
                requires
                    all.len() == BATCH_LIMIT * m + last_len,
                    m >= 0,
                    0 < last_len <= BATCH_LIMIT,
            ;
        }
    }
    out
}

} // verus!
