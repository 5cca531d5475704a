//! The record builder: one spreadsheet row, the mapping and the remote
//! field metadata become one complete record, or one row error.

use vstd::prelude::*;
use crate::cells::{CellValue, cell_at, opt_text_at};
use crate::config::{Config, TicketFields};
use crate::enums::{Priority, Status, TicketType, priority_of, status_of, tickettype_of};
use crate::errors::RowError;
use crate::fields::{
    ApiV, ApiValue, CustomField, FieldKind, TicketField, field_kind_of, find_option,
    lemma_find_option_hit, lemma_find_option_miss,
};
use crate::text::str_eq;
use crate::zones::{Zone, zone_of, zone_utc_date, zone_utc_date_exec};

verus! {

/// The mandatory comment body of a record.
#[derive(Debug, PartialEq, Eq)]
pub struct Comment {
    pub body: String,
}

/// One custom-field value of a record: the remote field's id and the
/// coerced typed value.
#[derive(Debug, PartialEq, Eq)]
pub struct CustomFields {
    pub id: usize,
    pub value: ApiValue,
}

/// The mathematical value of a [`CustomFields`].
pub struct CustomFieldsV {
    pub id: int,
    pub value: ApiV,
}

impl View for CustomFields {
    type V = CustomFieldsV;

    open spec fn view(&self) -> CustomFieldsV {
        CustomFieldsV { id: self.id as int, value: self.value@ }
    }
}

pub open spec fn cf_result_view(r: Result<CustomFields, RowError>) -> Result<
    CustomFieldsV,
    RowError,
> {
    match r {
        Ok(c) => Ok(c@),
        Err(e) => Err(e),
    }
}

/// The cell an optional reference points at, as a value.
pub open spec fn deref_cell(d: Option<&CellValue>) -> Option<CellValue> {
    match d {
        Some(c) => Some(*c),
        None => None,
    }
}

/// Integer coercion: the cell must be numeric; its canonical decimal
/// text is the value.
pub open spec fn coerce_integer(data: Option<CellValue>, field: TicketField) -> Result<
    CustomFieldsV,
    RowError,
> {
    match data {
        Some(CellValue::Number { text, .. }) => Ok(
            CustomFieldsV { id: field.id as int, value: ApiV::Common(text@) },
        ),
        _ => Err(RowError::NotNumeric),
    }
}

/// Decimal coercion: identical to integer coercion — both serialize as
/// the cell's canonical decimal text.
pub open spec fn coerce_decimal(data: Option<CellValue>, field: TicketField) -> Result<
    CustomFieldsV,
    RowError,
> {
    coerce_integer(data, field)
}

/// Checkbox coercion: the cell must be a boolean, passed through.
pub open spec fn coerce_checkbox(data: Option<CellValue>, field: TicketField) -> Result<
    CustomFieldsV,
    RowError,
> {
    match data {
        Some(CellValue::Bool(b)) => Ok(
            CustomFieldsV { id: field.id as int, value: ApiV::Checkbox(b) },
        ),
        _ => Err(RowError::NotBoolean),
    }
}

/// Text coercion: the cell must be a string, passed through.
pub open spec fn coerce_text(data: Option<CellValue>, field: TicketField) -> Result<
    CustomFieldsV,
    RowError,
> {
    match data {
        Some(CellValue::Text(s)) => Ok(
            CustomFieldsV { id: field.id as int, value: ApiV::Common(s@) },
        ),
        _ => Err(RowError::NotText),
    }
}

/// Enumerated-tag coercion: the cell must be a string that exactly
/// matches the display name of a declared option; the option's opaque
/// value is emitted.
pub open spec fn coerce_tagger(data: Option<CellValue>, field: TicketField) -> Result<
    CustomFieldsV,
    RowError,
> {
    match data {
        Some(CellValue::Text(s)) => match field.custom_field_options {
            Some(opts) => match find_option(opts@, s@) {
                Some(v) => Ok(CustomFieldsV { id: field.id as int, value: v }),
                None => Err(RowError::UnknownOption),
            },
            None => Err(RowError::UnknownOption),
        },
        _ => Err(RowError::UnknownOption),
    }
}

/// The Unix-epoch second count of a spreadsheet serial read as whole
/// days plus seconds within the day: the serial epoch lies 25569 days
/// before the Unix epoch.
pub open spec fn serial_unix_seconds(days: int, day_seconds: int) -> int {
    (days - 25569) * 86400 + day_seconds
}

/// Date coercion: the worksheet zone must be recognized and the cell
/// numeric; the serial becomes an instant, is read as local time in the
/// zone, and only the UTC calendar date is kept.
pub open spec fn coerce_date(data: Option<CellValue>, field: TicketField, tz: Seq<char>) -> Result<
    CustomFieldsV,
    RowError,
> {
    match zone_of(tz) {
        None => Err(RowError::UnknownTimezone),
        Some(z) => match data {
            Some(CellValue::Number { days, day_seconds, .. }) => {
                let secs = serial_unix_seconds(days as int, day_seconds as int);
                if secs < i64::MIN || secs > i64::MAX {
                    Err(RowError::DateOutOfRange)
                } else {
                    match zone_utc_date(secs, z) {
                        Some(d) => Ok(
                            CustomFieldsV { id: field.id as int, value: ApiV::Date(d) },
                        ),
                        None => Err(RowError::DateNotConvertible),
                    }
                }
            },
            _ => Err(RowError::NotNumeric),
        },
    }
}

/// Coercion dispatch, solely on the field's declared type tag.
pub open spec fn coerce(
    kind: FieldKind,
    data: Option<CellValue>,
    field: TicketField,
    tz: Seq<char>,
) -> Result<CustomFieldsV, RowError> {
    match kind {
        FieldKind::Integer => coerce_integer(data, field),
        FieldKind::Decimal => coerce_decimal(data, field),
        FieldKind::Date => coerce_date(data, field, tz),
        FieldKind::Checkbox => coerce_checkbox(data, field),
        FieldKind::Text => coerce_text(data, field),
        FieldKind::Tagger => coerce_tagger(data, field),
    }
}

impl CustomFields {
    /// Coerces a numeric cell for an integer-typed field.
    pub fn from_integer(excel_data: Option<&CellValue>, api_field: &TicketField) -> (r: Result<
        CustomFields,
        RowError,
    >)
        ensures
            cf_result_view(r) == coerce_integer(deref_cell(excel_data), *api_field),
    {
        match excel_data {
            Some(CellValue::Number { text, .. }) => Ok(
                CustomFields { id: api_field.id, value: ApiValue::Common(text.clone()) },
            ),
            _ => Err(RowError::NotNumeric),
        }
    }

    /// Coerces a numeric cell for a decimal-typed field.
    pub fn from_decimal(excel_data: Option<&CellValue>, api_field: &TicketField) -> (r: Result<
        CustomFields,
        RowError,
    >)
        ensures
            cf_result_view(r) == coerce_decimal(deref_cell(excel_data), *api_field),
    {
        match excel_data {
            Some(CellValue::Number { text, .. }) => Ok(
                CustomFields { id: api_field.id, value: ApiValue::Common(text.clone()) },
            ),
            _ => Err(RowError::NotNumeric),
        }
    }

    /// Coerces a boolean cell for a checkbox-typed field.
    pub fn from_checkbox(excel_data: Option<&CellValue>, api_field: &TicketField) -> (r: Result<
        CustomFields,
        RowError,
    >)
        ensures
            cf_result_view(r) == coerce_checkbox(deref_cell(excel_data), *api_field),
    {
        match excel_data {
            Some(CellValue::Bool(b)) => Ok(
                CustomFields { id: api_field.id, value: ApiValue::Checkbox(*b) },
            ),
            _ => Err(RowError::NotBoolean),
        }
    }

    /// Coerces a string cell for a text-typed field.
    pub fn from_text(excel_data: Option<&CellValue>, api_field: &TicketField) -> (r: Result<
        CustomFields,
        RowError,
    >)
        ensures
            cf_result_view(r) == coerce_text(deref_cell(excel_data), *api_field),
    {
        match excel_data {
            Some(CellValue::Text(s)) => Ok(
                CustomFields { id: api_field.id, value: ApiValue::Common(s.clone()) },
            ),
            _ => Err(RowError::NotText),
        }
    }

    /// Coerces a numeric cell for a date-typed field, through the
    /// configured worksheet time zone.
    pub fn from_date(
        excel_data: Option<&CellValue>,
        api_field: &TicketField,
        timezone: &str,
    ) -> (r: Result<CustomFields, RowError>)
        ensures
            cf_result_view(r) == coerce_date(deref_cell(excel_data), *api_field, timezone@),
    {
        let zone = match Zone::from_name(timezone) {
            Some(z) => z,
            None => {
                return Err(RowError::UnknownTimezone);
            },
        };
        let (days, day_seconds): (i64, u32) = match excel_data {
            Some(CellValue::Number { days, day_seconds, .. }) => (*days, *day_seconds),
            _ => {
                return Err(RowError::NotNumeric);
            },
        };
        let secs_wide: i128 = (days as i128 - 25569) * 86400 + day_seconds as i128;
        if secs_wide < i64::MIN as i128 || secs_wide > i64::MAX as i128 {
            return Err(RowError::DateOutOfRange);
        }
        match zone_utc_date_exec(secs_wide as i64, zone) {
            Some(d) => Ok(CustomFields { id: api_field.id, value: ApiValue::Date(d) }),
            None => Err(RowError::DateNotConvertible),
        }
    }

    /// Coerces a string cell for an enumerated-tag field against the
    /// field's declared options.
    #[verifier::loop_isolation(false)]
    pub fn from_tagger(excel_data: Option<&CellValue>, api_field: &TicketField) -> (r: Result<
        CustomFields,
        RowError,
    >)
        ensures
            cf_result_view(r) == coerce_tagger(deref_cell(excel_data), *api_field),
    {
        let name: &String = match excel_data {
            Some(CellValue::Text(s)) => s,
            _ => {
                return Err(RowError::UnknownOption);
            },
        };
        let opts: &Vec<CustomField> = match &api_field.custom_field_options {
            Some(v) => v,
            None => {
                return Err(RowError::UnknownOption);
            },
        };
        let mut j: usize = 0;
        while j < opts.len()
            invariant
                j <= opts@.len(),
                forall|k: int| 0 <= k < j ==> #[trigger] opts@[k].name@ != name@,
            decreases opts@.len() - j,
        {
            if str_eq(opts[j].name.as_str(), name.as_str()) {
                proof {
                    lemma_find_option_hit(opts@, name@, j as int);
                }
                return Ok(CustomFields { id: api_field.id, value: opts[j].value.clone() });
            }
            j += 1;
        }
        proof {
            lemma_find_option_miss(opts@, name@);
        }
        Err(RowError::UnknownOption)
    }
}

/// The first remote field definition whose title exactly equals the key.
pub open spec fn find_field(fields: Seq<TicketField>, key: Seq<char>) -> Option<TicketField>
    decreases fields.len(),
{
    if fields.len() == 0 {
        None
    } else if fields[0].title@ == key {
        Some(fields[0])
    } else {
        find_field(fields.drop_first(), key)
    }
}

proof fn lemma_find_field_hit(fields: Seq<TicketField>, key: Seq<char>, j: int)
    requires
        0 <= j < fields.len(),
        forall|k: int| 0 <= k < j ==> #[trigger] fields[k].title@ != key,
        fields[j].title@ == key,
    ensures
        find_field(fields, key) == Some(fields[j]),
    decreases j,
{
    if j > 0 {
        lemma_find_field_hit(fields.drop_first(), key, j - 1);
    }
}

proof fn lemma_find_field_miss(fields: Seq<TicketField>, key: Seq<char>)
    requires
        forall|k: int| 0 <= k < fields.len() ==> #[trigger] fields[k].title@ != key,
    ensures
        find_field(fields, key) is None,
    decreases fields.len(),
{
    if fields.len() > 0 {
        lemma_find_field_miss(fields.drop_first(), key);
    }
}

/// The slot one custom-field mapping entry yields: a key with no
/// matching remote field is silently omitted; a matched field's cell is
/// coerced by the field's declared type.
pub open spec fn slot_of(
    key: String,
    col: usize,
    row: Seq<CellValue>,
    fields: Seq<TicketField>,
    tz: Seq<char>,
) -> Result<Option<CustomFieldsV>, RowError> {
    match find_field(fields, key@) {
        None => Ok(None),
        Some(f) => match field_kind_of(f.field_type@) {
            None => Err(RowError::UnknownFieldType),
            Some(k) => match coerce(k, cell_at(row, col as int), f, tz) {
                Err(e) => Err(e),
                Ok(cf) => Ok(Some(cf)),
            },
        },
    }
}

/// The custom-field slots of a whole record, one per mapping entry in
/// declaration order; the first failing entry decides.
pub open spec fn custom_slots(
    customs: Seq<(String, usize)>,
    row: Seq<CellValue>,
    fields: Seq<TicketField>,
    tz: Seq<char>,
) -> Result<Seq<Option<CustomFieldsV>>, RowError>
    decreases customs.len(),
{
    if customs.len() == 0 {
        Ok(Seq::empty())
    } else {
        match custom_slots(customs.drop_last(), row, fields, tz) {
            Err(e) => Err(e),
            Ok(s) => match slot_of(customs.last().0, customs.last().1, row, fields, tz) {
                Err(e) => Err(e),
                Ok(slot) => Ok(s.push(slot)),
            },
        }
    }
}

/// A failing prefix decides the slots of the whole entry list.
pub proof fn lemma_custom_slots_prefix_err(
    customs: Seq<(String, usize)>,
    row: Seq<CellValue>,
    fields: Seq<TicketField>,
    tz: Seq<char>,
    k: int,
)
    requires
        0 <= k <= customs.len(),
        custom_slots(customs.take(k), row, fields, tz) is Err,
    ensures
        custom_slots(customs, row, fields, tz) == custom_slots(customs.take(k), row, fields, tz),
    decreases customs.len(),
{
    if k == customs.len() {
        assert(customs.take(k) =~= customs);
    } else {
        assert(customs.drop_last().take(k) =~= customs.take(k));
        lemma_custom_slots_prefix_err(customs.drop_last(), row, fields, tz, k);
    }
}

/// Custom-field matching is by exact title equality, entry by entry:
/// when the slots of a record succeed, there is one slot per configured
/// entry, each the outcome of its own entry alone — in particular, an
/// entry whose key matches no remote field definition yields an empty
/// slot, not an error.
pub proof fn lemma_custom_slots_index(
    customs: Seq<(String, usize)>,
    row: Seq<CellValue>,
    fields: Seq<TicketField>,
    tz: Seq<char>,
    i: int,
)
    requires
        custom_slots(customs, row, fields, tz) is Ok,
        0 <= i < customs.len(),
    ensures
        custom_slots(customs, row, fields, tz)->Ok_0.len() == customs.len(),
        custom_slots(customs, row, fields, tz)->Ok_0[i] == slot_of(
            customs[i].0,
            customs[i].1,
            row,
            fields,
            tz,
        )->Ok_0,
        find_field(fields, customs[i].0@) is None ==> custom_slots(
            customs,
            row,
            fields,
            tz,
        )->Ok_0[i] is None,
    decreases customs.len(),
{
    lemma_custom_slots_len(customs, row, fields, tz);
    if i == customs.len() - 1 {
        lemma_custom_slots_len(customs.drop_last(), row, fields, tz);
    } else {
        lemma_custom_slots_index(customs.drop_last(), row, fields, tz, i);
        lemma_custom_slots_len(customs.drop_last(), row, fields, tz);
    }
}

/// Successful slots are in one-to-one correspondence with the entries.
pub proof fn lemma_custom_slots_len(
    customs: Seq<(String, usize)>,
    row: Seq<CellValue>,
    fields: Seq<TicketField>,
    tz: Seq<char>,
)
    requires
        custom_slots(customs, row, fields, tz) is Ok,
    ensures
        custom_slots(customs, row, fields, tz)->Ok_0.len() == customs.len(),
    decreases customs.len(),
{
    if customs.len() > 0 {
        lemma_custom_slots_len(customs.drop_last(), row, fields, tz);
    }
}

/// One output record.
#[derive(Debug, PartialEq, Eq)]
pub struct Ticket {
    pub subject: Option<String>,
    pub comment: Comment,
    pub priority: Option<Priority>,
    pub status: Option<Status>,
    pub tickettype: Option<TicketType>,
    pub assignee: Option<String>,
    pub custom_fields: Vec<Option<CustomFields>>,
}

/// The mathematical value of a [`Ticket`].
pub struct TicketV {
    pub subject: Option<Seq<char>>,
    pub comment: Seq<char>,
    pub priority: Option<Priority>,
    pub status: Option<Status>,
    pub tickettype: Option<TicketType>,
    pub assignee: Option<Seq<char>>,
    pub custom_fields: Seq<Option<CustomFieldsV>>,
}

pub open spec fn slots_view(v: Seq<Option<CustomFields>>) -> Seq<Option<CustomFieldsV>> {
    v.map_values(
        |o: Option<CustomFields>|
            match o {
                Some(c) => Some(c@),
                None => None::<CustomFieldsV>,
            },
    )
}

impl View for Ticket {
    type V = TicketV;

    open spec fn view(&self) -> TicketV {
        TicketV {
            subject: self.subject.deep_view(),
            comment: self.comment.body@,
            priority: self.priority,
            status: self.status,
            tickettype: self.tickettype,
            assignee: self.assignee.deep_view(),
            custom_fields: slots_view(self.custom_fields@),
        }
    }
}

pub open spec fn ticket_result_view(r: Result<Ticket, RowError>) -> Result<TicketV, RowError> {
    match r {
        Ok(t) => Ok(t@),
        Err(e) => Err(e),
    }
}

/// The record one row yields under a mapping and the remote field
/// definitions — or the first row error, in field order: the mandatory
/// comment, then the enumerated system fields, then the custom fields.
pub open spec fn ticket_of_row(
    row: Seq<CellValue>,
    tf: TicketFields,
    fields: Seq<TicketField>,
    tz: Seq<char>,
) -> Result<TicketV, RowError> {
    let sys = tf.system_fields;
    let prio_cell = opt_text_at(row, sys.priority);
    let status_cell = opt_text_at(row, sys.status);
    let type_cell = opt_text_at(row, sys.tickettype);
    match cell_at(row, sys.comment as int) {
        Some(CellValue::Text(body)) => {
            if prio_cell matches Some(s) && priority_of(s) is None {
                Err(RowError::UnknownPriority)
            } else if status_cell matches Some(s) && status_of(s) is None {
                Err(RowError::UnknownStatus)
            } else if type_cell matches Some(s) && tickettype_of(s) is None {
                Err(RowError::UnknownTicketType)
            } else {
                match custom_slots(tf.custom_fields@, row, fields, tz) {
                    Err(e) => Err(e),
                    Ok(slots) => Ok(
                        TicketV {
                            subject: opt_text_at(row, sys.subject),
                            comment: body@,
                            priority: match prio_cell {
                                Some(s) => priority_of(s),
                                None => None,
                            },
                            status: match status_cell {
                                Some(s) => status_of(s),
                                None => None,
                            },
                            tickettype: match type_cell {
                                Some(s) => tickettype_of(s),
                                None => None,
                            },
                            assignee: opt_text_at(row, sys.assignee),
                            custom_fields: slots,
                        },
                    ),
                }
            }
        },
        _ => Err(RowError::CommentNotString),
    }
}

/// Reads the cell an optional mapping points at, keeping it only when
/// it exists and is a string.
fn read_opt_text(row: &Vec<CellValue>, idx: Option<usize>) -> (r: Option<String>)
    ensures
        r.deep_view() == opt_text_at(row@, idx),
{
    match idx {
        Some(i) => {
            if i < row.len() {
                match &row[i] {
                    CellValue::Text(s) => Some(s.clone()),
                    _ => None,
                }
            } else {
                None
            }
        },
        None => None,
    }
}

/// Locates the first remote field whose title equals the key.
fn find_field_index(fields: &Vec<TicketField>, key: &String) -> (r: Option<usize>)
    ensures
        match r {
            Some(j) => j < fields@.len() && find_field(fields@, key@) == Some(fields@[j as int]),
            None => find_field(fields@, key@) is None,
        },
{
    let mut j: usize = 0;
    while j < fields.len()
        invariant
            j <= fields@.len(),
            forall|k: int| 0 <= k < j ==> #[trigger] fields@[k].title@ != key@,
        decreases fields@.len() - j,
    {
        if str_eq(fields[j].title.as_str(), key.as_str()) {
            proof {
                lemma_find_field_hit(fields@, key@, j as int);
            }
            return Some(j);
        }
        j += 1;
    }
    proof {
        lemma_find_field_miss(fields@, key@);
    }
    None
}

impl Ticket {
    /// Builds one record from one row. All-or-nothing: any failure —
    /// a missing or non-string comment, an unrecognized enumerated
    /// value, or a custom-field coercion failure — aborts the whole
    /// record with that error, and a success carries every mapped field.
    #[verifier::loop_isolation(false)]
    pub fn from_row(row: &Vec<CellValue>, config: &Config, api_fields: &Vec<TicketField>) -> (r:
        Result<Ticket, RowError>)
        ensures
            ticket_result_view(r) == ticket_of_row(
                row@,
                config.ticket,
                api_fields@,
                config.worksheet.timezone@,
            ),
    {
        let t = &config.ticket.system_fields;
        let subject: Option<String> = read_opt_text(row, t.subject);
        let comment: Comment = match read_opt_text(row, Some(t.comment)) {
            Some(body) => Comment { body },
            None => {
                return Err(RowError::CommentNotString);
            },
        };
        let priority: Option<Priority> = match read_opt_text(row, t.priority) {
            Some(s) => match Priority::from_str(s.as_str()) {
                Ok(p) => Some(p),
                Err(e) => {
                    return Err(e);
                },
            },
            None => None,
        };
        let status: Option<Status> = match read_opt_text(row, t.status) {
            Some(s) => match Status::from_str(s.as_str()) {
                Ok(st) => Some(st),
                Err(e) => {
                    return Err(e);
                },
            },
            None => None,
        };
        let tickettype: Option<TicketType> = match read_opt_text(row, t.tickettype) {
            Some(s) => match TicketType::from_str(s.as_str()) {
                Ok(tt) => Some(tt),
                Err(e) => {
                    return Err(e);
                },
            },
            None => None,
        };
        let assignee: Option<String> = read_opt_text(row, t.assignee);
        let customs = &config.ticket.custom_fields;
        let mut custom_fields: Vec<Option<CustomFields>> = Vec::new();
        proof {
            assert(customs@.take(0int) =~= Seq::<(String, usize)>::empty());
            assert(slots_view(custom_fields@) =~= Seq::<Option<CustomFieldsV>>::empty());
        }
        let mut i: usize = 0;
        while i < customs.len()
            invariant
                i <= customs@.len(),
                custom_slots(
                    customs@.take(i as int),
                    row@,
                    api_fields@,
                    config.worksheet.timezone@,
                ) == Ok::<_, RowError>(slots_view(custom_fields@)),
            decreases customs@.len() - i,
        {
            proof {
                assert(customs@.take(i + 1).drop_last() =~= customs@.take(i as int));
                assert(customs@.take(i + 1).last() == customs@[i as int]);
            }
            let key: &String = &customs[i].0;
            let col: usize = customs[i].1;
            let slot: Option<CustomFields> = match find_field_index(api_fields, key) {
                None => None,
                Some(j) => {
                    let f = &api_fields[j];
                    let kind = match FieldKind::of_tag(f.field_type.as_str()) {
                        Some(k) => k,
                        None => {
                            proof {
                                assert(slot_of(
                                    customs@[i as int].0,
                                    customs@[i as int].1,
                                    row@,
                                    api_fields@,
                                    config.worksheet.timezone@,
                                ) == Err::<Option<CustomFieldsV>, RowError>(
                                    RowError::UnknownFieldType,
                                ));
                                lemma_custom_slots_prefix_err(
                                    customs@,
                                    row@,
                                    api_fields@,
                                    config.worksheet.timezone@,
                                    i + 1,
                                );
                            }
                            return Err(RowError::UnknownFieldType);
                        },
                    };
                    let data: Option<&CellValue> = if col < row.len() {
                        Some(&row[col])
                    } else {
                        None
                    };
                    let coerced = match kind {
                        FieldKind::Integer => CustomFields::from_integer(data, f),
                        FieldKind::Decimal => CustomFields::from_decimal(data, f),
                        FieldKind::Date => CustomFields::from_date(
                            data,
                            f,
                            config.worksheet.timezone.as_str(),
                        ),
                        FieldKind::Checkbox => CustomFields::from_checkbox(data, f),
                        FieldKind::Text => CustomFields::from_text(data, f),
                        FieldKind::Tagger => CustomFields::from_tagger(data, f),
                    };
                    match coerced {
                        Ok(c) => Some(c),
                        Err(e) => {
                            proof {
                                assert(deref_cell(data) == cell_at(row@, col as int));
                                assert(slot_of(
                                    customs@[i as int].0,
                                    customs@[i as int].1,
                                    row@,
                                    api_fields@,
                                    config.worksheet.timezone@,
                                ) == Err::<Option<CustomFieldsV>, RowError>(e));
                                lemma_custom_slots_prefix_err(
                                    customs@,
                                    row@,
                                    api_fields@,
                                    config.worksheet.timezone@,
                                    i + 1,
                                );
                            }
                            return Err(e);
                        },
                    }
                },
            };
            let ghost prev_slots = custom_fields@;
            let ghost slotv = match &slot {
                Some(c) => Some(c@),
                None => None::<CustomFieldsV>,
            };
            custom_fields.push(slot);
            proof {
                assert(slots_view(custom_fields@) =~= slots_view(prev_slots).push(slotv));
            }
            i += 1;
        }
        proof {
            assert(customs@.take(customs@.len() as int) =~= customs@);
        }
        Ok(
            Ticket {
                subject,
                comment,
                priority,
                status,
                tickettype,
                assignee,
                custom_fields,
            },
        )
    }
}

} // verus!
