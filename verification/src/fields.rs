//! Remote field metadata and the typed values a custom field can carry.

use vstd::prelude::*;
use crate::text::str_eq;

verus! {

/// A calendar date, held as plain year, month and day numbers.
#[derive(Clone, Copy, Debug, PartialEq, Eq, Structural)]
pub struct CalDate {
    pub year: i32,
    pub month: u8,
    pub day: u8,
}

/// A typed custom-field value, as the remote API accepts it.
#[derive(Debug, PartialEq, Eq)]
pub enum ApiValue {
    /// A plain string (also the serialized form of numbers).
    Common(String),
    /// A timestamp, as seconds since the Unix epoch, in UTC.
    DateTime(i64),
    /// A calendar date.
    Date(CalDate),
    /// A checkbox state.
    Checkbox(bool),
    /// A multi-select: a list of option strings.
    MultiSelect(Vec<String>),
}

/// The mathematical value of an [`ApiValue`].
pub enum ApiV {
    Common(Seq<char>),
    DateTime(int),
    Date(CalDate),
    Checkbox(bool),
    MultiSelect(Seq<Seq<char>>),
}

impl View for ApiValue {
    type V = ApiV;

    open spec fn view(&self) -> ApiV {
        match self {
            ApiValue::Common(s) => ApiV::Common(s@),
            ApiValue::DateTime(t) => ApiV::DateTime(*t as int),
            ApiValue::Date(d) => ApiV::Date(*d),
            ApiValue::Checkbox(b) => ApiV::Checkbox(*b),
            ApiValue::MultiSelect(v) => ApiV::MultiSelect(v.deep_view()),
        }
    }
}

impl Clone for ApiValue {
    fn clone(&self) -> (res: Self)
        ensures
            res@ == self@,
    {
        match self {
            ApiValue::Common(s) => ApiValue::Common(s.clone()),
            ApiValue::DateTime(t) => ApiValue::DateTime(*t),
            ApiValue::Date(d) => ApiValue::Date(*d),
            ApiValue::Checkbox(b) => ApiValue::Checkbox(*b),
            ApiValue::MultiSelect(v) => {
                let mut out: Vec<String> = Vec::new();
                let mut i: usize = 0;
                while i < v.len()
                    invariant
                        i <= v@.len(),
                        out@.len() == i,
                        forall|j: int| 0 <= j < i ==> out@[j]@ == v@[j]@,
                    decreases v@.len() - i,
                {
                    out.push(v[i].clone());
                    i += 1;
                }
                proof {
                    assert(out.deep_view() =~= v.deep_view());
                }
                ApiValue::MultiSelect(out)
            },
        }
    }
}

/// One declared option of an enumerated-tag field: a display name and
/// the opaque value the API expects for it.
pub struct CustomField {
    pub name: String,
    pub value: ApiValue,
}

/// A remote field definition, fetched once per run: its numeric id, the
/// title custom-field mapping keys are matched against, its declared
/// type tag, and, for enumerated-tag fields, its options.
pub struct TicketField {
    pub id: usize,
    pub title: String,
    pub field_type: String,
    pub custom_field_options: Option<Vec<CustomField>>,
}

/// The closed set of field type tags a coercion rule exists for.
#[derive(Clone, Copy, Debug, PartialEq, Eq, Structural)]
pub enum FieldKind {
    Integer,
    Decimal,
    Date,
    Checkbox,
    Text,
    Tagger,
}

/// The coercion kind a declared type tag selects, if any.
pub open spec fn field_kind_of(tag: Seq<char>) -> Option<FieldKind> {
    if tag == "integer"@ {
        Some(FieldKind::Integer)
    } else if tag == "decimal"@ {
        Some(FieldKind::Decimal)
    } else if tag == "date"@ {
        Some(FieldKind::Date)
    } else if tag == "checkbox"@ {
        Some(FieldKind::Checkbox)
    } else if tag == "text"@ {
        Some(FieldKind::Text)
    } else if tag == "tagger"@ {
        Some(FieldKind::Tagger)
    } else {
        None
    }
}

impl FieldKind {
    /// Dispatches a declared type tag to its coercion kind; any tag
    /// outside the closed set is rejected.
    pub fn of_tag(tag: &str) -> (r: Option<FieldKind>)
        ensures
            r == field_kind_of(tag@),
    {
        if str_eq(tag, "integer") {
            Some(FieldKind::Integer)
        } else if str_eq(tag, "decimal") {
            Some(FieldKind::Decimal)
        } else if str_eq(tag, "date") {
            Some(FieldKind::Date)
        } else if str_eq(tag, "checkbox") {
            Some(FieldKind::Checkbox)
        } else if str_eq(tag, "text") {
            Some(FieldKind::Text)
        } else if str_eq(tag, "tagger") {
            Some(FieldKind::Tagger)
        } else {
            None
        }
    }
}

/// The value of the first declared option whose display name exactly
/// equals the cell's string, if any.
pub open spec fn find_option(opts: Seq<CustomField>, name: Seq<char>) -> Option<ApiV>
    decreases opts.len(),
{
    if opts.len() == 0 {
        None
    } else if opts[0].name@ == name {
        Some(opts[0].value@)
    } else {
        find_option(opts.drop_first(), name)
    }
}

/// If the options before `j` miss the name and option `j` hits it, the
/// first hit is option `j`.
pub proof fn lemma_find_option_hit(opts: Seq<CustomField>, name: Seq<char>, j: int)
    requires
        0 <= j < opts.len(),
        forall|k: int| 0 <= k < j ==> #[trigger] opts[k].name@ != name,
        opts[j].name@ == name,
    ensures
        find_option(opts, name) == Some(opts[j].value@),
    decreases j,
{
    if j > 0 {
        lemma_find_option_hit(opts.drop_first(), name, j - 1);
    }
}

/// If no option carries the name, the search misses.
pub proof fn lemma_find_option_miss(opts: Seq<CustomField>, name: Seq<char>)
    requires
        forall|k: int| 0 <= k < opts.len() ==> #[trigger] opts[k].name@ != name,
    ensures
        find_option(opts, name) is None,
    decreases opts.len(),
{
    if opts.len() > 0 {
        lemma_find_option_miss(opts.drop_first(), name);
    }
}

} // verus!
