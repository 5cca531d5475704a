//! The run configuration: remote endpoints, credentials, worksheet
//! selection, and the user-supplied column mapping with its validation.

use vstd::prelude::*;
use crate::columns::{excel_column_to_index, is_column_label, column_value};
use crate::errors::ConfigError;

verus! {

/// Paths of the two remote endpoints used in a run.
pub struct ApiUrls {
    pub get_fields: String,
    pub post_many: String,
}

/// Credentials for the remote API.
pub struct Credentials {
    pub api_token: String,
    pub email: String,
    pub subdomain: String,
}

/// Worksheet selection: sheet name, first data row (1-based), and the
/// time zone name used for date coercion.
pub struct Worksheet {
    pub name: String,
    pub top_row: usize,
    pub timezone: String,
}

/// The per-field mapping slots for the well-known record attributes,
/// as resolved zero-based column indices. Only the comment is mandatory.
pub struct SystemFields {
    pub comment: usize,
    pub subject: Option<usize>,
    pub status: Option<usize>,
    pub tickettype: Option<usize>,
    pub assignee: Option<usize>,
    pub priority: Option<usize>,
}

/// The whole field mapping: system-field slots plus the custom-field
/// entries, each a remote-field title and a resolved column index, in
/// declaration order.
pub struct TicketFields {
    pub system_fields: SystemFields,
    pub custom_fields: Vec<(String, usize)>,
}

/// The full run configuration, loaded once and immutable for the run.
pub struct Config {
    pub urls: ApiUrls,
    pub credentials: Credentials,
    pub worksheet: Worksheet,
    pub ticket: TicketFields,
}

/// A label that resolves to a machine-representable column index.
pub open spec fn label_resolvable(s: Seq<char>) -> bool {
    is_column_label(s) && column_value(s) - 1 <= usize::MAX
}

/// Resolves the column label of a mandatory field; an empty or invalid
/// label is a configuration error.
pub fn resolve_required_label(label: &str) -> (r: Result<usize, ConfigError>)
    ensures
        match r {
            Ok(i) => label_resolvable(label@) && i == column_value(label@) - 1,
            Err(e) => !label_resolvable(label@) && e == ConfigError::InvalidColumnLabel,
        },
{
    match excel_column_to_index(label) {
        Some(i) => Ok(i),
        None => Err(ConfigError::InvalidColumnLabel),
    }
}

/// Resolves the column label of an optional field; an empty label means
/// "not mapped" and resolves to `None`.
pub fn resolve_optional_label(label: &str) -> (r: Result<Option<usize>, ConfigError>)
    ensures
        match r {
            Ok(Some(i)) => label_resolvable(label@) && i == column_value(label@) - 1,
            Ok(None) => label@.len() == 0,
            Err(e) => label@.len() > 0 && !label_resolvable(label@) && e
                == ConfigError::InvalidColumnLabel,
        },
{
    if label.is_empty() {
        return Ok(None);
    }
    match excel_column_to_index(label) {
        Some(i) => Ok(Some(i)),
        None => Err(ConfigError::InvalidColumnLabel),
    }
}

/// The resolved custom-field entries a list of (title, label) pairs
/// yields: entries with an empty label are skipped, the remaining
/// labels resolve in order, and the first invalid label is the error.
pub open spec fn resolved_customs(pairs: Seq<(String, String)>) -> Result<
    Seq<(String, usize)>,
    ConfigError,
>
    decreases pairs.len(),
{
    if pairs.len() == 0 {
        Ok(Seq::empty())
    } else {
        match resolved_customs(pairs.drop_last()) {
            Err(e) => Err(e),
            Ok(s) => {
                let label = pairs.last().1@;
                if label.len() == 0 {
                    Ok(s)
                } else if label_resolvable(label) {
                    Ok(s.push((pairs.last().0, (column_value(label) - 1) as usize)))
                } else {
                    Err(ConfigError::InvalidColumnLabel)
                }
            },
        }
    }
}

/// An invalid prefix decides the whole resolution.
proof fn lemma_resolved_customs_prefix_err(pairs: Seq<(String, String)>, k: int)
    requires
        0 <= k <= pairs.len(),
        resolved_customs(pairs.take(k)) is Err,
    ensures
        resolved_customs(pairs) == resolved_customs(pairs.take(k)),
    decreases pairs.len(),
{
    if k == pairs.len() {
        assert(pairs.take(k) =~= pairs);
    } else {
        assert(pairs.drop_last().take(k) =~= pairs.take(k));
        lemma_resolved_customs_prefix_err(pairs.drop_last(), k);
    }
}

/// Validates and resolves the custom-field mapping entries, keeping
/// their declaration order.
pub fn resolve_custom_labels(pairs: &Vec<(String, String)>) -> (r: Result<
    Vec<(String, usize)>,
    ConfigError,
>)
    ensures
        match r {
            Ok(v) => resolved_customs(pairs@) == Ok::<_, ConfigError>(v@),
            Err(e) => resolved_customs(pairs@) == Err::<Seq<(String, usize)>, _>(e),
        },
{
    let mut out: Vec<(String, usize)> = Vec::new();
    let mut i: usize = 0;
    while i < pairs.len()
        invariant
            i <= pairs@.len(),
            resolved_customs(pairs@.take(i as int)) == Ok::<_, ConfigError>(out@),
        decreases pairs@.len() - i,
    {
        proof {
            assert(pairs@.take(i + 1).drop_last() =~= pairs@.take(i as int));
            assert(pairs@.take(i + 1).last() == pairs@[i as int]);
        }
        let label: &String = &pairs[i].1;
        if !label.as_str().is_empty() {
            match excel_column_to_index(label.as_str()) {
                Some(idx) => {
                    out.push((pairs[i].0.clone(), idx));
                },
                None => {
                    proof {
                        lemma_resolved_customs_prefix_err(pairs@, i + 1);
                    }
                    return Err(ConfigError::InvalidColumnLabel);
                },
            }
        }
        i += 1;
    }
    proof {
        assert(pairs@.take(pairs@.len() as int) =~= pairs@);
    }
    Ok(out)
}

} // verus!
