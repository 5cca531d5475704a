//! Resolution of spreadsheet column labels ("A", "Z", "AA", ...) to
//! zero-based column indices.

use vstd::prelude::*;
use vstd::string::StrSliceExecFns;

verus! {

/// An ASCII letter, upper or lower case.
pub open spec fn is_ascii_letter(c: char) -> bool {
    (65 <= c as u32 && c as u32 <= 90) || (97 <= c as u32 && c as u32 <= 122)
}

/// The base-26 digit value of a letter: 'A' and 'a' are 1, 'Z' and 'z' are 26.
pub open spec fn letter_value(c: char) -> int {
    if c as u32 <= 90 {
        c as u32 - 64
    } else {
        c as u32 - 96
    }
}

/// The value of a label read as a base-26 numeral with digits 1..26,
/// most significant letter first.
pub open spec fn column_value(s: Seq<char>) -> int
    decreases s.len(),
{
    if s.len() == 0 {
        0
    } else {
        column_value(s.drop_last()) * 26 + letter_value(s.last())
    }
}

/// A well-formed column label: non-empty and purely ASCII-alphabetic.
pub open spec fn is_column_label(s: Seq<char>) -> bool {
    s.len() > 0 && (forall|i: int| 0 <= i < s.len() ==> is_ascii_letter(#[trigger] s[i]))
}

/// A non-empty all-letter label has value at least 1.
pub proof fn lemma_column_value_pos(s: Seq<char>)
    requires
        forall|i: int| 0 <= i < s.len() ==> is_ascii_letter(#[trigger] s[i]),
    ensures
        column_value(s) >= 0,
        s.len() > 0 ==> column_value(s) >= 1,
    decreases s.len(),
{
    if s.len() > 0 {
        lemma_column_value_pos(s.drop_last());
        assert(is_ascii_letter(s[s.len() - 1]));
    }
}

/// The value of a label only grows as letters are appended.
pub proof fn lemma_column_value_prefix_le(s: Seq<char>, i: int)
    requires
        forall|j: int| 0 <= j < s.len() ==> is_ascii_letter(#[trigger] s[j]),
        0 <= i <= s.len(),
    ensures
        column_value(s.take(i)) <= column_value(s),
    decreases s.len(),
{
    if i == s.len() {
        assert(s.take(i) =~= s);
    } else {
        assert(s.drop_last().take(i) =~= s.take(i));
        lemma_column_value_prefix_le(s.drop_last(), i);
        lemma_column_value_pos(s.drop_last());
        assert(is_ascii_letter(s[s.len() - 1]));
    }
}

/// Translates a column label to a zero-based column index: "A" is 0,
/// "Z" is 25, "AA" is 26. Case-insensitive. Returns `None` when the label
/// is empty, contains a character that is not an ASCII letter, or names a
/// column beyond the machine's index range.
pub fn excel_column_to_index(col_name: &str) -> (r: Option<usize>)
    ensures
        r is Some <==> is_column_label(col_name@) && column_value(col_name@) - 1 <= usize::MAX,
        r matches Some(idx) ==> idx == column_value(col_name@) - 1,
{
    let n = col_name.unicode_len();
    if n == 0 {
        return None;
    }
    let mut acc: u128 = 0;
    let mut i: usize = 0;
    while i < n
        invariant
            n == col_name@.len(),
            0 < n,
            i <= n,
            forall|j: int| 0 <= j < i ==> is_ascii_letter(#[trigger] col_name@[j]),
            acc == column_value(col_name@.take(i as int)),
            acc <= usize::MAX as u128 + 1,
        decreases n - i,
    {
        let c = col_name.get_char(i);
        let u: u32 = c as u32;
        let lv: u128;
        if 65 <= u && u <= 90 {
            lv = (u - 64) as u128;
        } else if 97 <= u && u <= 122 {
            lv = (u - 96) as u128;
        } else {
            return None;
        }
        let next: u128 = acc * 26 + lv;
        proof {
            assert(col_name@.take(i + 1).drop_last() =~= col_name@.take(i as int));
            assert(col_name@.take(i + 1).last() == col_name@[i as int]);
        }
        if next > usize::MAX as u128 + 1 {
            proof {
                if is_column_label(col_name@) {
                    lemma_column_value_prefix_le(col_name@, i + 1);
                }
            }
            return None;
        }
        acc = next;
        i += 1;
    }
    proof {
        assert(col_name@.take(n as int) =~= col_name@);
        lemma_column_value_pos(col_name@);
    }
    Some((acc - 1) as usize)
}

} // verus!
