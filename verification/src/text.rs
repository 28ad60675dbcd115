//! Text that error messages are assembled from.

use vstd::prelude::*;
use vstd::string::{StrSliceExecFns, StringExecFns};

verus! {

/// What `{:?}` prints for a string: the string in double quotes, with escapes.
pub uninterp spec fn debug_str(text: Seq<char>) -> Seq<char>;

/// Prints `text` through std's `Debug` impl of `str`.
///
/// The contract only names the result, [`debug_str`]: std documents neither which characters are
/// escaped nor how, and reserves the right to change its `Debug` formats.
#[verifier::external_body]
pub(crate) fn format_debug(text: &str) -> (r: String)
    ensures
        r@ == debug_str(text@),
{
    format!("{:?}", text)
}

/// Appends `suffix` to `prefix`.
pub(crate) fn join(prefix: &str, suffix: &str) -> (r: String)
    ensures
        r@ == prefix@ + suffix@,
{
    let mut joined = prefix.to_string();
    joined.append(suffix);
    joined
}

/// Prints a one-field variant as a derived `Debug` impl does: `head`, which ends in the variant's
/// name and an opening bracket, then the field, then the closing bracket.
pub(crate) fn join_variant(head: &str, field: &str) -> (r: String)
    ensures
        r@ == head@ + debug_str(field@) + ")"@,
{
    let shown = format_debug(field);
    let opened = join(head, shown.as_str());
    join(opened.as_str(), ")")
}

/// Whether `text` has `part` at `at`.
pub open spec fn occurs_at(part: Seq<char>, text: Seq<char>, at: int) -> bool {
    0 <= at && at + part.len() <= text.len() && text.subrange(at, at + part.len()) == part
}

/// Whether `part` stands anywhere in `text`.
pub open spec fn occurs_in(part: Seq<char>, text: Seq<char>) -> bool {
    exists|at: int| occurs_at(part, text, at)
}

/// Whether `text` has `part` at `at`.
fn found_at(part: &str, text: &str, at: usize) -> (r: bool)
    requires
        at + part@.len() <= text@.len(),
        text@.len() <= usize::MAX,
    ensures
        r == occurs_at(part@, text@, at as int),
{
    let len: usize = part.unicode_len();
    let mut i: usize = 0;
    while i < len
        invariant
            i <= len,
            len == part@.len(),
            at + len <= text@.len() <= usize::MAX,
            forall|j: int| 0 <= j < i ==> part@[j] == text@[at + j],
        decreases len - i,
    {
        if part.get_char(i) != text.get_char(at + i) {
            assert(text@.subrange(at as int, at + len)[i as int] != part@[i as int]);
            return false;
        }
        i = i + 1;
    }
    assert(text@.subrange(at as int, at + len) =~= part@);
    true
}

/// Whether `part` stands anywhere in `text`.
pub(crate) fn contains(part: &str, text: &str) -> (r: bool)
    ensures
        r == occurs_in(part@, text@),
{
    let len: usize = part.unicode_len();
    let total: usize = text.unicode_len();
    let mut at: usize = 0;
    while at <= total && len <= total - at
        invariant
            len == part@.len(),
            total == text@.len(),
            at <= total + 1,
            forall|i: int| 0 <= i < at ==> !occurs_at(part@, text@, i),
        decreases total + 1 - at,
    {
        if found_at(part, text, at) {
            return true;
        }
        if at == total {
            return false;
        }
        at = at + 1;
    }
    false
}

} // verus!
