use vstd::prelude::*;
use vstd::string::*;

use crate::json::same_text;

verus! {

/// `prefix` is the leading segment run of `subject`: the subject starts with
/// it, and it is followed by a `.` or by nothing.
pub open spec fn leads_with(subject: Seq<char>, prefix: Seq<char>) -> bool {
    &&& prefix.len() <= subject.len()
    &&& subject.take(prefix.len() as int) == prefix
    &&& (subject.len() == prefix.len() || subject[prefix.len() as int] == '.')
}

/// `subject` with its leading `from` replaced by `to`; unchanged where it does
/// not lead with `from`.
pub open spec fn rewritten(subject: Seq<char>, from: Seq<char>, to: Seq<char>) -> Seq<char> {
    if leads_with(subject, from) {
        to + subject.skip(from.len() as int)
    } else {
        subject
    }
}

/// The wildcard pattern that matches every subject under `prefix`.
pub open spec fn wildcard_under(prefix: Seq<char>) -> Seq<char> {
    prefix + seq!['.', '>']
}

/// Replaces the leading `from` segments of `subject` with `to`. Later
/// occurrences of the same text are left alone.
pub fn rewrite(subject: &str, from: &str, to: &str) -> (r: String)
    ensures
        r@ == rewritten(subject@, from@, to@),
{
    let n = from.unicode_len();
    let m = subject.unicode_len();
    if n <= m && same_text(subject.substring_char(0, n), from) && (n == m || subject.get_char(n)
        == '.') {
        String::from_str(to).concat(subject.substring_char(n, m))
    } else {
        String::from_str(subject)
    }
}

/// The subject pattern `<prefix>.>` that a relay subscribes to.
pub fn subscription_subject(prefix: &str) -> (r: String)
    ensures
        r@ == wildcard_under(prefix@),
{
    proof {
        reveal_strlit(".>");
    }
    String::from_str(prefix).concat(".>")
}

} // verus!
