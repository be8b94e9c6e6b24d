//! Short random identifiers for sessions, connections and messages, and the
//! wall clock.

use vstd::prelude::*;
use vstd::string::StrSliceExecFns;
use vstd::string::StringExecFns;

verus! {

/// A lower-case hexadecimal digit.
pub open spec fn is_lower_hex(c: char) -> bool {
    ('0' <= c && c <= '9') || ('a' <= c && c <= 'f')
}

/// The textual shape of a hyphenated UUID: 36 characters, hyphens at the
/// four group boundaries and lower-case hexadecimal digits elsewhere.
pub open spec fn is_hyphenated_uuid(s: Seq<char>) -> bool {
    &&& s.len() == 36
    &&& forall|i: int|
        0 <= i < 36 ==> if i == 8 || i == 13 || i == 18 || i == 23 {
            #[trigger] s[i] == '-'
        } else {
            is_lower_hex(#[trigger] s[i])
        }
}

/// The shape of a short identifier: eight lower-case hexadecimal digits.
pub open spec fn is_short_id(s: Seq<char>) -> bool {
    &&& s.len() == 8
    &&& forall|i: int| 0 <= i < 8 ==> is_lower_hex(#[trigger] s[i])
}

/// The position of the first hyphen in `s`, or its length if it has none.
pub open spec fn first_hyphen(s: Seq<char>) -> int
    decreases s.len(),
{
    if s.len() == 0 || s[0] == '-' {
        0
    } else {
        1 + first_hyphen(s.skip(1))
    }
}

/// The part of `s` before its first hyphen; all of `s` if it has none.
pub open spec fn leading_segment_of(s: Seq<char>) -> Seq<char> {
    s.take(first_hyphen(s))
}

/// `first_hyphen` is the least index holding a hyphen.
pub proof fn lemma_first_hyphen(s: Seq<char>, k: int)
    requires
        0 <= k <= s.len(),
        forall|j: int| 0 <= j < k ==> s[j] != '-',
        k == s.len() || s[k] == '-',
    ensures
        first_hyphen(s) == k,
    decreases k,
{
    if k > 0 {
        let t = s.skip(1);
        assert forall|j: int| 0 <= j < k - 1 implies t[j] != '-' by {
            assert(t[j] == s[j + 1]);
        }
        lemma_first_hyphen(t, k - 1);
    }
}

/// Calls `uuid::Uuid::new_v4` and renders the identifier with its `Display`
/// impl. The value is random; the contract claims only the hyphenated
/// lower-case layout that the renderer always writes.
#[verifier::external_body]
fn random_uuid_text() -> (text: String)
    ensures
        is_hyphenated_uuid(text@),
{
    uuid::Uuid::new_v4().to_string()
}

/// Reads `std::time::SystemTime::now` as milliseconds since the Unix epoch
/// (zero for a clock set before it). Nothing is claimed of the value.
#[verifier::external_body]
pub fn get_timestamp() -> (millis: u64) {
    match std::time::SystemTime::now().duration_since(std::time::UNIX_EPOCH) {
        Ok(since_epoch) => since_epoch.as_millis() as u64,
        Err(_) => 0,
    }
}

/// Copies the part of `text` that precedes its first hyphen.
pub fn leading_segment(text: &str) -> (segment: String)
    ensures
        segment@ == leading_segment_of(text@),
{
    let n: usize = text.unicode_len();
    let mut k: usize = 0;
    while k < n && text.get_char(k) != '-'
        invariant
            n == text@.len(),
            k <= n,
            forall|j: int| 0 <= j < k ==> text@[j] != '-',
        decreases n - k,
    {
        k += 1;
    }
    proof {
        lemma_first_hyphen(text@, k as int);
    }
    String::from_str(text.substring_char(0, k))
}

/// A fresh short identifier: the first group of a random UUID.
pub fn short_id() -> (id: String)
    ensures
        is_short_id(id@),
{
    let text = random_uuid_text();
    let id = leading_segment(text.as_str());
    proof {
        lemma_first_hyphen(text@, 8);
    }
    id
}

} // verus!
