//! Small operations on text that the protocol code shares.

use vstd::prelude::*;
use vstd::string::StrSliceExecFns;
use vstd::string::StringExecFns;

verus! {

/// The texts of a list of strings.
pub open spec fn texts(list: Seq<String>) -> Seq<Seq<char>> {
    list.map_values(|s: String| s@)
}

/// The texts of a table of strings, row by row.
pub open spec fn rows(table: Seq<Vec<String>>) -> Seq<Seq<Seq<char>>> {
    table.map_values(|row: Vec<String>| texts(row@))
}

/// The position of the first entry of `list` that equals `wanted`.
pub open spec fn first_position(list: Seq<Seq<char>>, wanted: Seq<char>) -> Option<int>
    decreases list.len(),
{
    if list.len() == 0 {
        None
    } else if list[0] == wanted {
        Some(0)
    } else {
        match first_position(list.skip(1), wanted) {
            Some(i) => Some(i + 1),
            None => None,
        }
    }
}

/// `first_position` finds the least position that holds `wanted`, and
/// nothing if no position does.
pub proof fn lemma_first_position(list: Seq<Seq<char>>, wanted: Seq<char>, k: int)
    requires
        0 <= k <= list.len(),
        forall|j: int| 0 <= j < k ==> list[j] != wanted,
        k < list.len() ==> list[k] == wanted,
    ensures
        first_position(list, wanted) == if k < list.len() {
            Some(k)
        } else {
            None
        },
    decreases k,
{
    if k > 0 {
        let rest = list.skip(1);
        assert forall|j: int| 0 <= j < k - 1 implies rest[j] != wanted by {
            assert(rest[j] == list[j + 1]);
        }
        lemma_first_position(rest, wanted, k - 1);
    }
}

/// Whether `needle` occurs in `hay` starting at position `at`.
pub open spec fn occurs_at(hay: Seq<char>, needle: Seq<char>, at: int) -> bool {
    &&& 0 <= at
    &&& at + needle.len() <= hay.len()
    &&& hay.subrange(at, at + needle.len()) == needle
}

/// Whether `needle` occurs somewhere in `hay`.
pub open spec fn contains_text(hay: Seq<char>, needle: Seq<char>) -> bool {
    exists|at: int| occurs_at(hay, needle, at)
}

/// The decimal digit `d` as text.
pub open spec fn digit_text(d: nat) -> Seq<char>
    recommends
        d < 10,
{
    if d == 0 {
        "0"@
    } else if d == 1 {
        "1"@
    } else if d == 2 {
        "2"@
    } else if d == 3 {
        "3"@
    } else if d == 4 {
        "4"@
    } else if d == 5 {
        "5"@
    } else if d == 6 {
        "6"@
    } else if d == 7 {
        "7"@
    } else if d == 8 {
        "8"@
    } else {
        "9"@
    }
}

/// The decimal numeral of `n`, without sign or leading zeros.
pub open spec fn decimal_text(n: nat) -> Seq<char>
    decreases n,
{
    if n < 10 {
        digit_text(n)
    } else {
        decimal_text(n / 10) + digit_text(n % 10)
    }
}

/// Compares two texts character by character.
pub fn same_text(a: &str, b: &str) -> (same: bool)
    ensures
        same == (a@ == b@),
{
    let left = String::from_str(a);
    let right = String::from_str(b);
    left == right
}

/// Tests whether `needle` occurs in `hay` at position `at`.
fn matches_at(hay: &str, needle: &str, at: usize, hay_len: usize, needle_len: usize) -> (found: bool)
    requires
        hay_len == hay@.len(),
        needle_len == needle@.len(),
        at + needle_len <= hay_len,
    ensures
        found == occurs_at(hay@, needle@, at as int),
{
    let mut j: usize = 0;
    while j < needle_len
        invariant
            hay_len == hay@.len(),
            needle_len == needle@.len(),
            at + needle_len <= hay_len,
            j <= needle_len,
            forall|k: int| 0 <= k < j ==> hay@[at + k] == needle@[k],
        decreases needle_len - j,
    {
        if hay.get_char(at + j) != needle.get_char(j) {
            proof {
                let window = hay@.subrange(at as int, at + needle_len);
                assert(window[j as int] == hay@[at + j]);
            }
            return false;
        }
        j += 1;
    }
    proof {
        let window = hay@.subrange(at as int, at + needle_len);
        assert(window =~= needle@);
    }
    true
}

/// Tests whether `needle` occurs in `hay`.
pub fn contains(hay: &str, needle: &str) -> (found: bool)
    ensures
        found == contains_text(hay@, needle@),
{
    let hay_len: usize = hay.unicode_len();
    let needle_len: usize = needle.unicode_len();
    if needle_len > hay_len {
        return false;
    }
    let last: usize = hay_len - needle_len;
    let mut at: usize = 0;
    while at < last
        invariant
            hay_len == hay@.len(),
            needle_len == needle@.len(),
            last == hay_len - needle_len,
            at <= last,
            forall|k: int| 0 <= k < at ==> !occurs_at(hay@, needle@, k),
        decreases last - at,
    {
        if matches_at(hay, needle, at, hay_len, needle_len) {
            return true;
        }
        at += 1;
    }
    matches_at(hay, needle, last, hay_len, needle_len)
}

/// The text of one decimal digit.
fn digit_str(d: u64) -> (text: &'static str)
    requires
        d < 10,
    ensures
        text@ == digit_text(d as nat),
{
    if d == 0 {
        "0"
    } else if d == 1 {
        "1"
    } else if d == 2 {
        "2"
    } else if d == 3 {
        "3"
    } else if d == 4 {
        "4"
    } else if d == 5 {
        "5"
    } else if d == 6 {
        "6"
    } else if d == 7 {
        "7"
    } else if d == 8 {
        "8"
    } else {
        "9"
    }
}

/// Appends the decimal numeral of `n` to `out`.
pub fn push_decimal(out: &mut String, n: u64)
    ensures
        final(out)@ == old(out)@ + decimal_text(n as nat),
    decreases n,
{
    if n >= 10 {
        push_decimal(out, n / 10);
    }
    out.append(digit_str(n % 10));
    proof {
        let a = old(out)@;
        if n >= 10 {
            assert((a + decimal_text((n / 10) as nat)) + digit_text((n % 10) as nat) =~= a + (
            decimal_text((n / 10) as nat) + digit_text((n % 10) as nat)));
        }
    }
}

} // verus!
