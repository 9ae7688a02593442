//! Composite database names of the form `database/policy`.

use vstd::prelude::*;
use vstd::string::*;

verus! {

/// The character that separates a database name from its retention policy.
pub open spec fn is_separator(c: char) -> bool {
    c == '/'
}

/// The position of the first separator of `s` at or after `from`, or the
/// length of `s` when no separator follows.
pub open spec fn segment_end(s: Seq<char>, from: int) -> int
    decreases s.len() - from,
{
    if from < 0 || from >= s.len() {
        s.len() as int
    } else if is_separator(s[from]) {
        from
    } else {
        segment_end(s, from + 1)
    }
}

/// The name of the retention policy of a database that names none.
pub open spec fn default_policy() -> Seq<char> {
    "autogen"@
}

/// The database part of a composite name: everything before its first separator.
pub open spec fn database_part(s: Seq<char>) -> Seq<char> {
    s.subrange(0, segment_end(s, 0))
}

/// The policy part of a composite name: everything after its first separator,
/// and the default policy when it has no separator.
pub open spec fn policy_part(s: Seq<char>) -> Seq<char> {
    let first = segment_end(s, 0);
    if first >= s.len() {
        default_policy()
    } else {
        s.subrange(first + 1, s.len() as int)
    }
}

/// `segment_end` is the least position at or after `from` that holds a separator.
pub proof fn lemma_segment_end(s: Seq<char>, from: int)
    requires
        0 <= from <= s.len(),
    ensures
        from <= segment_end(s, from) <= s.len(),
        segment_end(s, from) < s.len() ==> is_separator(s[segment_end(s, from)]),
        forall|j: int| from <= j < segment_end(s, from) ==> !is_separator(#[trigger] s[j]),
    decreases s.len() - from,
{
    if from < s.len() && !is_separator(s[from]) {
        lemma_segment_end(s, from + 1);
    }
}

/// A name without a separator is its own database part and has the default policy.
pub proof fn lemma_split_plain(s: Seq<char>)
    requires
        forall|j: int| 0 <= j < s.len() ==> !is_separator(#[trigger] s[j]),
    ensures
        database_part(s) == s,
        policy_part(s) == default_policy(),
{
    lemma_segment_end(s, 0);
    assert(database_part(s) =~= s);
}

/// Joining a database that holds no separator to a policy by a separator, and
/// splitting the result, gives the two parts back.
pub proof fn lemma_split_joined(db: Seq<char>, policy: Seq<char>)
    requires
        forall|j: int| 0 <= j < db.len() ==> !is_separator(#[trigger] db[j]),
    ensures
        database_part(db + seq!['/'] + policy) == db,
        policy_part(db + seq!['/'] + policy) == policy,
{
    let s = db + seq!['/'] + policy;
    let n = db.len() as int;
    lemma_segment_end(s, 0);
    assert(s[n] == '/');
    assert forall|j: int| 0 <= j < n implies !is_separator(#[trigger] s[j]) by {
        assert(s[j] == db[j]);
    }
    let first = segment_end(s, 0);
    assert(first == n) by {
        if first < n {
            assert(is_separator(s[first]));
        }
    }
    assert(database_part(s) =~= db);
    assert(policy_part(s) =~= policy);
}

/// The position of the first separator of `s` at or after `from`.
fn find_separator(s: &str, from: usize, len: usize) -> (end: usize)
    requires
        len == s@.len(),
        from <= len,
    ensures
        end == segment_end(s@, from as int),
        from <= end <= len,
{
    let mut i: usize = from;
    while i < len
        invariant
            len == s@.len(),
            from <= i <= len,
            segment_end(s@, from as int) == segment_end(s@, i as int),
        decreases len - i,
    {
        if s.get_char(i) == '/' {
            return i;
        }
        i = i + 1;
    }
    i
}

/// Splits a composite name into its database and its retention policy.
///
/// The database is what precedes the first `/`, the policy what follows it. A
/// name without `/` has the policy `autogen`.
pub fn split_database_name(db_name: &str) -> (res: (String, String))
    ensures
        res.0@ == database_part(db_name@),
        res.1@ == policy_part(db_name@),
{
    let len = db_name.unicode_len();
    let first = find_separator(db_name, 0, len);
    let database = db_name.substring_char(0, first).to_owned();
    if first < len {
        let policy = db_name.substring_char(first + 1, len).to_owned();
        (database, policy)
    } else {
        (database, "autogen".to_owned())
    }
}

} // verus!
