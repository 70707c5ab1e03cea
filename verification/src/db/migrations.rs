//! Which files of a migrations directory are migrations, and the order in
//! which they are applied (lexical filename order).

use vstd::prelude::*;
use vstd::string::*;
use vstd::multiset::Multiset;
use crate::text::str_eq;

verus! {

/// Lexical order of character sequences, by code point.
pub open spec fn char_seq_lt(a: Seq<char>, b: Seq<char>) -> bool
    decreases a.len(),
{
    if b.len() == 0 {
        false
    } else if a.len() == 0 {
        true
    } else if a[0] != b[0] {
        (a[0] as u32) < (b[0] as u32)
    } else {
        char_seq_lt(a.drop_first(), b.drop_first())
    }
}

/// No name sorts after a later one.
pub open spec fn names_sorted(s: Seq<String>) -> bool {
    forall|i: int, j: int| 0 <= i < j < s.len() ==> !char_seq_lt(#[trigger] s[j]@, #[trigger] s[i]@)
}

/// Whether `a` sorts strictly before `b` (lexical order of code points,
/// which is also the byte order of their UTF-8 encodings).
fn str_lt(a: &str, b: &str) -> (r: bool)
    ensures
        r == char_seq_lt(a@, b@),
{
    let n = a.unicode_len();
    let m = b.unicode_len();
    let mut i: usize = 0;
    assert(a@.skip(0) =~= a@);
    assert(b@.skip(0) =~= b@);
    while i < n && i < m
        invariant
            n == a@.len(),
            m == b@.len(),
            i <= n,
            i <= m,
            char_seq_lt(a@, b@) == char_seq_lt(a@.skip(i as int), b@.skip(i as int)),
        decreases n - i,
    {
        let x = a.get_char(i);
        let y = b.get_char(i);
        assert(a@.skip(i as int)[0] == x);
        assert(b@.skip(i as int)[0] == y);
        if x != y {
            return (x as u32) < (y as u32);
        }
        assert(a@.skip(i as int).drop_first() =~= a@.skip(i as int + 1));
        assert(b@.skip(i as int).drop_first() =~= b@.skip(i as int + 1));
        i = i + 1;
    }
    i >= n && i < m
}

/// The lexical order is irreflexive and transitive.
pub proof fn lemma_char_seq_lt_strict_order(a: Seq<char>, b: Seq<char>, c: Seq<char>)
    ensures
        !char_seq_lt(a, a),
        char_seq_lt(a, b) && char_seq_lt(b, c) ==> char_seq_lt(a, c),
    decreases a.len(),
{
    if a.len() > 0 {
        lemma_char_seq_lt_strict_order(a.drop_first(), a.drop_first(), a.drop_first());
        if b.len() > 0 && c.len() > 0 {
            lemma_char_seq_lt_strict_order(a.drop_first(), b.drop_first(), c.drop_first());
        }
    }
}

/// The lexical order compares at the first differing character, by code
/// point; a proper prefix sorts before the longer sequence; and of two
/// different sequences one sorts before the other.
pub proof fn lemma_char_seq_lt_lexical(a: Seq<char>, b: Seq<char>, i: int)
    ensures
        (0 <= i < a.len() && i < b.len() && a.subrange(0, i) == b.subrange(0, i) && (a[i] as u32) < (
        b[i] as u32)) ==> char_seq_lt(a, b),
        (a.len() < b.len() && a == b.subrange(0, a.len() as int)) ==> char_seq_lt(a, b),
        a != b ==> char_seq_lt(a, b) || char_seq_lt(b, a),
    decreases a.len(),
{
    if a.len() > 0 && b.len() > 0 {
        lemma_char_seq_lt_lexical(a.drop_first(), b.drop_first(), i - 1);
        if 0 <= i < a.len() && i < b.len() && a.subrange(0, i) == b.subrange(0, i) && (a[i] as u32) < (
        b[i] as u32) {
            if i > 0 {
                assert(a[0] == a.subrange(0, i)[0]);
                assert(b[0] == b.subrange(0, i)[0]);
                assert(a.drop_first().subrange(0, i - 1) =~= a.subrange(0, i).drop_first());
                assert(b.drop_first().subrange(0, i - 1) =~= b.subrange(0, i).drop_first());
                assert(a.drop_first()[i - 1] == a[i]);
                assert(b.drop_first()[i - 1] == b[i]);
            }
        }
        if a.len() < b.len() && a == b.subrange(0, a.len() as int) {
            assert(a[0] == b[0]);
            assert(a.drop_first() =~= b.drop_first().subrange(0, a.drop_first().len() as int));
        }
        if a != b && a[0] == b[0] {
            assert(a.drop_first() != b.drop_first()) by {
                if a.drop_first() == b.drop_first() {
                    assert forall|k: int| 0 <= k < a.len() implies a[k] == b[k] by {
                        if k > 0 {
                            assert(a[k] == a.drop_first()[k - 1]);
                            assert(b[k] == b.drop_first()[k - 1]);
                        }
                    }
                    assert(a =~= b);
                }
            }
        }
        if a[0] != b[0] {
            vstd::utf8::char_u32_cast(a[0], a[0] as u32);
            vstd::utf8::char_u32_cast(b[0], b[0] as u32);
            assert((a[0] as u32) != (b[0] as u32));
        }
    } else if a.len() == 0 && b.len() > 0 {
    } else if a.len() > 0 && b.len() == 0 {
    } else {
        assert(a =~= b);
    }
}

/// Sorts file names into lexical order: the result holds the same names,
/// none sorting after a later one.
pub fn sort_file_names(names: Vec<String>) -> (out: Vec<String>)
    ensures
        out@.to_multiset() == names@.to_multiset(),
        names_sorted(out@),
{
    broadcast use vstd::multiset::group_multiset_axioms;
    let mut rest = names;
    let mut out: Vec<String> = Vec::new();
    proof {
        vstd::seq_lib::to_multiset_len(out@);
        vstd::multiset::lemma_multiset_empty_len(out@.to_multiset());
        assert(out@.to_multiset().add(rest@.to_multiset()) =~= rest@.to_multiset());
    }
    while rest.len() > 0
        invariant
            out@.to_multiset().add(rest@.to_multiset()) == names@.to_multiset(),
            names_sorted(out@),
        decreases rest.len(),
    {
        let ghost before = rest@;
        let n = rest.pop().unwrap();
        proof {
            assert(before == rest@.push(n));
        }
        let mut k: usize = 0;
        while k < out.len() && !str_lt(n.as_str(), out[k].as_str())
            invariant
                k <= out.len(),
                forall|j: int| 0 <= j < k ==> !char_seq_lt(n@, #[trigger] out@[j]@),
            decreases out.len() - k,
        {
            k = k + 1;
        }
        let ghost old_out = out@;
        proof {
            if k < old_out.len() {
                assert(char_seq_lt(n@, old_out[k as int]@));
            }
        }
        out.insert(k, n);
        proof {
            assert forall|i: int, j: int| 0 <= i < j < out@.len() implies !char_seq_lt(
                #[trigger] out@[j]@,
                #[trigger] out@[i]@,
            ) by {
                if i < k && j == k {
                } else if i == k as int && j > k {
                    lemma_char_seq_lt_strict_order(old_out[j - 1]@, n@, old_out[k as int]@);
                    if j - 1 > k {
                        assert(!char_seq_lt(old_out[j - 1]@, old_out[k as int]@));
                    } else {
                        lemma_char_seq_lt_strict_order(n@, old_out[k as int]@, n@);
                    }
                } else if i < k && j > k {
                    assert(out@[i] == old_out[i]);
                    assert(out@[j] == old_out[j - 1]);
                } else if i > k {
                    assert(out@[i] == old_out[i - 1]);
                    assert(out@[j] == old_out[j - 1]);
                } else {
                    assert(out@[i] == old_out[i]);
                    assert(out@[j] == old_out[j]);
                }
            }
            vstd::seq_lib::to_multiset_insert(old_out, k as int, n);
            vstd::seq_lib::to_multiset_build(rest@, n);
            assert(out@.to_multiset() == old_out.to_multiset().insert(n));
            assert(before.to_multiset() == rest@.to_multiset().insert(n));
            assert(out@.to_multiset().add(rest@.to_multiset()) =~= names@.to_multiset());
        }
    }
    proof {
        vstd::seq_lib::to_multiset_len(rest@);
        vstd::multiset::lemma_multiset_empty_len(rest@.to_multiset());
        assert(rest@.to_multiset() =~= Multiset::empty());
        assert(out@.to_multiset().add(rest@.to_multiset()) =~= out@.to_multiset());
    }
    out
}

/// Whether a file name has the extension `sql`: it ends with `.sql` after a
/// non-empty stem.
pub open spec fn is_sql_file_name(name: Seq<char>) -> bool {
    name.len() > 4 && name.subrange(name.len() - 4, name.len() as int) == ".sql"@
}

/// Whether the file named `name` is a migration (an `.sql` file).
pub fn is_migration_file(name: &str) -> (b: bool)
    ensures
        b == is_sql_file_name(name@),
        b == ends_in_sql(name@),
{
    proof {
        lemma_sql_file_name(name@);
    }
    let n = name.unicode_len();
    if n <= 4 {
        return false;
    }
    str_eq(name.substring_char(n - 4, n), ".sql")
}

/// Whether a migration named `name` is among the recorded ones.
pub open spec fn is_recorded(applied: Seq<String>, name: Seq<char>) -> bool {
    exists|j: int| 0 <= j < applied.len() && applied[j]@ == name
}

/// The migrations still to apply, in the order of `names`: the migration
/// files that are not recorded as applied.
pub open spec fn pending_names(names: Seq<String>, applied: Seq<String>) -> Seq<String>
    decreases names.len(),
{
    if names.len() == 0 {
        Seq::empty()
    } else {
        let rest = pending_names(names.drop_last(), applied);
        let n = names.last();
        if is_sql_file_name(n@) && !is_recorded(applied, n@) {
            rest.push(n)
        } else {
            rest
        }
    }
}

/// A name with a non-empty stem and the extension `.sql`.
pub open spec fn ends_in_sql(name: Seq<char>) -> bool {
    &&& name.len() > 4
    &&& name[name.len() - 4] == '.'
    &&& name[name.len() - 3] == 's'
    &&& name[name.len() - 2] == 'q'
    &&& name[name.len() - 1] == 'l'
}

/// A migration file name is one that ends in `.`, `s`, `q`, `l` after at
/// least one other character.
pub proof fn lemma_sql_file_name(x: Seq<char>)
    ensures
        is_sql_file_name(x) == ends_in_sql(x),
{
    reveal_strlit(".sql");
    if x.len() > 4 {
        let tail = x.subrange(x.len() - 4, x.len() as int);
        if ends_in_sql(x) {
            assert(tail =~= ".sql"@);
        }
        if tail == ".sql"@ {
            assert(tail[0] == x[x.len() - 4]);
            assert(tail[1] == x[x.len() - 3]);
            assert(tail[2] == x[x.len() - 2]);
            assert(tail[3] == x[x.len() - 1]);
        }
    }
}

/// The pending migrations are exactly the `.sql` files among the names that
/// no recorded migration names: none of them is recorded, each is one of the
/// names and an `.sql` file, and every `.sql` file among the names that is
/// not recorded is pending.
pub proof fn lemma_pending_names(names: Seq<String>, applied: Seq<String>)
    ensures
        ({
            let p = pending_names(names, applied);
            &&& forall|i: int, j: int|
                0 <= i < p.len() && 0 <= j < applied.len() ==> #[trigger] p[i]@ != #[trigger] applied[j]@
            &&& forall|i: int| 0 <= i < p.len() ==> names.contains(#[trigger] p[i]) && ends_in_sql(p[i]@)
            &&& forall|k: int|
                0 <= k < names.len() && ends_in_sql(names[k]@) && (forall|j: int|
                    0 <= j < applied.len() ==> applied[j]@ != names[k]@) ==> p.contains(#[trigger] names[k])
        }),
    decreases names.len(),
{
    reveal_strlit(".sql");
    if names.len() > 0 {
        let prev = names.drop_last();
        lemma_pending_names(prev, applied);
        let rest = pending_names(prev, applied);
        let p = pending_names(names, applied);
        let n = names.last();
        assert forall|x: Seq<char>| #[trigger] is_sql_file_name(x) == ends_in_sql(x) by {
            lemma_sql_file_name(x);
        }
        assert forall|i: int| 0 <= i < rest.len() implies names.contains(#[trigger] rest[i]) by {
            let k = choose|k: int| 0 <= k < prev.len() && prev[k] == rest[i];
            assert(names[k] == prev[k]);
        }
        if is_sql_file_name(n@) && !is_recorded(applied, n@) {
            assert(p == rest.push(n));
            assert(names.contains(n)) by {
                assert(names[names.len() - 1] == n);
            }
            assert forall|k: int|
                0 <= k < names.len() && ends_in_sql(names[k]@) && (forall|j: int|
                    0 <= j < applied.len() ==> applied[j]@ != names[k]@) implies p.contains(#[trigger] names[k]) by {
                if k == names.len() - 1 {
                    assert(p[rest.len() as int] == n);
                } else {
                    assert(names[k] == prev[k]);
                    let i = choose|i: int| 0 <= i < rest.len() && rest[i] == prev[k];
                    assert(p[i] == rest[i]);
                }
            }
        } else {
            assert(p == rest);
            assert forall|k: int|
                0 <= k < names.len() && ends_in_sql(names[k]@) && (forall|j: int|
                    0 <= j < applied.len() ==> applied[j]@ != names[k]@) implies p.contains(#[trigger] names[k]) by {
                if k == names.len() - 1 {
                    assert(is_sql_file_name(n@));
                    assert(!is_recorded(applied, n@));
                } else {
                    assert(names[k] == prev[k]);
                }
            }
        }
    }
}

fn recorded(applied: &Vec<String>, name: &str) -> (b: bool)
    ensures
        b == is_recorded(applied@, name@),
{
    let mut j: usize = 0;
    while j < applied.len()
        invariant
            j <= applied.len(),
            forall|k: int| 0 <= k < j ==> applied@[k]@ != name@,
        decreases applied.len() - j,
    {
        if str_eq(applied[j].as_str(), name) {
            return true;
        }
        j = j + 1;
    }
    false
}

/// The migrations of a directory still to apply: of the file names (already
/// in the order of application), the migration files whose name is not
/// among the recorded ones.
pub fn pending_migrations(names: &Vec<String>, applied: &Vec<String>) -> (out: Vec<String>)
    ensures
        out@ == pending_names(names@, applied@),
        forall|i: int, j: int|
            0 <= i < out@.len() && 0 <= j < applied@.len() ==> #[trigger] out@[i]@ != #[trigger] applied@[j]@,
        forall|i: int| 0 <= i < out@.len() ==> names@.contains(#[trigger] out@[i]) && ends_in_sql(out@[i]@),
        forall|k: int|
            0 <= k < names@.len() && ends_in_sql(names@[k]@) && (forall|j: int|
                0 <= j < applied@.len() ==> applied@[j]@ != names@[k]@) ==> out@.contains(#[trigger] names@[k]),
{
    proof {
        lemma_pending_names(names@, applied@);
    }
    let mut out: Vec<String> = Vec::new();
    let mut i: usize = 0;
    while i < names.len()
        invariant
            i <= names.len(),
            out@ == pending_names(names@.take(i as int), applied@),
        decreases names.len() - i,
    {
        let name = names[i].as_str();
        assert(names@.take(i as int + 1).drop_last() =~= names@.take(i as int));
        if is_migration_file(name) && !recorded(applied, name) {
            out.push(names[i].clone());
        }
        i = i + 1;
    }
    assert(names@.take(i as int) =~= names@);
    out
}

} // verus!
