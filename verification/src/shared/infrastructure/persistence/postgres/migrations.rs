//! Which migration files still have to run, in which order, and how a run is recorded. The
//! directory listing, file reads and SQL execution happen around these rules.

use crate::text::{
    chars_of, double_char, doubled, lemma_text_order_total, seq_ends_with, str_equal,
    text_le, text_less_equal, text_order, texts, ends_with,
};
use vstd::prelude::*;
use vstd::relations::{sorted_by, total_ordering};
use vstd::string::*;

verus! {

/// A file name whose extension is `sql`: it ends with `.sql` and has a stem before it.
pub open spec fn is_sql_file(name: Seq<char>) -> bool {
    name.len() > 4 && seq_ends_with(name, ".sql"@)
}

/// The name, when it is a migration file.
pub open spec fn sql_file(name: Seq<char>) -> Option<Seq<char>> {
    if is_sql_file(name) {
        Some(name)
    } else {
        None
    }
}

/// The version, when it has not been applied yet.
pub open spec fn unapplied(applied: Seq<Seq<char>>, version: Seq<char>) -> Option<Seq<char>> {
    if applied.contains(version) {
        None
    } else {
        Some(version)
    }
}

/// The migration files among the names, in the order given.
pub open spec fn sql_files(names: Seq<Seq<char>>) -> Seq<Seq<char>> {
    names.filter_map(|n: Seq<char>| sql_file(n))
}

/// The versions of `s` that have not been applied, in the order of `s`.
pub open spec fn unapplied_versions(s: Seq<Seq<char>>, applied: Seq<Seq<char>>) -> Seq<Seq<char>> {
    s.filter_map(|v: Seq<char>| unapplied(applied, v))
}

/// The migrations still to run: the `.sql` files, in name order, without the applied ones.
pub open spec fn pending_versions(names: Seq<Seq<char>>, applied: Seq<Seq<char>>) -> Seq<
    Seq<char>,
> {
    unapplied_versions(sql_files(names).sort_by(text_order()), applied)
}

/// Whether the file name is that of a migration.
pub fn is_sql_file_name(name: &str) -> (b: bool)
    ensures
        b == is_sql_file(name@),
{
    name.unicode_len() > 4 && ends_with(name, ".sql")
}

/// Whether `version` is among the applied versions.
pub fn is_applied(applied: &Vec<String>, version: &str) -> (b: bool)
    ensures
        b == texts(applied@).contains(version@),
{
    let mut i: usize = 0;
    while i < applied.len()
        invariant
            i <= applied.len(),
            forall|j: int| 0 <= j < i ==> #[trigger] texts(applied@)[j] != version@,
        decreases applied.len() - i,
    {
        if str_equal(applied[i].as_str(), version) {
            assert(texts(applied@)[i as int] == version@);
            return true;
        }
        i = i + 1;
    }
    false
}

/// Inserting an element before the first one that is not below it keeps a sequence sorted.
pub proof fn lemma_insert_sorted(s: Seq<Seq<char>>, p: int, x: Seq<char>)
    requires
        sorted_by(s, text_order()),
        0 <= p <= s.len(),
        forall|j: int| 0 <= j < p ==> text_le(#[trigger] s[j], x),
        p == s.len() || !text_le(s[p], x),
    ensures
        sorted_by(s.insert(p, x), text_order()),
{
    lemma_text_order_total();
    let t = s.insert(p, x);
    if p < s.len() {
        crate::text::lemma_text_le_total(s[p], x);
    }
    assert forall|a: int, b: int| 0 <= a < b < t.len() implies #[trigger] text_order()(
        t[a],
        t[b],
    ) by {
        if b < p {
            assert(text_order()(s[a], s[b]));
        } else if b == p {
            assert(text_le(s[a], x));
        } else if a < p {
            assert(text_le(s[a], x));
            assert(text_order()(s[p], s[b - 1]) || p == b - 1);
            crate::text::lemma_text_le_reflexive(s[p]);
            crate::text::lemma_text_le_transitive(x, s[p], s[b - 1]);
            crate::text::lemma_text_le_transitive(s[a], x, s[b - 1]);
        } else if a == p {
            crate::text::lemma_text_le_reflexive(s[p]);
            assert(text_order()(s[p], s[b - 1]) || p == b - 1);
            crate::text::lemma_text_le_transitive(x, s[p], s[b - 1]);
        } else {
            assert(text_order()(s[a - 1], s[b - 1]));
        }
    }
}

/// The migration files, sorted by name.
pub fn sorted_sql_files(file_names: &Vec<String>) -> (sorted: Vec<String>)
    ensures
        texts(sorted@) == sql_files(texts(file_names@)).sort_by(text_order()),
{
    let ghost names = texts(file_names@);
    let mut sql: Vec<String> = Vec::new();
    let mut i: usize = 0;
    assert(names.subrange(0, 0) =~= Seq::<Seq<char>>::empty());
    while i < file_names.len()
        invariant
            i <= file_names.len(),
            names == texts(file_names@),
            texts(sql@) == names.subrange(0, i as int).filter_map(|n: Seq<char>| sql_file(n)),
        decreases file_names.len() - i,
    {
        let ghost sub = names.subrange(0, i + 1);
        assert(sub.drop_last() =~= names.subrange(0, i as int));
        assert(sub.last() == file_names@[i as int]@);
        if is_sql_file_name(file_names[i].as_str()) {
            sql.push(file_names[i].clone());
        }
        assert(texts(sql@) =~= sub.filter_map(|n: Seq<char>| sql_file(n)));
        i = i + 1;
    }
    assert(names.subrange(0, file_names.len() as int) =~= names);
    let ghost sqlv = texts(sql@);
    let mut sorted: Vec<String> = Vec::new();
    let mut k: usize = 0;
    proof {
        lemma_text_order_total();
        assert(sqlv.subrange(0, 0) =~= Seq::<Seq<char>>::empty());
        assert(texts(sorted@) =~= Seq::<Seq<char>>::empty());
    }
    while k < sql.len()
        invariant
            k <= sql.len(),
            sqlv == texts(sql@),
            total_ordering(text_order()),
            sorted_by(texts(sorted@), text_order()),
            texts(sorted@).to_multiset() == sqlv.subrange(0, k as int).to_multiset(),
        decreases sql.len() - k,
    {
        let x = chars_of(sql[k].as_str());
        let mut p: usize = 0;
        while p < sorted.len() && text_less_equal(&chars_of(sorted[p].as_str()), &x)
            invariant
                p <= sorted.len(),
                x@ == sqlv[k as int],
                forall|j: int| 0 <= j < p ==> text_le(#[trigger] texts(sorted@)[j], x@),
            decreases sorted.len() - p,
        {
            p = p + 1;
        }
        let ghost before = texts(sorted@);
        proof {
            lemma_insert_sorted(before, p as int, x@);
            vstd::seq_lib::to_multiset_insert(before, p as int, x@);
            vstd::seq_lib::to_multiset_build(sqlv.subrange(0, k as int), sqlv[k as int]);
            assert(sqlv.subrange(0, k + 1) =~= sqlv.subrange(0, k as int).push(sqlv[k as int]));
        }
        sorted.insert(p, sql[k].clone());
        assert(texts(sorted@) =~= before.insert(p as int, x@));
        k = k + 1;
    }
    proof {
        assert(sqlv.subrange(0, sql.len() as int) =~= sqlv);
        sqlv.lemma_sort_by_ensures(text_order());
        vstd::seq_lib::lemma_sorted_unique(texts(sorted@), sqlv.sort_by(text_order()), text_order());
    }
    sorted
}

/// The migration files still to run, in the order they run.
pub fn pending_migrations(file_names: &Vec<String>, applied_versions: &Vec<String>) -> (pending:
    Vec<String>)
    ensures
        texts(pending@) == pending_versions(texts(file_names@), texts(applied_versions@)),
{
    let sorted = sorted_sql_files(file_names);
    let ghost sv = texts(sorted@);
    let ghost av = texts(applied_versions@);
    let mut out: Vec<String> = Vec::new();
    let mut i: usize = 0;
    assert(sv.subrange(0, 0) =~= Seq::<Seq<char>>::empty());
    while i < sorted.len()
        invariant
            i <= sorted.len(),
            sv == texts(sorted@),
            av == texts(applied_versions@),
            texts(out@) == sv.subrange(0, i as int).filter_map(|v: Seq<char>| unapplied(av, v)),
        decreases sorted.len() - i,
    {
        let ghost sub = sv.subrange(0, i + 1);
        assert(sub.drop_last() =~= sv.subrange(0, i as int));
        assert(sub.last() == sorted@[i as int]@);
        if !is_applied(applied_versions, sorted[i].as_str()) {
            out.push(sorted[i].clone());
        }
        assert(texts(out@) =~= sub.filter_map(|v: Seq<char>| unapplied(av, v)));
        i = i + 1;
    }
    assert(sv.subrange(0, sorted.len() as int) =~= sv);
    out
}

/// Dropping the applied versions from a sorted list keeps it sorted, and keeps only versions
/// of the list that have not been applied.
pub proof fn lemma_unapplied_in_order(s: Seq<Seq<char>>, applied: Seq<Seq<char>>)
    requires
        sorted_by(s, text_order()),
    ensures
        sorted_by(unapplied_versions(s, applied), text_order()),
        forall|i: int|
            0 <= i < unapplied_versions(s, applied).len() ==> {
                let x = #[trigger] unapplied_versions(s, applied)[i];
                s.contains(x) && !applied.contains(x)
            },
    decreases s.len(),
{
    if s.len() > 0 {
        let rest = s.drop_last();
        assert(sorted_by(rest, text_order())) by {
            assert forall|i: int, j: int| 0 <= i < j < rest.len() implies #[trigger] text_order()(
                rest[i],
                rest[j],
            ) by {
                assert(text_order()(s[i], s[j]));
            }
        }
        lemma_unapplied_in_order(rest, applied);
        let r = unapplied_versions(rest, applied);
        assert forall|i: int| 0 <= i < r.len() implies rest.contains(#[trigger] r[i]) && !applied.contains(
            r[i],
        ) by {
            assert(r.contains(r[i]));
        }
        assert forall|i: int| 0 <= i < r.len() implies text_le(#[trigger] r[i], s.last()) by {
            assert(rest.contains(r[i]));
            let k = choose|k: int| 0 <= k < rest.len() && rest[k] == r[i];
            assert(text_order()(s[k], s[s.len() - 1]));
        }
        let out = unapplied_versions(s, applied);
        assert forall|i: int| 0 <= i < out.len() implies s.contains(#[trigger] out[i]) && !applied.contains(
            out[i],
        ) by {
            if i < r.len() {
                assert(out[i] == r[i]);
                assert(rest.contains(r[i]));
                let k = choose|k: int| 0 <= k < rest.len() && rest[k] == r[i];
                assert(s[k] == r[i]);
            } else {
                assert(out[i] == s.last());
                assert(s[s.len() - 1] == s.last());
            }
        }
        assert forall|i: int, j: int| 0 <= i < j < out.len() implies #[trigger] text_order()(
            out[i],
            out[j],
        ) by {
            if j < r.len() {
                assert(out[i] == r[i] && out[j] == r[j]);
            } else {
                assert(out[i] == r[i] && out[j] == s.last());
            }
        }
    }
}

/// The migrations still to run come in name order; each is a `.sql` file among the given
/// names and none of them has been applied; and every `.sql` file not yet applied is among
/// them.
pub proof fn lemma_pending_versions(names: Seq<Seq<char>>, applied: Seq<Seq<char>>)
    ensures
        sorted_by(pending_versions(names, applied), text_order()),
        forall|i: int|
            0 <= i < pending_versions(names, applied).len() ==> {
                let x = #[trigger] pending_versions(names, applied)[i];
                is_sql_file(x) && names.contains(x) && !applied.contains(x)
            },
        forall|n: Seq<char>|
            #[trigger] names.contains(n) && is_sql_file(n) && !applied.contains(n)
                ==> pending_versions(names, applied).contains(n),
{
    broadcast use vstd::seq_lib::group_to_multiset_ensures;
    lemma_text_order_total();
    let sql = sql_files(names);
    let sorted = sql.sort_by(text_order());
    sql.lemma_sort_by_ensures(text_order());
    lemma_unapplied_in_order(sorted, applied);
    let p = pending_versions(names, applied);
    assert forall|i: int| 0 <= i < p.len() implies is_sql_file(#[trigger] p[i]) && names.contains(p[i])
        && !applied.contains(p[i]) by {
        assert(sorted.contains(p[i]));
        assert(sql.contains(p[i]));
        names.lemma_filter_map_contains(|n: Seq<char>| sql_file(n), p[i]);
    }
    assert forall|n: Seq<char>| #[trigger] names.contains(n) && is_sql_file(n) && !applied.contains(
        n,
    ) implies p.contains(n) by {
        lemma_filter_map_keeps(names, n);
        assert(sql.to_multiset().count(n) > 0);
        assert(sorted.contains(n));
        lemma_unapplied_keeps(sorted, applied, n);
    }
}

/// A `.sql` file among the names is among the migration files.
proof fn lemma_filter_map_keeps(names: Seq<Seq<char>>, n: Seq<char>)
    requires
        names.contains(n),
        is_sql_file(n),
    ensures
        sql_files(names).contains(n),
    decreases names.len(),
{
    let rest = names.drop_last();
    let out = sql_files(names);
    if names.last() == n {
        assert(out.last() == n);
        assert(out[out.len() - 1] == n);
    } else {
        let k = choose|k: int| 0 <= k < names.len() && names[k] == n;
        assert(rest[k] == n);
        lemma_filter_map_keeps(rest, n);
        let r = sql_files(rest);
        let j = choose|j: int| 0 <= j < r.len() && r[j] == n;
        assert(out[j] == n);
    }
}

/// A version of the list that has not been applied stays in it.
proof fn lemma_unapplied_keeps(s: Seq<Seq<char>>, applied: Seq<Seq<char>>, n: Seq<char>)
    requires
        s.contains(n),
        !applied.contains(n),
    ensures
        unapplied_versions(s, applied).contains(n),
    decreases s.len(),
{
    let rest = s.drop_last();
    let out = unapplied_versions(s, applied);
    if s.last() == n {
        assert(out[out.len() - 1] == n);
    } else {
        let k = choose|k: int| 0 <= k < s.len() && s[k] == n;
        assert(rest[k] == n);
        lemma_unapplied_keeps(rest, applied, n);
        let r = unapplied_versions(rest, applied);
        let j = choose|j: int| 0 <= j < r.len() && r[j] == n;
        assert(out[j] == n);
    }
}

/// The statement that records an applied migration; the version is an SQL string literal
/// with its single quotes doubled.
pub fn record_migration_sql(version: &str) -> (s: String)
    ensures
        s@ == "INSERT INTO schema_migrations (version) VALUES ('"@ + doubled(version@, '\'')
            + "')"@,
{
    String::from_str("INSERT INTO schema_migrations (version) VALUES ('").concat(
        double_char(version, '\'').as_str(),
    ).concat("')")
}

} // verus!
