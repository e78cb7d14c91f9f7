//! The certificate reminders on the dashboard: those that expire within a
//! number of days, soonest first.

use vstd::prelude::*;

verus! {

broadcast use vstd::seq_lib::group_to_multiset_ensures;

/// A certificate that expires soon.
#[derive(Debug, Clone)]
pub struct CertReminder {
    pub domain: String,
    pub days_left: i64,
    pub expires_at: String,
}

/// What was learned of one certificate's expiry: its domain and, where the
/// date could be read, the expiry instant as text and the days left.
#[derive(Debug, Clone)]
pub struct CertExpiry {
    pub domain: String,
    pub expiry: Option<(String, i64)>,
}

/// The reminders due among `entries`, in their order: those whose expiry is
/// known and at most `within` days away.
pub open spec fn due_reminders(entries: Seq<CertExpiry>, within: i64) -> Seq<CertReminder>
    decreases entries.len(),
{
    if entries.len() == 0 {
        Seq::empty()
    } else {
        let rest = due_reminders(entries.drop_last(), within);
        let e = entries.last();
        match e.expiry {
            Some((at, days)) => if days <= within {
                rest.push(CertReminder { domain: e.domain, days_left: days, expires_at: at })
            } else {
                rest
            },
            None => rest,
        }
    }
}

/// `t` with `x` placed after every element whose days left are at most
/// those of `x`, counting from the end.
pub open spec fn insert_by_days(t: Seq<CertReminder>, x: CertReminder) -> Seq<CertReminder>
    decreases t.len(),
{
    if t.len() == 0 || t.last().days_left <= x.days_left {
        t.push(x)
    } else {
        insert_by_days(t.drop_last(), x).push(t.last())
    }
}

/// The reminders ordered by days left, equal keys in the order they came in
/// (what a stable `sort_by_key` on `days_left` gives).
pub open spec fn sort_by_days(s: Seq<CertReminder>) -> Seq<CertReminder>
    decreases s.len(),
{
    if s.len() == 0 {
        s
    } else {
        insert_by_days(sort_by_days(s.drop_last()), s.last())
    }
}

/// Whether the reminders are ordered by days left.
pub open spec fn sorted_by_days(s: Seq<CertReminder>) -> bool {
    forall|i: int, j: int| 0 <= i < j < s.len() ==> s[i].days_left <= s[j].days_left
}

/// The test "has exactly `k` days left".
pub open spec fn has_days(k: i64) -> spec_fn(CertReminder) -> bool {
    |r: CertReminder| r.days_left == k
}

proof fn lemma_insert_len_bound(t: Seq<CertReminder>, x: CertReminder, b: int)
    requires
        forall|i: int| 0 <= i < t.len() ==> t[i].days_left <= b,
        x.days_left <= b,
    ensures
        insert_by_days(t, x).len() == t.len() + 1,
        forall|i: int|
            0 <= i < insert_by_days(t, x).len() ==> #[trigger] insert_by_days(t, x)[i].days_left
                <= b,
    decreases t.len(),
{
    if t.len() == 0 || t.last().days_left <= x.days_left {
    } else {
        lemma_insert_len_bound(t.drop_last(), x, b);
    }
}

proof fn lemma_insert_sorted(t: Seq<CertReminder>, x: CertReminder)
    requires
        sorted_by_days(t),
    ensures
        sorted_by_days(insert_by_days(t, x)),
        insert_by_days(t, x).len() == t.len() + 1,
    decreases t.len(),
{
    if t.len() == 0 || t.last().days_left <= x.days_left {
    } else {
        let t2 = t.drop_last();
        assert(sorted_by_days(t2));
        lemma_insert_sorted(t2, x);
        lemma_insert_len_bound(t2, x, t.last().days_left as int);
        let r = insert_by_days(t2, x);
        assert forall|i: int, j: int| 0 <= i < j < r.push(t.last()).len() implies r.push(
            t.last(),
        )[i].days_left <= r.push(t.last())[j].days_left by {
            if j == r.len() {
                assert(r[i].days_left <= t.last().days_left);
            }
        }
    }
}

proof fn lemma_insert_multiset(t: Seq<CertReminder>, x: CertReminder)
    ensures
        insert_by_days(t, x).to_multiset() =~= t.to_multiset().insert(x),
    decreases t.len(),
{
    if t.len() == 0 || t.last().days_left <= x.days_left {
    } else {
        let t2 = t.drop_last();
        lemma_insert_multiset(t2, x);
        assert(t2.push(t.last()) =~= t);
    }
}

proof fn lemma_filter_push(s: Seq<CertReminder>, x: CertReminder, p: spec_fn(CertReminder) -> bool)
    ensures
        s.push(x).filter(p) == (if p(x) {
            s.filter(p).push(x)
        } else {
            s.filter(p)
        }),
{
    reveal(Seq::filter);
    assert(s.push(x).drop_last() =~= s);
}

proof fn lemma_insert_filter(t: Seq<CertReminder>, x: CertReminder, k: i64)
    ensures
        insert_by_days(t, x).filter(has_days(k)) == (if x.days_left == k {
            t.filter(has_days(k)).push(x)
        } else {
            t.filter(has_days(k))
        }),
    decreases t.len(),
{
    let p = has_days(k);
    if t.len() == 0 || t.last().days_left <= x.days_left {
        lemma_filter_push(t, x, p);
    } else {
        let t2 = t.drop_last();
        lemma_insert_filter(t2, x, k);
        lemma_filter_push(insert_by_days(t2, x), t.last(), p);
        lemma_filter_push(t2, t.last(), p);
        assert(t2.push(t.last()) =~= t);
    }
}

/// Law: the reminders come out ordered by days left.
pub proof fn lemma_sort_by_days_sorted(s: Seq<CertReminder>)
    ensures
        sorted_by_days(sort_by_days(s)),
        sort_by_days(s).len() == s.len(),
    decreases s.len(),
{
    if s.len() > 0 {
        lemma_sort_by_days_sorted(s.drop_last());
        lemma_insert_sorted(sort_by_days(s.drop_last()), s.last());
    }
}

/// Law: ordering the reminders keeps each of them, and adds none.
pub proof fn lemma_sort_by_days_permutes(s: Seq<CertReminder>)
    ensures
        sort_by_days(s).to_multiset() =~= s.to_multiset(),
    decreases s.len(),
{
    if s.len() > 0 {
        lemma_sort_by_days_permutes(s.drop_last());
        lemma_insert_multiset(sort_by_days(s.drop_last()), s.last());
        assert(s.drop_last().push(s.last()) =~= s);
    }
}

/// Law: reminders with the same days left keep the order they came in.
pub proof fn lemma_sort_by_days_stable(s: Seq<CertReminder>, k: i64)
    ensures
        sort_by_days(s).filter(has_days(k)) == s.filter(has_days(k)),
    decreases s.len(),
{
    if s.len() > 0 {
        lemma_sort_by_days_stable(s.drop_last(), k);
        lemma_insert_filter(sort_by_days(s.drop_last()), s.last(), k);
        lemma_filter_push(s.drop_last(), s.last(), has_days(k));
        assert(s.drop_last().push(s.last()) =~= s);
    }
}

proof fn lemma_insert_at(t: Seq<CertReminder>, x: CertReminder, j: int)
    requires
        0 <= j <= t.len(),
        forall|k: int| j <= k < t.len() ==> #[trigger] t[k].days_left > x.days_left,
        j == 0 || t[j - 1].days_left <= x.days_left,
    ensures
        insert_by_days(t, x) == t.insert(j, x),
    decreases t.len() - j,
{
    if j == t.len() {
        assert(t.push(x) =~= t.insert(j, x));
    } else {
        let t2 = t.drop_last();
        lemma_insert_at(t2, x, j);
        assert(t2.insert(j, x).push(t.last()) =~= t.insert(j, x));
    }
}

/// Orders reminders by days left, keeping the order of equal keys.
pub fn sort_reminders(v: Vec<CertReminder>) -> (r: Vec<CertReminder>)
    ensures
        r@ == sort_by_days(v@),
{
    let ghost orig = v@;
    let mut v = v;
    assert(orig.len() == v.len());
    let mut out: Vec<CertReminder> = Vec::new();
    let mut k: usize = 0;
    while v.len() > 0
        invariant
            k + v@.len() == orig.len(),
            orig.len() <= usize::MAX,
            v@ == orig.subrange(k as int, orig.len() as int),
            out@ == sort_by_days(orig.subrange(0, k as int)),
        decreases v@.len(),
    {
        let x = v.remove(0);
        let mut j: usize = out.len();
        while j > 0 && out[j - 1].days_left > x.days_left
            invariant
                j <= out@.len(),
                forall|m: int| j <= m < out@.len() ==> #[trigger] out@[m].days_left > x.days_left,
            decreases j,
        {
            j = j - 1;
        }
        proof {
            lemma_insert_at(out@, x, j as int);
            assert(orig.subrange(0, k + 1).drop_last() =~= orig.subrange(0, k as int));
            assert(orig.subrange(0, k + 1).last() == x);
        }
        out.insert(j, x);
        k = k + 1;
        assert(v@ =~= orig.subrange(k as int, orig.len() as int));
    }
    assert(orig.subrange(0, k as int) =~= orig);
    out
}

/// How many days ahead the dashboard warns of expiring certificates.
pub const DASHBOARD_WINDOW_DAYS: i64 = 30;

/// The reminders due among `entries`: those at most `within` days from
/// expiry, ordered by days left, equal keys in the order of `entries`.
pub fn collect_reminders(entries: &Vec<CertExpiry>, within: i64) -> (r: Vec<CertReminder>)
    ensures
        r@ == sort_by_days(due_reminders(entries@, within)),
{
    let mut due: Vec<CertReminder> = Vec::new();
    let mut i: usize = 0;
    while i < entries.len()
        invariant
            i <= entries@.len(),
            due@ == due_reminders(entries@.subrange(0, i as int), within),
        decreases entries@.len() - i,
    {
        let e = &entries[i];
        proof {
            assert(entries@.subrange(0, i + 1).drop_last() =~= entries@.subrange(0, i as int));
            assert(entries@.subrange(0, i + 1).last() == entries@[i as int]);
        }
        match &e.expiry {
            Some((at, days)) => {
                if *days <= within {
                    due.push(
                        CertReminder {
                            domain: e.domain.clone(),
                            days_left: *days,
                            expires_at: at.clone(),
                        },
                    );
                }
            },
            None => {},
        }
        i = i + 1;
    }
    assert(entries@.subrange(0, i as int) =~= entries@);
    sort_reminders(due)
}

/// The test "its expiry is known and at most `within` days away".
pub open spec fn due_within(within: i64) -> spec_fn(CertExpiry) -> bool {
    |e: CertExpiry|
        match e.expiry {
            Some((_, days)) => days <= within,
            None => false,
        }
}

/// The reminder for a certificate whose expiry is known.
pub open spec fn reminder_for() -> spec_fn(CertExpiry) -> CertReminder {
    |e: CertExpiry|
        CertReminder {
            domain: e.domain,
            days_left: e.expiry.unwrap().1,
            expires_at: e.expiry.unwrap().0,
        }
}

proof fn lemma_expiry_filter_push(s: Seq<CertExpiry>, x: CertExpiry, p: spec_fn(CertExpiry) -> bool)
    ensures
        s.push(x).filter(p) == (if p(x) {
            s.filter(p).push(x)
        } else {
            s.filter(p)
        }),
{
    reveal(Seq::filter);
    assert(s.push(x).drop_last() =~= s);
}

proof fn lemma_due_as_filter(entries: Seq<CertExpiry>, within: i64)
    ensures
        due_reminders(entries, within) == entries.filter(due_within(within)).map_values(
            reminder_for(),
        ),
    decreases entries.len(),
{
    if entries.len() > 0 {
        let rest = entries.drop_last();
        let e = entries.last();
        lemma_due_as_filter(rest, within);
        lemma_expiry_filter_push(rest, e, due_within(within));
        assert(rest.push(e) =~= entries);
        let f = rest.filter(due_within(within));
        assert(f.push(e).map_values(reminder_for()) =~= f.map_values(reminder_for()).push(
            reminder_for()(e),
        ));
    }
}

/// Law: the collected reminders are every certificate whose expiry is
/// known and at most `within` days away, one reminder each (two
/// certificates of one domain give two), ordered by days left, and
/// reminders with equal days left in the order of the certificates.
pub proof fn lemma_collected_reminders_complete(entries: Seq<CertExpiry>, within: i64, k: i64)
    ensures
        sort_by_days(due_reminders(entries, within)).to_multiset() =~= entries.filter(
            due_within(within),
        ).map_values(reminder_for()).to_multiset(),
        sorted_by_days(sort_by_days(due_reminders(entries, within))),
        sort_by_days(due_reminders(entries, within)).filter(has_days(k)) == entries.filter(
            due_within(within),
        ).map_values(reminder_for()).filter(has_days(k)),
{
    lemma_due_as_filter(entries, within);
    lemma_sort_by_days_permutes(due_reminders(entries, within));
    lemma_sort_by_days_sorted(due_reminders(entries, within));
    lemma_sort_by_days_stable(due_reminders(entries, within), k);
}

/// Law: every reminder that is due has at most `within` days left.
pub proof fn lemma_due_within(entries: Seq<CertExpiry>, within: i64)
    ensures
        forall|i: int|
            0 <= i < due_reminders(entries, within).len() ==> #[trigger] due_reminders(
                entries,
                within,
            )[i].days_left <= within,
    decreases entries.len(),
{
    if entries.len() > 0 {
        lemma_due_within(entries.drop_last(), within);
        let rest = due_reminders(entries.drop_last(), within);
        let r = due_reminders(entries, within);
        assert forall|i: int| 0 <= i < r.len() implies #[trigger] r[i].days_left <= within by {
            if i < rest.len() {
                assert(rest[i].days_left <= within);
            }
        }
    }
}


/// How many reminders have at most `d` days left.
pub open spec fn count_within(rs: Seq<CertReminder>, d: i64) -> nat
    decreases rs.len(),
{
    if rs.len() == 0 {
        0
    } else {
        count_within(rs.drop_last(), d) + if rs.last().days_left <= d {
            1nat
        } else {
            0nat
        }
    }
}

/// The dashboard's counts: reminders with at most 7 days left, with at most
/// 15, and all of them.
pub fn reminder_counts(rs: &Vec<CertReminder>) -> (r: (usize, usize, usize))
    ensures
        r.0 == count_within(rs@, 7),
        r.1 == count_within(rs@, 15),
        r.2 == rs@.len(),
{
    let mut danger: usize = 0;
    let mut warn: usize = 0;
    let mut i: usize = 0;
    while i < rs.len()
        invariant
            i <= rs@.len(),
            danger == count_within(rs@.subrange(0, i as int), 7),
            warn == count_within(rs@.subrange(0, i as int), 15),
            danger <= i,
            warn <= i,
        decreases rs@.len() - i,
    {
        proof {
            assert(rs@.subrange(0, i + 1).drop_last() =~= rs@.subrange(0, i as int));
        }
        if rs[i].days_left <= 7 {
            danger = danger + 1;
        }
        if rs[i].days_left <= 15 {
            warn = warn + 1;
        }
        i = i + 1;
    }
    assert(rs@.subrange(0, i as int) =~= rs@);
    (danger, warn, rs.len())
}

/// The test "has at most `d` days left".
pub open spec fn at_most_days(d: i64) -> spec_fn(CertReminder) -> bool {
    |r: CertReminder| r.days_left <= d
}

/// Law: the count for a window is the number of reminders with at most
/// that many days left, whatever their domains.
pub proof fn lemma_count_within_counts(rs: Seq<CertReminder>, d: i64)
    ensures
        count_within(rs, d) == rs.filter(at_most_days(d)).len(),
    decreases rs.len(),
{
    if rs.len() > 0 {
        lemma_count_within_counts(rs.drop_last(), d);
        lemma_filter_push(rs.drop_last(), rs.last(), at_most_days(d));
        assert(rs.drop_last().push(rs.last()) =~= rs);
    }
}

/// Law: a wider window counts at least as many reminders, and no window
/// counts more than there are.
pub proof fn lemma_count_within_monotone(rs: Seq<CertReminder>, a: i64, b: i64)
    requires
        a <= b,
    ensures
        count_within(rs, a) <= count_within(rs, b),
        count_within(rs, b) <= rs.len(),
    decreases rs.len(),
{
    if rs.len() > 0 {
        lemma_count_within_monotone(rs.drop_last(), a, b);
    }
}

} // verus!
