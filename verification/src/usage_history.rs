//! The daily usage journal: one record per day, kept sorted by date, at most
//! the most recent thirty days.
use vstd::prelude::*;
use vstd::string::StrSliceExecFns;

verus! {

/// How many days of usage the journal keeps.
pub const MAX_HISTORY_DAYS: usize = 30;

/// One day of usage, as the front end reports it.
#[derive(Debug)]
pub struct UsageHistoryEntry {
    /// The day, written `YYYY-MM-DD`.
    pub date: String,
    pub total_quota: i32,
    pub total_used: i32,
    pub account_count: i32,
}

/// The usage journal as it is stored on disk.
#[derive(Debug)]
pub struct UsageHistory {
    pub entries: Vec<UsageHistoryEntry>,
}

impl Default for UsageHistory {
    fn default() -> (h: Self)
        ensures
            h.entries@ == Seq::<UsageHistoryEntry>::empty(),
    {
        UsageHistory { entries: Vec::new() }
    }
}

// ------------------------------------------------------------------
// The order of dates
// ------------------------------------------------------------------

/// `a <= b` in the order of `String`: lexicographic by character, which for
/// UTF-8 text is the lexicographic order of its bytes.
pub open spec fn date_le(a: Seq<char>, b: Seq<char>) -> bool
    decreases a.len(),
{
    if a.len() == 0 {
        true
    } else if b.len() == 0 {
        false
    } else if (a[0] as int) < (b[0] as int) {
        true
    } else if (a[0] as int) > (b[0] as int) {
        false
    } else {
        date_le(a.drop_first(), b.drop_first())
    }
}

pub proof fn lemma_date_le_reflexive(a: Seq<char>)
    ensures
        date_le(a, a),
    decreases a.len(),
{
    if a.len() > 0 {
        lemma_date_le_reflexive(a.drop_first());
    }
}

pub proof fn lemma_date_le_total(a: Seq<char>, b: Seq<char>)
    ensures
        date_le(a, b) || date_le(b, a),
    decreases a.len(),
{
    if a.len() > 0 && b.len() > 0 && a[0] == b[0] {
        lemma_date_le_total(a.drop_first(), b.drop_first());
    }
}

pub proof fn lemma_date_le_transitive(a: Seq<char>, b: Seq<char>, c: Seq<char>)
    requires
        date_le(a, b),
        date_le(b, c),
    ensures
        date_le(a, c),
    decreases a.len(),
{
    if a.len() > 0 && b.len() > 0 && c.len() > 0 && a[0] == b[0] && b[0] == c[0] {
        lemma_date_le_transitive(a.drop_first(), b.drop_first(), c.drop_first());
    }
}

pub proof fn lemma_date_le_antisymmetric(a: Seq<char>, b: Seq<char>)
    requires
        date_le(a, b),
        date_le(b, a),
    ensures
        a == b,
    decreases a.len(),
{
    if a.len() > 0 && b.len() > 0 {
        assert(a[0] == b[0]);
        lemma_date_le_antisymmetric(a.drop_first(), b.drop_first());
        assert(a =~= seq![a[0]] + a.drop_first());
        assert(b =~= seq![b[0]] + b.drop_first());
    } else {
        assert(a =~= b);
    }
}

proof fn lemma_date_le_common_prefix(a: Seq<char>, b: Seq<char>, i: int)
    requires
        0 <= i <= a.len(),
        i <= b.len(),
        a.take(i) =~= b.take(i),
    ensures
        date_le(a, b) == date_le(a.skip(i), b.skip(i)),
    decreases i,
{
    if i > 0 {
        assert(a[0] == a.take(i)[0]);
        assert(b[0] == b.take(i)[0]);
        assert(a.drop_first().take(i - 1) =~= b.drop_first().take(i - 1)) by {
            assert forall|k: int| 0 <= k < i - 1 implies a.drop_first()[k] == b.drop_first()[k] by {
                assert(a.take(i)[k + 1] == b.take(i)[k + 1]);
            }
        }
        lemma_date_le_common_prefix(a.drop_first(), b.drop_first(), i - 1);
        assert(a.drop_first().skip(i - 1) =~= a.skip(i));
        assert(b.drop_first().skip(i - 1) =~= b.skip(i));
    } else {
        assert(a.skip(0) =~= a);
        assert(b.skip(0) =~= b);
    }
}

/// Whether date `a` comes no later than date `b` (`a <= b` on `String`).
pub fn date_le_exec(a: &str, b: &str) -> (r: bool)
    ensures
        r == date_le(a@, b@),
{
    let la = a.unicode_len();
    let lb = b.unicode_len();
    let mut i: usize = 0;
    while i < la && i < lb && a.get_char(i) == b.get_char(i)
        invariant
            la == a@.len(),
            lb == b@.len(),
            i <= la,
            i <= lb,
            a@.take(i as int) =~= b@.take(i as int),
        decreases la - i,
    {
        proof {
            assert(a@.take(i + 1) =~= a@.take(i as int).push(a@[i as int]));
            assert(b@.take(i + 1) =~= b@.take(i as int).push(b@[i as int]));
        }
        i = i + 1;
    }
    proof {
        lemma_date_le_common_prefix(a@, b@, i as int);
    }
    if i == la {
        true
    } else if i == lb {
        false
    } else {
        let ca = a.get_char(i);
        let cb = b.get_char(i);
        proof {
            assert(a@.skip(i as int)[0] == ca);
            assert(b@.skip(i as int)[0] == cb);
        }
        (ca as u32) < (cb as u32)
    }
}

// ------------------------------------------------------------------
// Sorting by date
// ------------------------------------------------------------------

pub open spec fn entry_le(x: UsageHistoryEntry, y: UsageHistoryEntry) -> bool {
    date_le(x.date@, y.date@)
}

/// Every record comes no later than the records after it.
pub open spec fn sorted_by_date(s: Seq<UsageHistoryEntry>) -> bool {
    forall|i: int, j: int| 0 <= i < j < s.len() ==> entry_le(#[trigger] s[i], #[trigger] s[j])
}

/// `x` placed into `s` right after the last record that comes no later than
/// it: into a sorted `s`, after every record of the same or an earlier date.
pub open spec fn insert_by_date(s: Seq<UsageHistoryEntry>, x: UsageHistoryEntry) -> Seq<
    UsageHistoryEntry,
>
    decreases s.len(),
{
    if s.len() == 0 {
        seq![x]
    } else if entry_le(s.last(), x) {
        s.push(x)
    } else {
        insert_by_date(s.drop_last(), x).push(s.last())
    }
}

/// `s` sorted by date, records of the same date in their order in `s`
/// (the stable sort that `sort_by` on the dates performs).
pub open spec fn sort_by_date(s: Seq<UsageHistoryEntry>) -> Seq<UsageHistoryEntry>
    decreases s.len(),
{
    if s.len() == 0 {
        s
    } else {
        insert_by_date(sort_by_date(s.drop_last()), s.last())
    }
}

/// The records of `s` whose date is `d`, in their order in `s`.
pub open spec fn on_date(s: Seq<UsageHistoryEntry>, d: Seq<char>) -> Seq<UsageHistoryEntry>
    decreases s.len(),
{
    if s.len() == 0 {
        Seq::empty()
    } else if s.last().date@ == d {
        on_date(s.drop_last(), d).push(s.last())
    } else {
        on_date(s.drop_last(), d)
    }
}

pub proof fn lemma_insert_by_date_len(s: Seq<UsageHistoryEntry>, x: UsageHistoryEntry)
    ensures
        insert_by_date(s, x).len() == s.len() + 1,
    decreases s.len(),
{
    if s.len() > 0 && !entry_le(s.last(), x) {
        lemma_insert_by_date_len(s.drop_last(), x);
    }
}

pub proof fn lemma_sort_by_date_len(s: Seq<UsageHistoryEntry>)
    ensures
        sort_by_date(s).len() == s.len(),
    decreases s.len(),
{
    if s.len() > 0 {
        lemma_sort_by_date_len(s.drop_last());
        lemma_insert_by_date_len(sort_by_date(s.drop_last()), s.last());
    }
}

/// If `x` and every record of `s` come no later than `b`, so does every
/// record of `insert_by_date(s, x)`.
proof fn lemma_insert_by_date_bounded(
    s: Seq<UsageHistoryEntry>,
    x: UsageHistoryEntry,
    b: UsageHistoryEntry,
)
    requires
        forall|i: int| 0 <= i < s.len() ==> entry_le(#[trigger] s[i], b),
        entry_le(x, b),
    ensures
        forall|i: int|
            0 <= i < insert_by_date(s, x).len() ==> entry_le(#[trigger] insert_by_date(s, x)[i], b),
    decreases s.len(),
{
    lemma_insert_by_date_len(s, x);
    if s.len() > 0 && !entry_le(s.last(), x) {
        lemma_insert_by_date_bounded(s.drop_last(), x, b);
        let r = insert_by_date(s.drop_last(), x);
        assert forall|i: int| 0 <= i < r.push(s.last()).len() implies entry_le(
            #[trigger] r.push(s.last())[i],
            b,
        ) by {
            if i < r.len() {
                assert(r.push(s.last())[i] == r[i]);
            }
        }
    }
}

pub proof fn lemma_insert_by_date_sorted(s: Seq<UsageHistoryEntry>, x: UsageHistoryEntry)
    requires
        sorted_by_date(s),
    ensures
        sorted_by_date(insert_by_date(s, x)),
    decreases s.len(),
{
    lemma_insert_by_date_len(s, x);
    if s.len() == 0 {
    } else if entry_le(s.last(), x) {
        let r = s.push(x);
        assert forall|i: int, j: int| 0 <= i < j < r.len() implies entry_le(
            #[trigger] r[i],
            #[trigger] r[j],
        ) by {
            if j == s.len() {
                if i < s.len() - 1 {
                    assert(entry_le(s[i], s[s.len() - 1]));
                    lemma_date_le_transitive(s[i].date@, s.last().date@, x.date@);
                }
            } else {
                assert(r[i] == s[i] && r[j] == s[j]);
            }
        }
    } else {
        let t = s.drop_last();
        let l = s.last();
        assert(sorted_by_date(t)) by {
            assert forall|i: int, j: int| 0 <= i < j < t.len() implies entry_le(
                #[trigger] t[i],
                #[trigger] t[j],
            ) by {
                assert(t[i] == s[i] && t[j] == s[j]);
            }
        }
        lemma_insert_by_date_sorted(t, x);
        lemma_date_le_total(l.date@, x.date@);
        assert forall|i: int| 0 <= i < t.len() implies entry_le(#[trigger] t[i], l) by {
            assert(t[i] == s[i]);
        }
        lemma_insert_by_date_bounded(t, x, l);
        let r = insert_by_date(t, x);
        let q = r.push(l);
        assert forall|i: int, j: int| 0 <= i < j < q.len() implies entry_le(
            #[trigger] q[i],
            #[trigger] q[j],
        ) by {
            if j == r.len() {
                assert(q[i] == r[i]);
            } else {
                assert(q[i] == r[i] && q[j] == r[j]);
            }
        }
    }
}

/// The result of `sort_by_date` is sorted.
pub proof fn lemma_sort_by_date_sorted(s: Seq<UsageHistoryEntry>)
    ensures
        sorted_by_date(sort_by_date(s)),
    decreases s.len(),
{
    if s.len() > 0 {
        lemma_sort_by_date_sorted(s.drop_last());
        lemma_insert_by_date_sorted(sort_by_date(s.drop_last()), s.last());
    }
}

proof fn lemma_on_date_insert(s: Seq<UsageHistoryEntry>, x: UsageHistoryEntry, d: Seq<char>)
    ensures
        on_date(insert_by_date(s, x), d) == if x.date@ == d {
            on_date(s, d).push(x)
        } else {
            on_date(s, d)
        },
    decreases s.len(),
{
    if s.len() == 0 {
        assert(insert_by_date(s, x).drop_last() =~= s);
    } else if entry_le(s.last(), x) {
        assert(s.push(x).drop_last() =~= s);
    } else {
        let t = s.drop_last();
        let l = s.last();
        lemma_on_date_insert(t, x, d);
        let r = insert_by_date(t, x);
        assert(r.push(l).drop_last() =~= r);
        if x.date@ == d && l.date@ == d {
            lemma_date_le_reflexive(d);
        }
    }
}

/// Sorting keeps, for each date, the records of that date in their order.
pub proof fn lemma_on_date_sort(s: Seq<UsageHistoryEntry>, d: Seq<char>)
    ensures
        on_date(sort_by_date(s), d) == on_date(s, d),
    decreases s.len(),
{
    if s.len() > 0 {
        lemma_on_date_sort(s.drop_last(), d);
        lemma_on_date_insert(sort_by_date(s.drop_last()), s.last(), d);
    }
}

/// Places `x` into the sorted vector `v` after every record of the same or an
/// earlier date.
fn insert_entry_by_date(v: &mut Vec<UsageHistoryEntry>, x: UsageHistoryEntry)
    ensures
        final(v)@ == insert_by_date(old(v)@, x),
{
    let ghost s = v@;
    let mut j: usize = v.len();
    proof {
        assert(s.take(s.len() as int) =~= s);
        assert(s.skip(s.len() as int) =~= Seq::<UsageHistoryEntry>::empty());
    }
    while j > 0 && !date_le_exec(v[j - 1].date.as_str(), x.date.as_str())
        invariant
            v@ == s,
            j <= s.len(),
            insert_by_date(s, x) == insert_by_date(s.take(j as int), x) + s.skip(j as int),
        decreases j,
    {
        proof {
            let t = s.take(j as int);
            assert(t.drop_last() =~= s.take(j - 1));
            assert(t.last() == s[j - 1]);
            assert(insert_by_date(s.take(j - 1), x).push(s[j - 1]) + s.skip(j as int)
                =~= insert_by_date(s.take(j - 1), x) + s.skip(j - 1));
        }
        j = j - 1;
    }
    proof {
        let t = s.take(j as int);
        if j == 0 {
            assert(insert_by_date(t, x) =~= seq![x]);
        } else {
            assert(t.last() == s[j - 1]);
            assert(insert_by_date(t, x) == t.push(x));
        }
        assert(t.push(x) + s.skip(j as int) =~= s.insert(j as int, x));
    }
    v.insert(j, x);
}

/// `v` sorted by date, records of the same date kept in their order.
pub fn sort_entries_by_date(v: Vec<UsageHistoryEntry>) -> (r: Vec<UsageHistoryEntry>)
    ensures
        r@ == sort_by_date(v@),
{
    let ghost orig = v@;
    let total = v.len();
    let mut input = v;
    let mut out: Vec<UsageHistoryEntry> = Vec::new();
    let mut k: usize = 0;
    proof {
        assert(orig.take(0) =~= Seq::<UsageHistoryEntry>::empty());
        assert(orig.skip(0) =~= orig);
    }
    while input.len() > 0
        invariant
            k <= orig.len(),
            orig.len() == total,
            input@ == orig.skip(k as int),
            out@ == sort_by_date(orig.take(k as int)),
        decreases input@.len(),
    {
        let x = input.remove(0);
        proof {
            assert(orig.take(k + 1).drop_last() =~= orig.take(k as int));
            assert(orig.take(k + 1).last() == x);
            assert(orig.skip(k as int).remove(0) =~= orig.skip(k + 1));
        }
        insert_entry_by_date(&mut out, x);
        k = k + 1;
    }
    proof {
        assert(orig.take(k as int) =~= orig);
    }
    out
}

// ------------------------------------------------------------------
// Recording one day
// ------------------------------------------------------------------

/// The index of the first record of `s` dated `d`, or -1 when none is.
pub open spec fn date_index(s: Seq<UsageHistoryEntry>, d: Seq<char>) -> int
    decreases s.len(),
{
    if s.len() == 0 {
        -1
    } else if s[0].date@ == d {
        0
    } else {
        let r = date_index(s.drop_first(), d);
        if r < 0 {
            -1
        } else {
            r + 1
        }
    }
}

/// Record `old` with the figures of `e`; `old` keeps its date.
pub open spec fn with_figures(old: UsageHistoryEntry, e: UsageHistoryEntry) -> UsageHistoryEntry {
    UsageHistoryEntry {
        date: old.date,
        total_quota: e.total_quota,
        total_used: e.total_used,
        account_count: e.account_count,
    }
}

/// `s` with `e` recorded: the first record of the same date takes the
/// figures of `e`; when no record has that date, `e` is appended.
pub open spec fn upsert_entry(s: Seq<UsageHistoryEntry>, e: UsageHistoryEntry) -> Seq<
    UsageHistoryEntry,
> {
    let i = date_index(s, e.date@);
    if i >= 0 {
        s.update(i, with_figures(s[i], e))
    } else {
        s.push(e)
    }
}

/// The last `MAX_HISTORY_DAYS` records of `s`.
pub open spec fn keep_recent(s: Seq<UsageHistoryEntry>) -> Seq<UsageHistoryEntry> {
    if s.len() > MAX_HISTORY_DAYS {
        s.skip(s.len() - MAX_HISTORY_DAYS)
    } else {
        s
    }
}

/// The journal `s` after recording `e`: recorded, sorted by date, trimmed to
/// the most recent days.
pub open spec fn merged_history(s: Seq<UsageHistoryEntry>, e: UsageHistoryEntry) -> Seq<
    UsageHistoryEntry,
> {
    keep_recent(sort_by_date(upsert_entry(s, e)))
}

/// No two records share a date.
pub open spec fn dates_unique(s: Seq<UsageHistoryEntry>) -> bool {
    forall|i: int, j: int| 0 <= i < j < s.len() ==> (#[trigger] s[i]).date@ != (#[trigger] s[j]).date@
}

pub proof fn lemma_date_index(s: Seq<UsageHistoryEntry>, d: Seq<char>)
    ensures
        -1 <= date_index(s, d) < s.len(),
        date_index(s, d) >= 0 ==> s[date_index(s, d)].date@ == d,
        forall|j: int| 0 <= j < s.len() && (date_index(s, d) < 0 || j < date_index(s, d))
            ==> (#[trigger] s[j]).date@ != d,
    decreases s.len(),
{
    if s.len() > 0 && s[0].date@ != d {
        lemma_date_index(s.drop_first(), d);
        assert forall|j: int| 0 <= j < s.len() && (date_index(s, d) < 0 || j < date_index(s, d))
            implies (#[trigger] s[j]).date@ != d by {
            if j > 0 {
                assert(s[j] == s.drop_first()[j - 1]);
            }
        }
    }
}

/// Records `entry` in `history`: a record of the same date takes its figures,
/// else it is appended; the records are then sorted by date and only the most
/// recent `MAX_HISTORY_DAYS` are kept.
pub fn merge_usage_history_entry(history: &mut UsageHistory, entry: UsageHistoryEntry)
    ensures
        final(history).entries@ == merged_history(old(history).entries@, entry),
{
    let ghost s = history.entries@;
    let n = history.entries.len();
    let mut i: usize = 0;
    while i < n && !(history.entries[i].date == entry.date)
        invariant
            history.entries@ == s,
            n == s.len(),
            i <= n,
            forall|j: int| 0 <= j < i ==> (#[trigger] s[j]).date@ != entry.date@,
        decreases n - i,
    {
        i = i + 1;
    }
    proof {
        lemma_date_index(s, entry.date@);
        if i < n {
            if date_index(s, entry.date@) < i {
                let k = date_index(s, entry.date@);
                if k >= 0 {
                    assert(s[k].date@ != entry.date@);
                }
            }
        }
    }
    if i < n {
        let mut existing = history.entries.remove(i);
        existing.total_quota = entry.total_quota;
        existing.total_used = entry.total_used;
        existing.account_count = entry.account_count;
        history.entries.insert(i, existing);
        proof {
            assert(date_index(s, entry.date@) == i);
            assert(history.entries@ =~= s.update(i as int, with_figures(s[i as int], entry)));
        }
    } else {
        history.entries.push(entry);
    }
    let mut entries: Vec<UsageHistoryEntry> = Vec::new();
    std::mem::swap(&mut entries, &mut history.entries);
    let mut sorted = sort_entries_by_date(entries);
    proof {
        lemma_sort_by_date_len(upsert_entry(s, entry));
    }
    let len = sorted.len();
    if len > MAX_HISTORY_DAYS {
        let kept = sorted.split_off(len - MAX_HISTORY_DAYS);
        history.entries = kept;
    } else {
        history.entries = sorted;
    }
}

/// The journal to store after recording `entry` into what was loaded; a
/// journal that could not be loaded counts as empty.
pub fn history_with_entry(loaded: Result<UsageHistory, String>, entry: UsageHistoryEntry) -> (h:
    UsageHistory)
    ensures
        h.entries@ == merged_history(
            match loaded {
                Ok(l) => l.entries@,
                Err(_) => Seq::empty(),
            },
            entry,
        ),
{
    let mut history = match loaded {
        Ok(l) => l,
        Err(_) => UsageHistory::default(),
    };
    merge_usage_history_entry(&mut history, entry);
    history
}

// ------------------------------------------------------------------
// Laws of the journal
// ------------------------------------------------------------------

proof fn lemma_on_date_contains(s: Seq<UsageHistoryEntry>, d: Seq<char>, x: UsageHistoryEntry)
    ensures
        on_date(s, d).contains(x) <==> (s.contains(x) && x.date@ == d),
    decreases s.len(),
{
    if s.len() > 0 {
        let t = s.drop_last();
        let l = s.last();
        lemma_on_date_contains(t, d, x);
        let o = on_date(t, d);
        if s.contains(x) && x.date@ == d {
            let i = choose|i: int| 0 <= i < s.len() && s[i] == x;
            if i < s.len() - 1 {
                assert(t[i] == x);
                assert(t.contains(x));
                if l.date@ == d {
                    let k = choose|k: int| 0 <= k < o.len() && o[k] == x;
                    assert(o.push(l)[k] == x);
                }
            } else {
                assert(o.push(l)[o.len() as int] == x);
            }
        }
        if on_date(s, d).contains(x) {
            let k = choose|k: int| 0 <= k < on_date(s, d).len() && on_date(s, d)[k] == x;
            if l.date@ == d && k == o.len() {
                assert(s[s.len() - 1] == x);
            } else {
                if l.date@ == d {
                    assert(o[k] == x);
                }
                assert(o.contains(x));
                let i = choose|i: int| 0 <= i < t.len() && t[i] == x;
                assert(s[i] == x);
            }
        }
    }
}

proof fn lemma_unique_on_date_len(s: Seq<UsageHistoryEntry>, d: Seq<char>)
    requires
        dates_unique(s),
    ensures
        on_date(s, d).len() <= 1,
    decreases s.len(),
{
    if s.len() > 0 {
        let t = s.drop_last();
        let l = s.last();
        assert(dates_unique(t)) by {
            assert forall|i: int, j: int| 0 <= i < j < t.len() implies (#[trigger] t[i]).date@
                != (#[trigger] t[j]).date@ by {
                assert(t[i] == s[i] && t[j] == s[j]);
            }
        }
        lemma_unique_on_date_len(t, d);
        if l.date@ == d && on_date(t, d).len() > 0 {
            let x = on_date(t, d)[0];
            assert(on_date(t, d).contains(x));
            lemma_on_date_contains(t, d, x);
            let i = choose|i: int| 0 <= i < t.len() && t[i] == x;
            assert(s[i] == x);
            assert(s[i].date@ != s[s.len() - 1].date@);
        }
    }
}

proof fn lemma_on_date_len_unique(s: Seq<UsageHistoryEntry>)
    requires
        forall|d: Seq<char>| (#[trigger] on_date(s, d)).len() <= 1,
    ensures
        dates_unique(s),
    decreases s.len(),
{
    if s.len() > 0 {
        let t = s.drop_last();
        let l = s.last();
        assert forall|d: Seq<char>| (#[trigger] on_date(t, d)).len() <= 1 by {
            assert(on_date(s, d).len() <= 1);
        }
        lemma_on_date_len_unique(t);
        assert forall|i: int, j: int| 0 <= i < j < s.len() implies (#[trigger] s[i]).date@
            != (#[trigger] s[j]).date@ by {
            if j < s.len() - 1 {
                assert(t[i] == s[i] && t[j] == s[j]);
            } else if s[i].date@ == l.date@ {
                let d = l.date@;
                assert(t[i] == s[i]);
                assert(t.contains(s[i]));
                lemma_on_date_contains(t, d, s[i]);
                assert(on_date(t, d).len() > 0);
                assert(on_date(s, d).len() <= 1);
            }
        }
    }
}

proof fn lemma_sort_keeps_unique(s: Seq<UsageHistoryEntry>)
    requires
        dates_unique(s),
    ensures
        dates_unique(sort_by_date(s)),
{
    assert forall|d: Seq<char>| (#[trigger] on_date(sort_by_date(s), d)).len() <= 1 by {
        lemma_on_date_sort(s, d);
        lemma_unique_on_date_len(s, d);
    }
    lemma_on_date_len_unique(sort_by_date(s));
}

proof fn lemma_sort_contains(s: Seq<UsageHistoryEntry>, x: UsageHistoryEntry)
    requires
        s.contains(x),
    ensures
        sort_by_date(s).contains(x),
{
    lemma_on_date_contains(s, x.date@, x);
    lemma_on_date_sort(s, x.date@);
    lemma_on_date_contains(sort_by_date(s), x.date@, x);
}

proof fn lemma_upsert_facts(s: Seq<UsageHistoryEntry>, e: UsageHistoryEntry)
    ensures
        dates_unique(s) ==> dates_unique(upsert_entry(s, e)),
        upsert_entry(s, e).len() == if date_index(s, e.date@) >= 0 {
            s.len()
        } else {
            s.len() + 1
        },
        exists|i: int|
            0 <= i < upsert_entry(s, e).len() && #[trigger] upsert_entry(s, e)[i] == with_figures(
                upsert_entry(s, e)[i],
                e,
            ) && upsert_entry(s, e)[i].date@ == e.date@,
{
    lemma_date_index(s, e.date@);
    let u = upsert_entry(s, e);
    let k = date_index(s, e.date@);
    if k >= 0 {
        assert(u[k] == with_figures(u[k], e));
    } else {
        assert(u[s.len() as int] == e);
        assert(u[s.len() as int] == with_figures(u[s.len() as int], e));
    }
    if dates_unique(s) {
        assert forall|i: int, j: int| 0 <= i < j < u.len() implies (#[trigger] u[i]).date@
            != (#[trigger] u[j]).date@ by {
            if k < 0 && j == s.len() {
                assert(u[i] == s[i]);
            } else if k >= 0 {
                assert(u[i].date@ == s[i].date@);
                assert(u[j].date@ == s[j].date@);
            } else {
                assert(u[i] == s[i] && u[j] == s[j]);
            }
        }
    }
}

/// After recording an entry the journal is sorted by date.
pub proof fn law_merged_history_sorted(s: Seq<UsageHistoryEntry>, e: UsageHistoryEntry)
    ensures
        sorted_by_date(merged_history(s, e)),
{
    let t = sort_by_date(upsert_entry(s, e));
    lemma_sort_by_date_sorted(upsert_entry(s, e));
    let m = merged_history(s, e);
    if t.len() > MAX_HISTORY_DAYS {
        let c = t.len() - MAX_HISTORY_DAYS;
        assert forall|i: int, j: int| 0 <= i < j < m.len() implies entry_le(
            #[trigger] m[i],
            #[trigger] m[j],
        ) by {
            assert(m[i] == t[i + c] && m[j] == t[j + c]);
        }
    }
}

/// After recording an entry the journal holds at most `MAX_HISTORY_DAYS`
/// records: all of them when there are no more.
pub proof fn law_merged_history_bounded(s: Seq<UsageHistoryEntry>, e: UsageHistoryEntry)
    ensures
        merged_history(s, e).len() <= MAX_HISTORY_DAYS,
        upsert_entry(s, e).len() <= MAX_HISTORY_DAYS ==> merged_history(s, e).len()
            == upsert_entry(s, e).len(),
        s.len() >= MAX_HISTORY_DAYS ==> merged_history(s, e).len() == MAX_HISTORY_DAYS,
{
    lemma_sort_by_date_len(upsert_entry(s, e));
    lemma_upsert_facts(s, e);
}

/// Recording a day into a journal of fewer than `MAX_HISTORY_DAYS` records
/// leaves a record of that date with the entry's figures.
pub proof fn law_merged_history_records_entry(s: Seq<UsageHistoryEntry>, e: UsageHistoryEntry)
    requires
        s.len() < MAX_HISTORY_DAYS,
    ensures
        exists|i: int|
            0 <= i < merged_history(s, e).len() && (#[trigger] merged_history(s, e)[i]).date@
                == e.date@ && merged_history(s, e)[i].total_quota == e.total_quota
                && merged_history(s, e)[i].total_used == e.total_used && merged_history(s, e)[
                i].account_count == e.account_count,
{
    let u = upsert_entry(s, e);
    lemma_upsert_facts(s, e);
    lemma_sort_by_date_len(u);
    let i = choose|i: int| 0 <= i < u.len() && #[trigger] u[i] == with_figures(u[i], e) && u[i].date@ == e.date@;
    let x = u[i];
    assert(u.contains(x));
    lemma_sort_contains(u, x);
    let m = merged_history(s, e);
    assert(m == sort_by_date(u));
    let k = choose|k: int| 0 <= k < m.len() && m[k] == x;
    assert(m[k].date@ == e.date@);
}

/// Recording keeps every date at most once in the journal.
pub proof fn law_merged_history_dates_unique(s: Seq<UsageHistoryEntry>, e: UsageHistoryEntry)
    requires
        dates_unique(s),
    ensures
        dates_unique(merged_history(s, e)),
{
    lemma_upsert_facts(s, e);
    lemma_sort_keeps_unique(upsert_entry(s, e));
    let t = sort_by_date(upsert_entry(s, e));
    let m = merged_history(s, e);
    if t.len() > MAX_HISTORY_DAYS {
        let c = t.len() - MAX_HISTORY_DAYS;
        assert forall|i: int, j: int| 0 <= i < j < m.len() implies (#[trigger] m[i]).date@
            != (#[trigger] m[j]).date@ by {
            assert(m[i] == t[i + c] && m[j] == t[j + c]);
        }
    }
}

proof fn lemma_sort_of_sorted(s: Seq<UsageHistoryEntry>)
    requires
        sorted_by_date(s),
    ensures
        sort_by_date(s) == s,
    decreases s.len(),
{
    if s.len() > 0 {
        let t = s.drop_last();
        assert(sorted_by_date(t)) by {
            assert forall|i: int, j: int| 0 <= i < j < t.len() implies entry_le(
                #[trigger] t[i],
                #[trigger] t[j],
            ) by {
                assert(t[i] == s[i] && t[j] == s[j]);
            }
        }
        lemma_sort_of_sorted(t);
        if t.len() > 0 {
            assert(entry_le(s[t.len() - 1], s[s.len() - 1]));
        }
        assert(t.push(s.last()) =~= s);
    }
}

proof fn lemma_insert_at_front(s: Seq<UsageHistoryEntry>, x: UsageHistoryEntry)
    requires
        forall|k: int| 0 <= k < s.len() ==> !entry_le(#[trigger] s[k], x),
    ensures
        insert_by_date(s, x) == seq![x] + s,
    decreases s.len(),
{
    if s.len() == 0 {
        assert(seq![x] + s =~= seq![x]);
    } else {
        let t = s.drop_last();
        assert(!entry_le(s[s.len() - 1], x));
        assert forall|k: int| 0 <= k < t.len() implies !entry_le(#[trigger] t[k], x) by {
            assert(t[k] == s[k]);
        }
        lemma_insert_at_front(t, x);
        assert((seq![x] + t).push(s.last()) =~= seq![x] + s);
    }
}

/// Recording the same entry a second time changes nothing, for a journal in
/// which no date occurs twice.
pub proof fn law_merge_idempotent(s: Seq<UsageHistoryEntry>, e: UsageHistoryEntry)
    requires
        dates_unique(s),
    ensures
        merged_history(merged_history(s, e), e) == merged_history(s, e),
{
    let d = e.date@;
    let u = upsert_entry(s, e);
    let t = sort_by_date(u);
    let m = merged_history(s, e);
    lemma_upsert_facts(s, e);
    lemma_sort_keeps_unique(u);
    lemma_sort_by_date_sorted(u);
    lemma_sort_by_date_len(u);
    law_merged_history_sorted(s, e);
    law_merged_history_bounded(s, e);
    let i = choose|i: int| 0 <= i < u.len() && #[trigger] u[i] == with_figures(u[i], e) && u[i].date@ == d;
    let x = u[i];
    assert(u.contains(x));
    lemma_sort_contains(u, x);
    let p = choose|p: int| 0 <= p < t.len() && t[p] == x;
    let c: int = if t.len() > MAX_HISTORY_DAYS { t.len() - MAX_HISTORY_DAYS } else { 0 };
    assert(m =~= t.skip(c));
    lemma_date_index(m, d);
    let q = date_index(m, d);
    if q >= 0 {
        assert(m[q] == t[q + c]);
        if p != q + c {
            if p < q + c {
                assert(t[p].date@ != t[q + c].date@);
            } else {
                assert(t[q + c].date@ != t[p].date@);
            }
        }
        assert(m[q] == x);
        assert(upsert_entry(m, e) =~= m);
        lemma_sort_of_sorted(m);
    } else {
        if p >= c {
            assert(m[p - c] == t[p]);
        }
        assert(p < c);
        assert forall|k: int| 0 <= k < m.len() implies !entry_le(#[trigger] m[k], e) by {
            assert(m[k] == t[k + c]);
            assert(entry_le(t[p], t[k + c]));
            assert(t[k + c].date@ != t[p].date@);
            if entry_le(m[k], e) {
                lemma_date_le_antisymmetric(m[k].date@, d);
            }
        }
        assert(upsert_entry(m, e) == m.push(e));
        lemma_sort_of_sorted(m);
        assert(m.push(e).drop_last() =~= m);
        lemma_insert_at_front(m, e);
        assert((seq![e] + m).skip(1) =~= m);
    }
}

} // verus!
