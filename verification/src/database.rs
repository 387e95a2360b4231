//! Persisted command usage: where the database lives and what a user's
//! usage adds up to.

use vstd::prelude::*;

use crate::config::texts;
use crate::text::{chars_of, opt_text, owned};

verus! {

/// Summary of a user's persisted command usage.
#[derive(Debug, Clone, PartialEq, Eq)]
pub struct CommandUsageSummary {
    /// Total number of recorded command uses.
    pub total_uses: i64,
    /// Number of distinct commands used.
    pub distinct_commands: i64,
    /// Most used command, if any.
    pub favorite_command: Option<String>,
    /// Usage count for the most used command.
    pub favorite_count: i64,
}

/// One user's record for one command.
#[derive(Debug, Clone, PartialEq, Eq)]
pub struct UsageRow {
    /// The command.
    pub command: String,
    /// How often the user ran it.
    pub count: i64,
    /// When the user last ran it, in seconds since the Unix epoch.
    pub last_used: i64,
}

/// Whether text `a` sorts before text `b`, character by character (a prefix first).
pub open spec fn text_less(a: Seq<char>, b: Seq<char>) -> bool
    decreases a.len(),
{
    if a.len() == 0 {
        b.len() > 0
    } else if b.len() == 0 {
        false
    } else if a[0] != b[0] {
        a[0] < b[0]
    } else {
        text_less(a.drop_first(), b.drop_first())
    }
}

/// Whether row `a` ranks no lower than row `b` as a favorite: by count, then
/// by most recent use, then by command name in ascending order.
pub open spec fn ranks_before(a: UsageRow, b: UsageRow) -> bool {
    a.count > b.count || (a.count == b.count && (a.last_used > b.last_used || (a.last_used == b.last_used
        && !text_less(b.command@, a.command@))))
}

/// The sum of the counts of `rows`.
pub open spec fn total_count(rows: Seq<UsageRow>) -> int
    decreases rows.len(),
{
    if rows.len() == 0 {
        0
    } else {
        total_count(rows.drop_last()) + rows.last().count
    }
}

/// Whether `summary` summarizes `rows`: their total count, their number, and
/// the row that ranks first as the favorite (none when there is no row).
pub open spec fn summarizes(summary: CommandUsageSummary, rows: Seq<UsageRow>) -> bool {
    &&& summary.total_uses == total_count(rows)
    &&& summary.distinct_commands == rows.len()
    &&& rows.len() == 0 ==> summary.favorite_command is None && summary.favorite_count == 0
    &&& rows.len() > 0 ==> exists|i: int|
        0 <= i < rows.len() && (forall|j: int| 0 <= j < rows.len() ==> ranks_before(rows[i], #[trigger] rows[j]))
            && (summary.favorite_command matches Some(name) && name@ == rows[i].command@)
            && summary.favorite_count == rows[i].count
}

/// Whether the total count of `rows` fits in an `i64` at every step of the sum.
pub open spec fn sum_fits(rows: Seq<UsageRow>) -> bool
    decreases rows.len(),
{
    if rows.len() == 0 {
        true
    } else {
        sum_fits(rows.drop_last()) && i64::MIN <= total_count(rows) <= i64::MAX
    }
}

/// Compares two texts character by character.
pub fn text_is_less(a: &str, b: &str) -> (less: bool)
    ensures
        less == text_less(a@, b@),
{
    let x = chars_of(a);
    let y = chars_of(b);
    let mut i: usize = 0;
    assert(x@.skip(0) =~= x@);
    assert(y@.skip(0) =~= y@);
    while i < x.len() && i < y.len() && x[i] == y[i]
        invariant
            i <= x.len(),
            i <= y.len(),
            text_less(a@, b@) == text_less(x@.skip(i as int), y@.skip(i as int)),
            x@ == a@,
            y@ == b@,
        decreases x.len() - i,
    {
        assert(x@.skip(i as int).drop_first() =~= x@.skip(i + 1));
        assert(y@.skip(i as int).drop_first() =~= y@.skip(i + 1));
        i = i + 1;
    }
    if i == x.len() {
        i < y.len()
    } else if i == y.len() {
        false
    } else {
        x[i] < y[i]
    }
}


proof fn lemma_text_less_total(a: Seq<char>, b: Seq<char>)
    ensures
        text_less(a, b) || text_less(b, a) || a == b,
    decreases a.len(),
{
    if a.len() > 0 && b.len() > 0 && a[0] == b[0] {
        lemma_text_less_total(a.drop_first(), b.drop_first());
        if a.drop_first() == b.drop_first() {
            assert(a =~= seq![a[0]] + a.drop_first());
            assert(b =~= seq![b[0]] + b.drop_first());
        }
    } else if a.len() == 0 && b.len() == 0 {
        assert(a =~= b);
    }
}

proof fn lemma_text_less_transitive(a: Seq<char>, b: Seq<char>, c: Seq<char>)
    requires
        text_less(a, b),
        text_less(b, c),
    ensures
        text_less(a, c),
    decreases a.len(),
{
    if a.len() > 0 && b.len() > 0 && c.len() > 0 && a[0] == b[0] && b[0] == c[0] {
        lemma_text_less_transitive(a.drop_first(), b.drop_first(), c.drop_first());
    }
}

proof fn lemma_ranks_before_transitive(a: UsageRow, b: UsageRow, c: UsageRow)
    requires
        ranks_before(a, b),
        ranks_before(b, c),
    ensures
        ranks_before(a, c),
{
    if a.count == b.count && b.count == c.count && a.last_used == b.last_used && b.last_used == c.last_used {
        if text_less(c.command@, a.command@) {
            lemma_text_less_total(b.command@, a.command@);
            lemma_text_less_total(c.command@, b.command@);
            if text_less(a.command@, b.command@) {
                lemma_text_less_transitive(c.command@, a.command@, b.command@);
            } else if b.command@ == a.command@ {
            } else {
                lemma_text_less_transitive(c.command@, a.command@, b.command@);
            }
        }
    }
}

proof fn lemma_text_less_asymmetric(a: Seq<char>, b: Seq<char>)
    ensures
        !(text_less(a, b) && text_less(b, a)),
    decreases a.len(),
{
    if a.len() > 0 && b.len() > 0 && a[0] == b[0] {
        lemma_text_less_asymmetric(a.drop_first(), b.drop_first());
    }
}

proof fn lemma_ranks_before_total(a: UsageRow, b: UsageRow)
    ensures
        ranks_before(a, b) || ranks_before(b, a),
{
    lemma_text_less_asymmetric(a.command@, b.command@);
}

/// Adds up a user's rows, as `/stats` reports them: the total count (none
/// when it does not fit an `i64`), the number of rows, and the favorite.
pub fn summarize_usage(rows: &Vec<UsageRow>) -> (summary: Option<CommandUsageSummary>)
    ensures
        summary is Some <==> sum_fits(rows@) && rows.len() <= i64::MAX,
        summary matches Some(s) ==> summarizes(s, rows@),
{
    if rows.len() as u64 > i64::MAX as u64 {
        return None;
    }
    let mut total: i64 = 0;
    let mut best: usize = 0;
    let mut i: usize = 0;
    assert(rows@.take(0) =~= Seq::<UsageRow>::empty());
    while i < rows.len()
        invariant
            i <= rows.len(),
            rows.len() <= i64::MAX,
            sum_fits(rows@.take(i as int)),
            total == total_count(rows@.take(i as int)),
            i > 0 ==> best < i,
            i > 0 ==> forall|j: int| 0 <= j < i ==> ranks_before(rows@[best as int], #[trigger] rows@[j]),
        decreases rows.len() - i,
    {
        let row = &rows[i];
        assert(rows@.take(i + 1).drop_last() =~= rows@.take(i as int));
        match total.checked_add(row.count) {
            None => {
                proof {
                    lemma_sum_fits_prefix(rows@, i + 1);
                }
                return None;
            },
            Some(next) => {
                total = next;
            },
        }
        if i == 0 {
            best = 0;
            proof {
                lemma_ranks_before_total(rows@[0], rows@[0]);
            }
        } else {
            let current = &rows[best];
            let better = row.count > current.count || (row.count == current.count && (row.last_used > current.last_used
                || (row.last_used == current.last_used && text_is_less(row.command.as_str(), current.command.as_str()))));
            proof {
                lemma_ranks_before_total(rows@[best as int], rows@[i as int]);
            }
            if better {
                proof {
                    assert forall|j: int| 0 <= j < i + 1 implies ranks_before(rows@[i as int], #[trigger] rows@[j]) by {
                        if j < i {
                            lemma_ranks_before_transitive(rows@[i as int], rows@[best as int], rows@[j]);
                        } else {
                            lemma_ranks_before_total(rows@[j], rows@[j]);
                        }
                    }
                }
                best = i;
            }
        }
        i = i + 1;
    }
    assert(rows@.take(rows.len() as int) =~= rows@);
    if rows.len() == 0 {
        Some(CommandUsageSummary { total_uses: total, distinct_commands: 0, favorite_command: None, favorite_count: 0 })
    } else {
        let favorite = &rows[best];
        Some(CommandUsageSummary {
            total_uses: total,
            distinct_commands: rows.len() as i64,
            favorite_command: Some(favorite.command.clone()),
            favorite_count: favorite.count,
        })
    }
}

proof fn lemma_sum_fits_prefix(rows: Seq<UsageRow>, k: int)
    requires
        0 <= k <= rows.len(),
        !sum_fits(rows.take(k)),
    ensures
        !sum_fits(rows),
    decreases rows.len(),
{
    if k < rows.len() {
        assert(rows.drop_last().take(k) =~= rows.take(k));
        lemma_sum_fits_prefix(rows.drop_last(), k);
    } else {
        assert(rows.take(k) =~= rows);
    }
}

/// The path components of the database file: `SERIS_DB_FILE` when set,
/// otherwise `seris/seris.sqlite3` under `XDG_DATA_HOME`, otherwise
/// `.local/share/seris/seris.sqlite3` under `HOME`; none when neither is set.
pub open spec fn database_path_parts(
    explicit: Option<Seq<char>>,
    xdg_data_home: Option<Seq<char>>,
    home: Option<Seq<char>>,
) -> Option<Seq<Seq<char>>> {
    match explicit {
        Some(path) => Some(seq![path]),
        None => match xdg_data_home {
            Some(base) => Some(seq![base, "seris"@, "seris.sqlite3"@]),
            None => match home {
                Some(base) => Some(seq![base, ".local"@, "share"@, "seris"@, "seris.sqlite3"@]),
                None => None,
            },
        },
    }
}

/// Chooses the database file's path, as components to join, from the values
/// of `SERIS_DB_FILE`, `XDG_DATA_HOME` and `HOME`.
pub fn database_file_components(
    explicit: Option<String>,
    xdg_data_home: Option<String>,
    home: Option<String>,
) -> (parts: Option<Vec<String>>)
    ensures
        match parts {
            Some(p) => database_path_parts(opt_text(explicit), opt_text(xdg_data_home), opt_text(home)) == Some(texts(p@)),
            None => database_path_parts(opt_text(explicit), opt_text(xdg_data_home), opt_text(home)) is None,
        },
{
    match explicit {
        Some(path) => {
            let mut parts = Vec::new();
            parts.push(path);
            assert(texts(parts@) =~= seq![parts@[0]@]);
            Some(parts)
        },
        None => match xdg_data_home {
            Some(base) => {
                let mut parts = Vec::new();
                parts.push(base);
                parts.push(owned("seris"));
                parts.push(owned("seris.sqlite3"));
                assert(texts(parts@) =~= seq![parts@[0]@, "seris"@, "seris.sqlite3"@]);
                Some(parts)
            },
            None => match home {
                Some(base) => {
                    let mut parts = Vec::new();
                    parts.push(base);
                    parts.push(owned(".local"));
                    parts.push(owned("share"));
                    parts.push(owned("seris"));
                    parts.push(owned("seris.sqlite3"));
                    assert(texts(parts@) =~= seq![parts@[0]@, ".local"@, "share"@, "seris"@, "seris.sqlite3"@]);
                    Some(parts)
                },
                None => None,
            },
        },
    }
}

} // verus!
