//! Figures and queries about the record store.

use vstd::prelude::*;
use vstd::string::StringExecFns;
use crate::text::chars_of;

verus! {

/// Size and content of the record store.
#[derive(Clone, Debug, PartialEq, Eq)]
pub struct DbStats {
    pub connected: bool,
    pub table_count: usize,
    pub tables: Vec<String>,
    pub size_bytes: i64,
}

/// Mathematical model of [`DbStats`].
pub struct DbStatsView {
    pub connected: bool,
    pub table_count: usize,
    pub tables: Seq<Seq<char>>,
    pub size_bytes: i64,
}

impl DeepView for DbStats {
    type V = DbStatsView;

    open spec fn deep_view(&self) -> DbStatsView {
        DbStatsView {
            connected: self.connected,
            table_count: self.table_count,
            tables: self.tables.deep_view(),
            size_bytes: self.size_bytes,
        }
    }
}

impl View for DbStats {
    type V = DbStatsView;

    open spec fn view(&self) -> DbStatsView {
        self.deep_view()
    }
}

/// One column of a table: its name and its declared type.
#[derive(Clone, Debug, PartialEq, Eq)]
pub struct ColumnInfo {
    pub name: String,
    pub type_: String,
}

/// Mathematical model of a [`ColumnInfo`].
pub struct ColumnInfoView {
    pub name: Seq<char>,
    pub type_: Seq<char>,
}

impl DeepView for ColumnInfo {
    type V = ColumnInfoView;

    open spec fn deep_view(&self) -> ColumnInfoView {
        ColumnInfoView { name: self.name@, type_: self.type_@ }
    }
}

impl View for ColumnInfo {
    type V = ColumnInfoView;

    open spec fn view(&self) -> ColumnInfoView {
        self.deep_view()
    }
}

/// `s` with every single quote doubled, as a quoted SQL string takes it.
pub open spec fn quotes_doubled(s: Seq<char>) -> Seq<char>
    decreases s.len(),
{
    if s.len() == 0 {
        Seq::empty()
    } else if s.last() == '\'' {
        quotes_doubled(s.drop_last()) + seq!['\'', '\'']
    } else {
        quotes_doubled(s.drop_last()).push(s.last())
    }
}

/// The statement that lists the columns of the table `table`.
pub open spec fn table_info_statement(table: Seq<char>) -> Seq<char> {
    "PRAGMA table_info('"@ + quotes_doubled(table) + "')"@
}

/// Doubling the quotes of a text with one more character doubles those of
/// the text and then deals with the character.
proof fn lemma_quotes_doubled_step(s: Seq<char>, i: int)
    requires
        0 <= i < s.len(),
    ensures
        quotes_doubled(s.take(i + 1)) == if s[i] == '\'' {
            quotes_doubled(s.take(i)) + seq!['\'', '\'']
        } else {
            quotes_doubled(s.take(i)).push(s[i])
        },
{
    assert(s.take(i + 1).drop_last() =~= s.take(i));
}

impl DbStats {
    /// The figures of a store that holds the tables `tables` in
    /// `page_count` pages of `page_size` bytes each; `None` where the size
    /// in bytes does not fit.
    pub fn from_pages(tables: Vec<String>, page_count: i64, page_size: i64) -> (r: Option<DbStats>)
        ensures
            match r {
                Some(stats) => {
                    &&& stats@.connected
                    &&& stats@.table_count == tables@.len()
                    &&& stats@.tables == tables.deep_view()
                    &&& stats@.size_bytes == page_count * page_size
                },
                None => page_count * page_size < i64::MIN || page_count * page_size > i64::MAX,
            },
    {
        match page_count.checked_mul(page_size) {
            Some(size_bytes) => Some(
                DbStats { connected: true, table_count: tables.len(), tables, size_bytes },
            ),
            None => None,
        }
    }
}

/// Doubles every single quote of `s`.
pub fn double_quotes(s: &str) -> (r: String)
    ensures
        r@ == quotes_doubled(s@),
{
    let chars = chars_of(s);
    let n = chars.len();
    let mut out = String::new();
    let mut start: usize = 0;
    let mut i: usize = 0;
    while i < n
        invariant
            start <= i <= n,
            n == s@.len(),
            chars@ == s@,
            out@ + s@.subrange(start as int, i as int) == quotes_doubled(s@.take(i as int)),
        decreases n - i,
    {
        proof {
            lemma_quotes_doubled_step(s@, i as int);
        }
        if chars[i] == '\'' {
            out.append(s.substring_char(start, i));
            out.append("''");
            proof {
                reveal_strlit("''");
            }
            start = i + 1;
        }
        i += 1;
    }
    out.append(s.substring_char(start, n));
    proof {
        assert(s@.take(n as int) =~= s@);
    }
    out
}

/// Builds the statement that lists the columns of the table `table`.
pub fn table_info_query(table: &str) -> (r: String)
    ensures
        r@ == table_info_statement(table@),
{
    String::from_str("PRAGMA table_info('").concat(double_quotes(table).as_str()).concat("')")
}

} // verus!
