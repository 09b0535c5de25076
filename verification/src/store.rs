//! The archive store: the durable collection of saved articles.
//!
//! Articles live in one SQLite table with a unique-URL constraint. The
//! connection is opaque here; what the table holds is modelled by the named
//! sequence [`store_rows`], and the few statements the store runs stand
//! behind trusted wrappers whose contracts say how they change that
//! sequence. Everything above those wrappers is verified.

use crate::error::StoreError;
use crate::sanitize::clean_html;
use crate::sanitize::clean_of;
use crate::timestamp::timestamp_format_ok;
use vstd::prelude::*;

verus! {

/// One saved article, as the store hands it back: the five columns of the
/// articles table.
pub struct ArticleRecord {
    pub url: String,
    pub title: String,
    pub content: String,
    pub description: String,
    pub created: String,
}

/// The mathematical shadow of one stored article.
pub ghost struct ArticleView {
    pub url: Seq<char>,
    pub title: Seq<char>,
    pub content: Seq<char>,
    pub description: Seq<char>,
    pub created: Seq<char>,
}

impl View for ArticleRecord {
    type V = ArticleView;

    open spec fn view(&self) -> ArticleView {
        ArticleView {
            url: self.url@,
            title: self.title@,
            content: self.content@,
            description: self.description@,
            created: self.created@,
        }
    }
}

#[verifier::external_type_specification]
#[verifier::external_body]
pub struct ExConnection(sqlite::Connection);

/// What the articles table behind the given connection holds, in row order.
pub uninterp spec fn store_rows(conn: sqlite::Connection) -> Seq<ArticleView>;

/// Whether some row of `rows` has the URL `url`.
pub open spec fn row_present(rows: Seq<ArticleView>, url: Seq<char>) -> bool {
    exists|i: int| 0 <= i < rows.len() && rows[i].url == url
}

/// Law: after a successful insert the archive holds exactly what it held
/// before followed by the inserted article, so a scan — which returns the
/// archive's rows as they stand — yields every earlier article unchanged and
/// in place, and the new one, field for field, after them. Its premises are
/// the shape `insert_article` ensures of a successful insert.
pub proof fn lemma_scan_after_insert(
    before: Seq<ArticleView>,
    after: Seq<ArticleView>,
    a: ArticleView,
)
    requires
        after.len() == before.len() + 1,
        after.drop_last() == before,
        after.last() == a,
    ensures
        after =~= before.push(a),
        forall|i: int| 0 <= i < before.len() ==> after[i] == before[i],
        after[before.len() as int] == a,
{
    assert forall|i: int| 0 <= i < before.len() implies after[i] == before[i] by {
        assert(after.drop_last()[i] == after[i]);
    }
}

/// Law: an archive that held `rows0` and took a run of successful inserts
/// holds exactly the articles of `rows0` followed by the inserted ones, in
/// insertion order — so a scan, which returns the archive's rows as they
/// stand, yields exactly N articles after N inserts into an empty archive,
/// each matching what was inserted, field for field. `states` are the
/// archive's contents before and after each insert; each step's premises are
/// the shape `insert_article` ensures of a successful insert.
pub proof fn lemma_archive_after_inserts(
    rows0: Seq<ArticleView>,
    inserted: Seq<ArticleView>,
    states: Seq<Seq<ArticleView>>,
)
    requires
        states.len() == inserted.len() + 1,
        states[0] == rows0,
        forall|k: int|
            0 <= k < inserted.len() ==> (#[trigger] states[k + 1]).len() == states[k].len() + 1,
        forall|k: int|
            0 <= k < inserted.len() ==> (#[trigger] states[k + 1]).drop_last() == states[k],
        forall|k: int| 0 <= k < inserted.len() ==> (#[trigger] states[k + 1]).last() == inserted[k],
    ensures
        states.last() =~= rows0 + inserted,
    decreases inserted.len(),
{
    if inserted.len() == 0 {
        assert(states.last() == rows0);
    } else {
        let n = inserted.len() as int;
        lemma_archive_after_inserts(rows0, inserted.drop_last(), states.drop_last());
        assert(states.drop_last().last() == states[n - 1]);
        lemma_scan_after_insert(states[n - 1], states[n], inserted[n - 1]);
        assert(states.last() == states[n]);
        assert(inserted.drop_last().push(inserted[n - 1]) =~= inserted);
        assert(states[n] =~= (rows0 + inserted.drop_last()).push(inserted[n - 1]));
        assert((rows0 + inserted.drop_last()).push(inserted[n - 1]) =~= rows0 + inserted);
    }
}

/// A handle on the archive: an open connection whose articles table exists.
pub struct ArchiveStore {
    conn: sqlite::Connection,
}

impl ArchiveStore {
    /// What the archive holds, in row order.
    pub closed spec fn rows(&self) -> Seq<ArticleView> {
        store_rows(self.conn)
    }

    /// Relies on `sqlite::Connection::open` and `Connection::execute`: opens
    /// the database at `path` and runs `CREATE TABLE IF NOT EXISTS` for the
    /// articles table with its unique `url` column, so an existing archive is
    /// kept and a missing one is set up.
    #[verifier::external_body]
    fn db_open(path: &str) -> (r: Result<ArchiveStore, StoreError>) {
        let conn = match sqlite::Connection::open(path) {
            Ok(c) => c,
            Err(_) => return Err(StoreError::IOError),
        };
        let made = conn.execute(
            "CREATE TABLE IF NOT EXISTS articles (url TEXT UNIQUE, title TEXT, html TEXT, description TEXT DEFAULT '', created DATETIME DEFAULT CURRENT_TIMESTAMP);",
        );
        match made {
            Ok(()) => Ok(ArchiveStore { conn }),
            Err(_) => Err(StoreError::IOError),
        }
    }

    /// Relies on `sqlite::Connection::prepare`, `Statement::bind` and
    /// `Statement::next` running `INSERT INTO articles`: on success the table
    /// grows by exactly the given row (text is bound with its full byte
    /// length, so an embedded NUL is stored like any other character),
    /// timestamped by the database — `CURRENT_TIMESTAMP` always yields the
    /// 19-character `YYYY-MM-DD HH:MM:SS` form of a valid instant; the
    /// `UNIQUE` constraint on `url` — the only constraint of the table —
    /// makes an insert of a present URL fail with `SQLITE_CONSTRAINT` (code
    /// 19), and a failed statement changes nothing.
    #[verifier::external_body]
    fn db_insert(&mut self, url: &str, title: &str, html: &str, desc: &str) -> (r: Result<
        (),
        StoreError,
    >)
        ensures
            r is Ok ==> !row_present(store_rows(old(self).conn), url@),
            r is Ok ==> store_rows(final(self).conn).len() == store_rows(old(self).conn).len()
                + 1 && store_rows(final(self).conn).drop_last() == store_rows(old(self).conn)
                && store_rows(final(self).conn).last().url == url@
                && store_rows(final(self).conn).last().title == title@
                && store_rows(final(self).conn).last().content == html@
                && store_rows(final(self).conn).last().description == desc@,
            r is Ok ==> timestamp_format_ok(store_rows(final(self).conn).last().created),
            r is Err ==> store_rows(final(self).conn) == store_rows(old(self).conn),
            r matches Err(e) && e == StoreError::DuplicateUrl ==> row_present(
                store_rows(old(self).conn),
                url@,
            ),
            row_present(store_rows(old(self).conn), url@) ==> !(r is Ok),
    {
        let sql = "INSERT INTO articles (url, title, html, description) VALUES (?, ?, ?, ?)";
        let mut stmt = self.conn.prepare(sql).map_err(|_| StoreError::IOError)?;
        stmt.bind((1, url)).map_err(|_| StoreError::IOError)?;
        stmt.bind((2, title)).map_err(|_| StoreError::IOError)?;
        stmt.bind((3, html)).map_err(|_| StoreError::IOError)?;
        stmt.bind((4, desc)).map_err(|_| StoreError::IOError)?;
        match stmt.next() {
            Ok(_) => Ok(()),
            Err(e) if e.code == Some(19) => Err(StoreError::DuplicateUrl),
            Err(_) => Err(StoreError::IOError),
        }
    }

    /// Relies on `sqlite::Connection::prepare`, `Statement::next` and
    /// `Statement::read` running `SELECT` over the articles table: the rows
    /// come back in row order, one record per row, column for column. Each
    /// column is read as bytes by length (`sqlite3_column_blob` with
    /// `sqlite3_column_bytes`), so stored text comes back whole, an embedded
    /// NUL included; a column that does not decode as UTF-8 is an I/O error.
    #[verifier::external_body]
    fn db_scan(&self) -> (r: Result<Vec<ArticleRecord>, StoreError>)
        ensures
            r matches Ok(v) ==> v@.map_values(|a: ArticleRecord| a@) == store_rows(self.conn),
    {
        let sql = "SELECT url, title, html, description, created FROM articles";
        let mut stmt = self.conn.prepare(sql).map_err(|_| StoreError::IOError)?;
        let mut out = Vec::new();
        while let sqlite::State::Row = stmt.next().map_err(|_| StoreError::IOError)? {
            let col = |i: usize| -> Result<String, StoreError> {
                let bytes: Vec<u8> = stmt.read(i).map_err(|_| StoreError::IOError)?;
                String::from_utf8(bytes).map_err(|_| StoreError::IOError)
            };
            out.push(ArticleRecord {
                url: col(0)?, title: col(1)?, content: col(2)?,
                description: col(3)?, created: col(4)?,
            });
        }
        Ok(out)
    }

    /// Opens (creating if needed) the archive whose database file is at
    /// `path`.
    pub fn open(path: &str) -> (r: Result<ArchiveStore, StoreError>) {
        ArchiveStore::db_open(path)
    }

    /// Inserts one article as given. On success the archive grows by exactly
    /// that article; a URL already archived is refused, and a refused or
    /// failed insert leaves the archive unchanged.
    pub fn insert_article(
        &mut self,
        url: &str,
        title: &str,
        content: &str,
        description: &str,
    ) -> (r: Result<(), StoreError>)
        ensures
            r is Ok ==> !row_present(old(self).rows(), url@),
            r is Ok ==> final(self).rows().len() == old(self).rows().len() + 1
                && final(self).rows().drop_last() == old(self).rows()
                && final(self).rows().last().url == url@
                && final(self).rows().last().title == title@
                && final(self).rows().last().content == content@
                && final(self).rows().last().description == description@,
            r is Ok ==> timestamp_format_ok(final(self).rows().last().created),
            r is Err ==> final(self).rows() == old(self).rows(),
            r matches Err(e) && e == StoreError::DuplicateUrl ==> row_present(
                old(self).rows(),
                url@,
            ),
            row_present(old(self).rows(), url@) ==> !(r is Ok),
    {
        self.db_insert(url, title, content, description)
    }

    /// Saves one extracted article: the description defaults to the empty
    /// string, the content is sanitized, and the result is inserted. On
    /// success the archive grows by exactly that article and the fixed
    /// confirmation line comes back; a URL already archived is refused, and
    /// any failure leaves the archive unchanged.
    pub fn save_article(
        &mut self,
        url: &str,
        title: &str,
        description: Option<String>,
        raw_content: &str,
    ) -> (r: Result<String, StoreError>)
        ensures
            r is Ok ==> !row_present(old(self).rows(), url@),
            r is Ok ==> final(self).rows().len() == old(self).rows().len() + 1
                && final(self).rows().drop_last() == old(self).rows()
                && final(self).rows().last().url == url@
                && final(self).rows().last().title == title@
                && final(self).rows().last().content == clean_of(raw_content@)
                && final(self).rows().last().description == (match description {
                    Some(d) => d@,
                    None => Seq::<char>::empty(),
                }),
            r is Ok ==> timestamp_format_ok(final(self).rows().last().created),
            r matches Ok(msg) ==> msg@ == "Article saved"@,
            r is Err ==> final(self).rows() == old(self).rows(),
            r matches Err(e) && e == StoreError::DuplicateUrl ==> row_present(
                old(self).rows(),
                url@,
            ),
            row_present(old(self).rows(), url@) ==> !(r is Ok),
    {
        let desc = match description {
            Some(d) => d,
            None => String::new(),
        };
        let cleaned = clean_html(raw_content);
        match self.insert_article(url, title, cleaned.as_str(), desc.as_str()) {
            Ok(()) => {
                proof {
                    reveal_strlit("Article saved");
                }
                let msg = "Article saved";
                Ok(msg.to_owned())
            },
            Err(e) => Err(e),
        }
    }

    /// Reads the whole archive: one record per stored article, in row order,
    /// field for field.
    pub fn scan_articles(&self) -> (r: Result<Vec<ArticleRecord>, StoreError>)
        ensures
            r matches Ok(v) ==> v@.map_values(|a: ArticleRecord| a@) == self.rows(),
    {
        self.db_scan()
    }
}

} // verus!
