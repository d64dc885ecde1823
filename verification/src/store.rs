//! The content store: the statements that are sent to it, and a model of what
//! they do.
//!
//! The store is a relational database behind a connection string. A run sends
//! it two statements: one creates the table of articles if there is none, one
//! inserts an article unless a row with its id exists. The model below says
//! what these statements are taken to do; the laws that follow are proved of
//! the model.

use vstd::prelude::*;
use crate::content::ArticleView;

verus! {

/// Creates the table of articles unless it exists.
pub const CREATE_TABLE: &'static str =
    "CREATE TABLE IF NOT EXISTS articles (id TEXT PRIMARY KEY, content TEXT)";

/// Inserts an article, given its id and its content, unless a row with that id
/// exists.
pub const INSERT_ARTICLE: &'static str =
    "INSERT INTO articles (id, content) VALUES ($1, $2) ON CONFLICT (id) DO NOTHING";

/// The table of articles: for each id at most one row, with a content.
pub type Table = Map<Seq<char>, Seq<char>>;

/// The table after `CREATE_TABLE`: the one that was there, or a new one with
/// no rows.
pub open spec fn created(table: Option<Table>) -> Table {
    match table {
        Some(table) => table,
        None => Map::empty(),
    }
}

/// The table after `INSERT_ARTICLE`: a row that exists under the id stays as
/// it is, otherwise the article becomes a row.
pub open spec fn inserted(table: Table, id: Seq<char>, content: Seq<char>) -> Table {
    if table.contains_key(id) {
        table
    } else {
        table.insert(id, content)
    }
}

/// The table after an article was persisted: created if need be, then the
/// article inserted.
pub open spec fn persisted(table: Option<Table>, article: ArticleView) -> Table {
    inserted(created(table), article.id, article.content)
}

/// The table after the store has executed a statement: the two statements of
/// a run do what is said above, and anything else leaves the table as it is.
pub open spec fn executed(
    table: Option<Table>,
    statement: Seq<char>,
    parameters: Seq<Seq<char>>,
) -> Option<Table> {
    if statement == CREATE_TABLE@ {
        Some(created(table))
    } else if statement == INSERT_ARTICLE@ && parameters.len() == 2 && table is Some {
        Some(inserted(table->Some_0, parameters[0], parameters[1]))
    } else {
        table
    }
}

/// The two statements are two.
pub proof fn statements_differ()
    ensures
        CREATE_TABLE@ != INSERT_ARTICLE@,
{
    reveal_strlit("CREATE TABLE IF NOT EXISTS articles (id TEXT PRIMARY KEY, content TEXT)");
    reveal_strlit(
        "INSERT INTO articles (id, content) VALUES ($1, $2) ON CONFLICT (id) DO NOTHING",
    );
    assert(CREATE_TABLE@[0] == 'C');
    assert(INSERT_ARTICLE@[0] == 'I');
}

/// Executing the first statement and then the second, with the article's id
/// and content as its parameters, persists the article.
pub proof fn statements_persist(table: Option<Table>, article: ArticleView)
    ensures
        executed(
            executed(table, CREATE_TABLE@, Seq::empty()),
            INSERT_ARTICLE@,
            seq![article.id, article.content],
        ) == Some(persisted(table, article)),
{
    statements_differ();
}

/// Persisting is idempotent: once an article is persisted, persisting an
/// article with the same id changes nothing, whatever its content. Where no
/// row had the id before, the row keeps the content that was written first.
pub proof fn persisting_again_changes_nothing(
    table: Option<Table>,
    first: ArticleView,
    second: ArticleView,
)
    requires
        first.id == second.id,
    ensures
        persisted(Some(persisted(table, first)), second) == persisted(table, first),
        !created(table).contains_key(first.id) ==> persisted(
            Some(persisted(table, first)),
            second,
        )[first.id] == first.content,
{
}

/// After an article was persisted there is a row under its id, and every
/// other row is as it was.
pub proof fn persisting_adds_at_most_one_row(table: Option<Table>, article: ArticleView)
    ensures
        persisted(table, article).contains_key(article.id),
        forall|id: Seq<char>|
            id != article.id ==> (#[trigger] persisted(table, article).contains_key(id)
                == created(table).contains_key(id)),
        forall|id: Seq<char>|
            id != article.id && created(table).contains_key(id) ==> (#[trigger] persisted(
                table,
                article,
            )[id]) == created(table)[id],
{
}

/// An article that is persisted where no row has its id is found again under
/// that id, with its content unchanged.
pub proof fn persisted_article_is_found_again(table: Option<Table>, article: ArticleView)
    requires
        !created(table).contains_key(article.id),
    ensures
        persisted(table, article).contains_key(article.id),
        persisted(table, article)[article.id] == article.content,
{
}

} // verus!
