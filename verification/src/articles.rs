//! Articles, the list that numbers them, and the answers of the article
//! handlers.

use crate::exporter::Metrics;
use crate::logging::{LogMessage, LogMessageView, LogType};
use crate::text::{decimal, to_decimal};
use vstd::prelude::*;

verus! {

/// An article. Its id is given by the list that takes it in, and by
/// nothing else: an article that no list has taken in has id 0.
#[derive(Debug)]
pub struct Article {
    id: u32,
    pub title: String,
    pub author: String,
    pub description: String,
    pub content: String,
}

/// An article with its texts as sequences of characters.
pub struct ArticleView {
    pub id: u32,
    pub title: Seq<char>,
    pub author: Seq<char>,
    pub description: Seq<char>,
    pub content: Seq<char>,
}

impl View for Article {
    type V = ArticleView;

    closed spec fn view(&self) -> ArticleView {
        ArticleView {
            id: self.id,
            title: self.title@,
            author: self.author@,
            description: self.description@,
            content: self.content@,
        }
    }
}

impl Clone for Article {
    fn clone(&self) -> (r: Self)
        ensures
            r@ == self@,
    {
        Article {
            id: self.id,
            title: self.title.clone(),
            author: self.author.clone(),
            description: self.description.clone(),
            content: self.content.clone(),
        }
    }
}

impl Article {
    /// An article that is not in any list yet.
    pub fn new(title: String, author: String, description: String, content: String) -> (r: Self)
        ensures
            r@ == (ArticleView {
                id: 0,
                title: title@,
                author: author@,
                description: description@,
                content: content@,
            }),
    {
        Article { id: 0, title, author, description, content }
    }

    /// The id of the article.
    pub fn id(&self) -> (id: u32)
        ensures
            id == self@.id,
    {
        self.id
    }

    /// The title of the article.
    pub fn title(&self) -> (title: &str)
        ensures
            title@ == self@.title,
    {
        self.title.as_str()
    }

    /// The author of the article.
    pub fn author(&self) -> (author: &str)
        ensures
            author@ == self@.author,
    {
        self.author.as_str()
    }

    /// The description of the article.
    pub fn description(&self) -> (description: &str)
        ensures
            description@ == self@.description,
    {
        self.description.as_str()
    }

    /// The content of the article.
    pub fn content(&self) -> (content: &str)
        ensures
            content@ == self@.content,
    {
        self.content.as_str()
    }
}

/// The articles of the service, in the order in which they came.
#[derive(Debug)]
pub struct ArticleList {
    pub articles: Vec<Article>,
}

/// The articles of a sequence, each by its view.
pub open spec fn article_views(articles: Seq<Article>) -> Seq<ArticleView> {
    articles.map_values(|a: Article| a@)
}

impl View for ArticleList {
    type V = Seq<ArticleView>;

    open spec fn view(&self) -> Seq<ArticleView> {
        article_views(self.articles@)
    }
}

/// Whether the ids of a list are 1, 2, 3 and so on, in order: the article
/// at each place has that place, counted from 1, as its id.
pub open spec fn ids_dense(articles: Seq<ArticleView>) -> bool {
    forall|i: int| 0 <= i < articles.len() ==> (#[trigger] articles[i]).id == i + 1
}

/// The place of the first article with the given id, if there is one.
pub open spec fn first_with_id(articles: Seq<ArticleView>, id: u32) -> Option<int>
    decreases articles.len(),
{
    if articles.len() == 0 {
        None
    } else {
        match first_with_id(articles.drop_last(), id) {
            Some(i) => Some(i),
            None => if articles.last().id == id {
                Some(articles.len() - 1)
            } else {
                None
            },
        }
    }
}

/// The article that a list numbers `id` once it takes `article` in: the
/// same texts, under that id.
pub open spec fn numbered(article: ArticleView, id: u32) -> ArticleView {
    ArticleView { id, ..article }
}

/// A list after it has taken an article in: the article stands at the end,
/// numbered one more than there were articles.
pub open spec fn taken_in(articles: Seq<ArticleView>, article: ArticleView) -> Seq<ArticleView> {
    articles.push(numbered(article, (articles.len() + 1) as u32))
}

/// A list after it has taken in each of `new_articles`, in order.
pub open spec fn taken_in_all(
    articles: Seq<ArticleView>,
    new_articles: Seq<ArticleView>,
) -> Seq<ArticleView>
    decreases new_articles.len(),
{
    if new_articles.len() == 0 {
        articles
    } else {
        taken_in(taken_in_all(articles, new_articles.drop_last()), new_articles.last())
    }
}

/// The ids of a list, as a set.
pub open spec fn id_set(articles: Seq<ArticleView>) -> Set<int> {
    Set::new(|id: int| exists|i: int| 0 <= i < articles.len() && #[trigger] articles[i].id == id)
}

impl Clone for ArticleList {
    fn clone(&self) -> (r: Self)
        ensures
            r@ == self@,
    {
        let mut articles: Vec<Article> = Vec::new();
        let mut i: usize = 0;
        while i < self.articles.len()
            invariant
                i <= self.articles.len(),
                article_views(articles@) == article_views(self.articles@.take(i as int)),
            decreases self.articles.len() - i,
        {
            let ghost before = articles@;
            articles.push(self.articles[i].clone());
            proof {
                let so_far = self.articles@.take(i as int);
                let next = self.articles@.take(i + 1);
                assert(article_views(before).len() == article_views(so_far).len());
                assert forall|k: int| 0 <= k < i + 1 implies article_views(articles@)[k]
                    == article_views(next)[k] by {
                    if k < i {
                        assert(article_views(before)[k] == article_views(so_far)[k]);
                    }
                }
                assert(article_views(articles@) =~= article_views(next));
            }
            i = i + 1;
        }
        proof {
            assert(self.articles@.take(i as int) == self.articles@);
        }
        ArticleList { articles }
    }
}

impl ArticleList {
    /// Whether the list numbers its articles 1, 2, 3 and so on. Every list
    /// that was made and filled by the functions of this type does.
    pub open spec fn wf(&self) -> bool {
        ids_dense(self@)
    }

    /// An empty list.
    pub fn new() -> (r: Self)
        ensures
            r@ == Seq::<ArticleView>::empty(),
            r.wf(),
    {
        let articles = Vec::new();
        let r = ArticleList { articles };
        assert(r@ =~= Seq::<ArticleView>::empty());
        r
    }

    /// Takes an article in: gives it the next id, which is the number of
    /// articles so far plus one, puts it at the end of the list, counts one
    /// posted article, and returns the id.
    pub fn add(&mut self, article: Article, metrics: &Metrics) -> (id: u32)
        requires
            old(self)@.len() < u32::MAX,
        ensures
            id == old(self)@.len() + 1,
            final(self)@ == taken_in(old(self)@, article@),
            old(self).wf() ==> final(self).wf(),
    {
        let mut article = article;
        let id = (self.articles.len() + 1) as u32;
        article.id = id;
        let ghost before = self.articles@;
        self.articles.push(article);
        proof {
            assert(article_views(before.push(article)) =~= article_views(before).push(article@));
        }
        metrics.count_posted();
        id
    }

    /// Looks an article up by its id, going through the list from the
    /// front, and counts one read. The result is the first article with
    /// that id, or nothing where no article has it.
    pub fn get(&self, id: u32, metrics: &Metrics) -> (r: Option<&Article>)
        ensures
            match first_with_id(self@, id) {
                Some(i) => r == Some(&self.articles@[i]) && 0 <= i < self@.len() && self@[i].id
                    == id,
                None => r is None,
            },
    {
        let mut found: Option<&Article> = None;
        let mut i: usize = 0;
        while i < self.articles.len() && found.is_none()
            invariant
                i <= self.articles.len(),
                match first_with_id(article_views(self.articles@.take(i as int)), id) {
                    Some(k) => found == Some(&self.articles@[k]) && 0 <= k < i
                        && self.articles@[k]@.id == id,
                    None => found is None,
                },
            decreases self.articles.len() - i,
        {
            proof {
                assert(article_views(self.articles@.take(i + 1)).drop_last() =~= article_views(
                    self.articles@.take(i as int),
                ));
            }
            if self.articles[i].id == id {
                found = Some(&self.articles[i]);
            }
            i = i + 1;
        }
        proof {
            assert(article_views(self.articles@).take(i as int) =~= article_views(
                self.articles@.take(i as int),
            ));
            lemma_first_with_id_extends(self@, i as int, id);
        }
        metrics.count_read();
        found
    }

    /// A list with one article in it, as an example.
    pub fn default_example() -> (r: Self)
        ensures
            r@ == seq![
                ArticleView {
                    id: 1,
                    title: "First Article"@,
                    author: "Author One"@,
                    description: "This is the first article."@,
                    content: "Content of the first article."@,
                },
            ],
            r.wf(),
    {
        let mut articles = Vec::new();
        let article = Article {
            id: 1,
            title: "First Article".to_owned(),
            author: "Author One".to_owned(),
            description: "This is the first article.".to_owned(),
            content: "Content of the first article.".to_owned(),
        };
        articles.push(article);
        let r = ArticleList { articles };
        assert(r@ =~= seq![article@]);
        r
    }
}

/// A match among the first `n` articles is the match in the whole list.
pub proof fn lemma_first_with_id_extends(articles: Seq<ArticleView>, n: int, id: u32)
    requires
        0 <= n <= articles.len(),
        n == articles.len() || first_with_id(articles.take(n), id) is Some,
    ensures
        first_with_id(articles, id) == first_with_id(articles.take(n), id),
    decreases articles.len() - n,
{
    if n == articles.len() {
        assert(articles.take(n) == articles);
    } else {
        assert(articles.drop_last().take(n) == articles.take(n));
        lemma_first_with_id_extends(articles.drop_last(), n, id);
    }
}

/// In a list that numbers its articles 1, 2, 3 and so on, an id is found
/// exactly when it is one of those numbers, and at the place that the
/// number names.
pub proof fn lemma_lookup_in_dense(articles: Seq<ArticleView>, id: u32)
    requires
        ids_dense(articles),
    ensures
        first_with_id(articles, id) == if 1 <= id <= articles.len() {
            Some(id - 1)
        } else {
            None
        },
    decreases articles.len(),
{
    if articles.len() > 0 {
        let front = articles.drop_last();
        assert forall|i: int| 0 <= i < front.len() implies (#[trigger] front[i]).id == i + 1 by {
            assert(front[i] == articles[i]);
        }
        lemma_lookup_in_dense(front, id);
    }
}

/// However many articles a list takes in, one after another and in
/// whatever order they come, it numbers them without gap and without
/// repeat: from an empty list, the ids of `n` articles are exactly the
/// numbers from 1 to `n`, each once.
pub proof fn lemma_ids_are_one_to_n(new_articles: Seq<ArticleView>)
    requires
        new_articles.len() <= u32::MAX,
    ensures
        ({
            let list = taken_in_all(Seq::empty(), new_articles);
            &&& list.len() == new_articles.len()
            &&& ids_dense(list)
            &&& id_set(list) == Set::new(|id: int| 1 <= id <= new_articles.len())
            &&& forall|i: int, j: int|
                0 <= i < j < list.len() ==> (#[trigger] list[i]).id != (#[trigger] list[j]).id
        }),
    decreases new_articles.len(),
{
    let list = taken_in_all(Seq::empty(), new_articles);
    if new_articles.len() > 0 {
        lemma_ids_are_one_to_n(new_articles.drop_last());
    }
    assert(ids_dense(list));
    assert forall|id: int| id_set(list).contains(id) <==> 1 <= id <= new_articles.len() by {
        if 1 <= id <= new_articles.len() {
            assert(list[id - 1].id == id);
        }
    }
    assert(id_set(list) =~= Set::new(|id: int| 1 <= id <= new_articles.len()));
}

/// What a list holds after it took an article in, seen through a lookup:
/// under the new id stands the article with exactly the texts that were
/// handed in, and under every other id stands what stood there before,
/// or nothing as before. There is no state in between: a reader sees the
/// list either without the article or with the whole of it.
pub proof fn lemma_lookup_after_add(articles: Seq<ArticleView>, article: ArticleView, id: u32)
    requires
        ids_dense(articles),
        articles.len() < u32::MAX,
    ensures
        ({
            let after = taken_in(articles, article);
            let new_id = (articles.len() + 1) as u32;
            &&& ids_dense(after)
            &&& first_with_id(articles, new_id) is None
            &&& id == new_id ==> first_with_id(after, id) == Some(articles.len() as int)
                && after[articles.len() as int] == numbered(article, new_id)
            &&& id != new_id ==> first_with_id(after, id) == first_with_id(articles, id) && (
            first_with_id(articles, id) matches Some(i) ==> after[i] == articles[i])
        }),
{
    let after = taken_in(articles, article);
    let new_id = (articles.len() + 1) as u32;
    assert(ids_dense(after));
    lemma_lookup_in_dense(articles, id);
    lemma_lookup_in_dense(articles, new_id);
    lemma_lookup_in_dense(after, id);
}

/// The answer of a handler.
#[derive(Debug)]
pub enum GeneralResponse<T> {
    /// Status 200, with what was asked for.
    Success(T),
    Created,
    NotFound,
    Busy,
    BadRequest,
    Forbidden,
    InternalError,
}

/// The body of a response.
#[derive(Debug)]
pub enum ResponseBody<T> {
    /// A value, to be written as JSON.
    Json(T),
    /// A text that is JSON already.
    Text(String),
}

/// A response in parts: its status code and its body.
#[derive(Debug)]
pub struct ResponseParts<T> {
    pub status: u16,
    pub body: ResponseBody<T>,
}

impl<T> GeneralResponse<T> {
    /// The status code of an answer.
    pub open spec fn status(self) -> u16 {
        match self {
            GeneralResponse::Success(_) => 200,
            GeneralResponse::Created => 201,
            GeneralResponse::NotFound => 404,
            GeneralResponse::Busy => 503,
            GeneralResponse::BadRequest => 400,
            GeneralResponse::Forbidden => 403,
            GeneralResponse::InternalError => 500,
        }
    }

    /// The text that an answer without a value carries as its body: a
    /// JSON object with one member.
    pub open spec fn notice(self) -> Seq<char> {
        match self {
            GeneralResponse::Success(_) => Seq::empty(),
            GeneralResponse::Created => "{\"message\":\"Article created\"}"@,
            GeneralResponse::NotFound => "{\"error\":\"Article not found\"}"@,
            GeneralResponse::Busy => "{\"error\":\"Service is busy\"}"@,
            GeneralResponse::BadRequest => "{\"error\":\"Bad request\"}"@,
            GeneralResponse::Forbidden => "{\"error\":\"Access denied\"}"@,
            GeneralResponse::InternalError => "{\"error\":\"Internal server error\"}"@,
        }
    }

    /// Turns an answer into the parts of a response. A success carries
    /// its value and status 200; every other answer carries its own status
    /// and a one-member JSON object that names it.
    pub fn into_response(self) -> (r: ResponseParts<T>)
        ensures
            r.status == self.status(),
            match self {
                GeneralResponse::Success(value) => r.body == ResponseBody::Json(value),
                _ => r.body matches ResponseBody::Text(text) && text@ == self.notice(),
            },
    {
        match self {
            GeneralResponse::Success(value) => ResponseParts {
                status: 200,
                body: ResponseBody::Json(value),
            },
            GeneralResponse::Created => ResponseParts {
                status: 201,
                body: ResponseBody::Text("{\"message\":\"Article created\"}".to_owned()),
            },
            GeneralResponse::NotFound => ResponseParts {
                status: 404,
                body: ResponseBody::Text("{\"error\":\"Article not found\"}".to_owned()),
            },
            GeneralResponse::Busy => ResponseParts {
                status: 503,
                body: ResponseBody::Text("{\"error\":\"Service is busy\"}".to_owned()),
            },
            GeneralResponse::BadRequest => ResponseParts {
                status: 400,
                body: ResponseBody::Text("{\"error\":\"Bad request\"}".to_owned()),
            },
            GeneralResponse::Forbidden => ResponseParts {
                status: 403,
                body: ResponseBody::Text("{\"error\":\"Access denied\"}".to_owned()),
            },
            GeneralResponse::InternalError => ResponseParts {
                status: 500,
                body: ResponseBody::Text("{\"error\":\"Internal server error\"}".to_owned()),
            },
        }
    }
}

/// The answer to a request for all articles: the list as it stands. One
/// read is counted.
pub fn get_articles(list: &ArticleList, metrics: &Metrics) -> (r: GeneralResponse<ArticleList>)
    ensures
        r matches GeneralResponse::Success(copy) && copy@ == list@,
{
    let articles = list.clone();
    metrics.count_read();
    GeneralResponse::Success(articles)
}

/// The answer to a request for one article: the article with that id, or
/// `NotFound` where the list has none. One read is counted.
pub fn get_article_by_id(list: &ArticleList, id: u32, metrics: &Metrics) -> (r: GeneralResponse<
    Article,
>)
    ensures
        match first_with_id(list@, id) {
            Some(i) => r matches GeneralResponse::Success(article) && article@ == list@[i],
            None => r is NotFound,
        },
{
    match list.get(id, metrics) {
        Some(article) => GeneralResponse::Success(article.clone()),
        None => GeneralResponse::NotFound,
    }
}

/// What the body of a request that posts an article comes to, where
/// `parsed` is the article that the body held, or nothing where the body
/// could not be read as an article. A body that cannot be read is answered
/// with `BadRequest`, and the list is not asked for; an article goes on to
/// be posted.
pub fn posted_article(parsed: Option<Article>) -> (r: Result<Article, GeneralResponse<Article>>)
    ensures
        match parsed {
            Some(article) => r == Ok::<Article, GeneralResponse<Article>>(article),
            None => r matches Err(answer) && answer is BadRequest,
        },
{
    match parsed {
        Some(article) => Ok(article),
        None => Err(GeneralResponse::BadRequest),
    }
}

/// The answer to a request that posts an article. The article is taken
/// into the list, one posted article is counted, and the answer is
/// `Created`; only a list that has run out of ids takes none, stays as it
/// is and answers `InternalError`.
pub fn post_article(list: &mut ArticleList, article: Article, metrics: &Metrics) -> (r:
    GeneralResponse<Article>)
    ensures
        if old(list)@.len() < u32::MAX {
            r is Created && final(list)@ == taken_in(old(list)@, article@)
        } else {
            r is InternalError && final(list)@ == old(list)@
        },
        old(list).wf() ==> final(list).wf(),
{
    if list.articles.len() < u32::MAX as usize {
        list.add(article, metrics);
        GeneralResponse::Created
    } else {
        GeneralResponse::InternalError
    }
}

/// The message that a request for all articles logs.
pub fn get_articles_notice() -> (message: LogMessage)
    ensures
        message@ == (LogMessageView {
            severity: LogType::Info,
            text: "Fetching all articles...."@,
        }),
{
    LogMessage::info("Fetching all articles....".to_owned())
}

/// The message that a request for one article logs.
pub fn get_article_by_id_notice(id: u32) -> (message: LogMessage)
    ensures
        message@ == (LogMessageView {
            severity: LogType::Info,
            text: "Fetching article by id: "@ + decimal(id as nat) + "..."@,
        }),
{
    let text = "Fetching article by id: ".to_owned().concat(to_decimal(id as u64).as_str()).concat(
        "...",
    );
    LogMessage::info(text)
}

/// The message that a request that posts an article logs.
pub fn post_article_notice() -> (message: LogMessage)
    ensures
        message@ == (LogMessageView { severity: LogType::Info, text: "Creating new article..."@ }),
{
    LogMessage::info("Creating new article...".to_owned())
}

} // verus!
