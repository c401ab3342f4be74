//! Sparse updates of articles: only the fields that a request supplies are
//! written, the others keep what is stored.

use vstd::prelude::*;
use vstd::string::StringExecFns;
use crate::error::BackendError;
use crate::model::{Article, ArticleState};
use crate::sql::{placeholder, placeholder_text, values_view, SqlFragment, SqlFragmentView, SqlValue, SqlValueView, ToSql};
use crate::summary::{get_summary, summary_of};

verus! {

/// The fields of an article that an update writes. An absent field keeps
/// what is stored.
#[derive(Clone, Debug, PartialEq, Eq)]
pub struct ArticleChanges {
    pub title: Option<String>,
    pub content: Option<String>,
    pub summary: Option<String>,
    pub state: Option<ArticleState>,
    pub category_id: Option<i32>,
}

/// The mathematical value of a set of changes.
pub struct ArticleChangesView {
    pub title: Option<Seq<char>>,
    pub content: Option<Seq<char>>,
    pub summary: Option<Seq<char>>,
    pub state: Option<ArticleState>,
    pub category_id: Option<i32>,
}

/// What the store keeps of an article besides its id, its tags and its
/// instants.
pub struct ArticleFields {
    pub title: Seq<char>,
    pub content: Seq<char>,
    pub summary: Seq<char>,
    pub state: ArticleState,
    pub category_id: i32,
}

/// The text of an optional string.
pub open spec fn text_view(text: Option<String>) -> Option<Seq<char>> {
    match text {
        Some(s) => Some(s@),
        None => None,
    }
}

impl View for ArticleChanges {
    type V = ArticleChangesView;

    open spec fn view(&self) -> ArticleChangesView {
        ArticleChangesView {
            title: text_view(self.title),
            content: text_view(self.content),
            summary: text_view(self.summary),
            state: self.state,
            category_id: self.category_id,
        }
    }
}

/// A text field of an update: absent where the request leaves it empty.
pub open spec fn supplied_text(text: Seq<char>) -> Option<Seq<char>> {
    if text.len() == 0 {
        None
    } else {
        Some(text)
    }
}

/// The summary that an update writes: the one supplied; else the one derived
/// from the content supplied; none where neither is supplied.
pub open spec fn supplied_summary(summary: Seq<char>, content: Seq<char>) -> Option<Seq<char>> {
    if summary.len() > 0 {
        Some(summary)
    } else if content.len() > 0 {
        Some(summary_of(content))
    } else {
        None
    }
}

/// The state that an update writes: none for zero, else the state with that
/// number. Not defined for a number that stands for no state.
pub open spec fn supplied_state(state: i32) -> Option<ArticleState> {
    if state == 0 {
        None
    } else {
        ArticleState::of_code(state)
    }
}

/// A numeric field of an update: absent where the request leaves it zero.
pub open spec fn supplied_number(number: i32) -> Option<i32> {
    if number == 0 {
        None
    } else {
        Some(number)
    }
}

impl ArticleChangesView {
    /// Whether no field is written.
    pub open spec fn is_empty(self) -> bool {
        &&& self.title is None
        &&& self.content is None
        &&& self.summary is None
        &&& self.state is None
        &&& self.category_id is None
    }

    /// The fields of an article after the changes are written over `stored`.
    pub open spec fn apply(self, stored: ArticleFields) -> ArticleFields {
        ArticleFields {
            title: match self.title {
                Some(t) => t,
                None => stored.title,
            },
            content: match self.content {
                Some(c) => c,
                None => stored.content,
            },
            summary: match self.summary {
                Some(s) => s,
                None => stored.summary,
            },
            state: match self.state {
                Some(s) => s,
                None => stored.state,
            },
            category_id: match self.category_id {
                Some(c) => c,
                None => stored.category_id,
            },
        }
    }

    /// The number of fields written.
    pub open spec fn count(self) -> nat {
        self.params().len()
    }

    /// The values bound to the placeholders of the assignments: title,
    /// content, summary, the state's stored label and the category, each
    /// where it is written.
    pub open spec fn params(self) -> Seq<SqlValueView> {
        optional_param(text_param(self.title)) + optional_param(text_param(self.content))
            + optional_param(text_param(self.summary)) + optional_param(label_param(self.state))
            + optional_param(number_param(self.category_id))
    }

    /// The assignments as statement text, placeholders numbered from
    /// `first`. The instant of the last update is always set anew.
    pub open spec fn text(self, first: nat) -> Seq<char> {
        let n1 = first + optional_param(text_param(self.title)).len();
        let n2 = n1 + optional_param(text_param(self.content)).len();
        let n3 = n2 + optional_param(text_param(self.summary)).len();
        let n4 = n3 + optional_param(label_param(self.state)).len();
        "updated_at = now()"@ + assignment_text(self.title is Some, ", title = "@, first, ""@)
            + assignment_text(self.content is Some, ", content = "@, n1, ""@) + assignment_text(
            self.summary is Some,
            ", summary = "@,
            n2,
            ""@,
        ) + assignment_text(self.state is Some, ", state = "@, n3, "::blog.article_state"@)
            + assignment_text(self.category_id is Some, ", category_id = "@, n4, ""@)
    }

    /// The assignments as a fragment.
    pub open spec fn sql(self, first: nat) -> SqlFragmentView {
        SqlFragmentView { text: self.text(first), params: self.params() }
    }
}

/// The value bound for a text that is written.
pub open spec fn text_param(text: Option<Seq<char>>) -> Option<SqlValueView> {
    match text {
        Some(t) => Some(SqlValueView::Text(t)),
        None => None,
    }
}

/// The value bound for a state that is written: its stored label.
pub open spec fn label_param(state: Option<ArticleState>) -> Option<SqlValueView> {
    match state {
        Some(s) => Some(SqlValueView::Text(s.label())),
        None => None,
    }
}

/// The value bound for a number that is written.
pub open spec fn number_param(number: Option<i32>) -> Option<SqlValueView> {
    match number {
        Some(n) => Some(SqlValueView::Int(n)),
        None => None,
    }
}

/// The list of no value or of one.
pub open spec fn optional_param(value: Option<SqlValueView>) -> Seq<SqlValueView> {
    match value {
        Some(v) => seq![v],
        None => seq![],
    }
}

/// The text of one assignment, where the field is written: `lead`, the
/// placeholder with this number, `tail`.
pub open spec fn assignment_text(
    present: bool,
    lead: Seq<char>,
    number: nat,
    tail: Seq<char>,
) -> Seq<char> {
    if present {
        lead + placeholder_text(number) + tail
    } else {
        Seq::<char>::empty()
    }
}

/// The changes that an update request asks for, where its state is one that
/// exists.
pub open spec fn changes_of(article: Article) -> ArticleChangesView {
    ArticleChangesView {
        title: supplied_text(article.title@),
        content: supplied_text(article.content@),
        summary: supplied_summary(article.summary@, article.content@),
        state: supplied_state(article.state),
        category_id: supplied_number(article.category_id),
    }
}

/// Whether an update request supplies no field of the article's row.
pub open spec fn supplies_nothing(article: Article) -> bool {
    &&& article.title@.len() == 0
    &&& article.content@.len() == 0
    &&& article.summary@.len() == 0
    &&& article.state == 0
    &&& article.category_id == 0
}

/// Whether the state of an update request is zero or the number of a state.
pub open spec fn state_is_known(article: Article) -> bool {
    ArticleState::of_code(article.state) is Some
}

fn add_assignment(
    text: &mut String,
    params: &mut Vec<SqlValue>,
    value: Option<SqlValue>,
    lead: &str,
    tail: &str,
    first: u128,
)
    requires
        first + old(params)@.len() < u128::MAX,
    ensures
        final(text)@ == old(text)@ + assignment_text(
            value is Some,
            lead@,
            (first + old(params)@.len()) as nat,
            tail@,
        ),
        values_view(final(params)@) == values_view(old(params)@) + optional_param(
            match value {
                Some(v) => Some(v@),
                None => None,
            },
        ),
        final(params)@.len() == old(params)@.len() + (if value is Some {
            1int
        } else {
            0int
        }),
{
    match value {
        Some(v) => {
            let number: u128 = first + params.len() as u128;
            let mut piece = String::from_str(lead);
            piece.append(placeholder(number).as_str());
            piece.append(tail);
            text.append(piece.as_str());
            let ghost held = params@;
            params.push(v);
            assert(values_view(params@) =~= values_view(held) + seq![v@]);
        },
        None => {
            assert(text@ + Seq::<char>::empty() =~= text@);
            assert(values_view(params@) + Seq::<SqlValueView>::empty() =~= values_view(params@));
        },
    }
}

fn text_value(text: &Option<String>) -> (value: Option<SqlValue>)
    ensures
        (match value {
            Some(v) => Some(v@),
            None => None,
        }) == text_param(text_view(*text)),
{
    match text {
        Some(t) => Some(SqlValue::Text(t.clone())),
        None => None,
    }
}

impl ArticleChanges {
    /// Renders the changes as the assignments of an update statement,
    /// numbering placeholders from `first`.
    pub fn to_sql(&self, first: u64) -> (fragment: SqlFragment)
        ensures
            fragment@ == self@.sql(first as nat),
            fragment.params@.len() == self@.count(),
            self@.count() <= 5,
    {
        let mut text = String::from_str("updated_at = now()");
        let mut params: Vec<SqlValue> = Vec::new();
        let state = match self.state {
            Some(s) => Some(SqlValue::Text(String::from_str(s.stored_label()))),
            None => None,
        };
        let category = match self.category_id {
            Some(c) => Some(SqlValue::Int(c)),
            None => None,
        };
        let k: u128 = first as u128;
        add_assignment(&mut text, &mut params, text_value(&self.title), ", title = ", "", k);
        add_assignment(&mut text, &mut params, text_value(&self.content), ", content = ", "", k);
        add_assignment(&mut text, &mut params, text_value(&self.summary), ", summary = ", "", k);
        add_assignment(&mut text, &mut params, state, ", state = ", "::blog.article_state", k);
        add_assignment(&mut text, &mut params, category, ", category_id = ", "", k);
        let fragment = SqlFragment { text, params };
        fragment
    }
}

/// Reads from an update request the fields that it writes. A request that
/// supplies none is refused, and so is one whose state stands for no state.
pub fn article_changes(article: &Article) -> (res: Result<ArticleChanges, BackendError>)
    ensures
        match res {
            Ok(changes) => {
                &&& !supplies_nothing(*article)
                &&& state_is_known(*article)
                &&& changes@ == changes_of(*article)
                &&& !changes@.is_empty()
            },
            Err(error) => {
                &&& error is InvalidRequest
                &&& supplies_nothing(*article) || !state_is_known(*article)
                &&& supplies_nothing(*article) ==> error.detail()
                    == "Empty update article request."@
                &&& !supplies_nothing(*article) ==> error.detail() == "No such state"@
            },
        },
{
    let no_title = article.title.as_str().is_empty();
    let no_content = article.content.as_str().is_empty();
    let no_summary = article.summary.as_str().is_empty();
    if no_title && no_content && no_summary && article.state == 0 && article.category_id == 0 {
        return Err(BackendError::invalid("Empty update article request."));
    }
    let state = if article.state == 0 {
        None
    } else {
        match ArticleState::try_from(article.state) {
            Ok(s) => Some(s),
            Err(msg) => {
                return Err(BackendError::InvalidRequest(msg));
            },
        }
    };
    let title = if no_title {
        None
    } else {
        Some(article.title.clone())
    };
    let content = if no_content {
        None
    } else {
        Some(article.content.clone())
    };
    let summary = if !no_summary {
        Some(article.summary.clone())
    } else if !no_content {
        Some(get_summary(article.content.as_str()))
    } else {
        None
    };
    let category_id = if article.category_id == 0 {
        None
    } else {
        Some(article.category_id)
    };
    Ok(ArticleChanges { title, content, summary, state, category_id })
}

impl ToSql for Article {
    /// Settled by the request alone where it supplies a field and its state
    /// is known.
    open spec fn sql_of(self) -> Option<SqlFragmentView> {
        if !supplies_nothing(self) && state_is_known(self) {
            Some(changes_of(self).sql(1))
        } else {
            None
        }
    }

    /// Renders an update request as the assignments of an update statement.
    /// The id and the tags are not part of them.
    fn to_sql(self) -> (res: Result<SqlFragment, BackendError>)
        ensures
            match res {
                Ok(fragment) => {
                    &&& !supplies_nothing(self)
                    &&& state_is_known(self)
                    &&& fragment@ == changes_of(self).sql(1)
                },
                Err(error) => {
                    &&& error is InvalidRequest
                    &&& supplies_nothing(self) || !state_is_known(self)
                    &&& supplies_nothing(self) ==> error.detail()
                        == "Empty update article request."@
                    &&& !supplies_nothing(self) ==> error.detail() == "No such state"@
                },
            },
    {
        match article_changes(&self) {
            Ok(changes) => Ok(changes.to_sql(1)),
            Err(error) => Err(error),
        }
    }
}

/// A field that an update does not supply keeps what is stored, and a field
/// that it supplies is overwritten.
pub proof fn lemma_update_is_sparse(changes: ArticleChangesView, stored: ArticleFields)
    ensures
        changes.title is None ==> changes.apply(stored).title == stored.title,
        changes.content is None ==> changes.apply(stored).content == stored.content,
        changes.summary is None ==> changes.apply(stored).summary == stored.summary,
        changes.state is None ==> changes.apply(stored).state == stored.state,
        changes.category_id is None ==> changes.apply(stored).category_id == stored.category_id,
        changes.title is Some ==> changes.apply(stored).title == changes.title->0,
        changes.content is Some ==> changes.apply(stored).content == changes.content->0,
        changes.summary is Some ==> changes.apply(stored).summary == changes.summary->0,
        changes.state is Some ==> changes.apply(stored).state == changes.state->0,
        changes.category_id is Some ==> changes.apply(stored).category_id == changes.category_id->0,
        changes.is_empty() ==> changes.apply(stored) == stored,
{
}

/// The text of the assignments depends only on which fields are written,
/// not on what is written to them.
pub proof fn lemma_assignments_ignore_values(a: ArticleChangesView, b: ArticleChangesView, first: nat)
    requires
        (a.title is Some) == (b.title is Some),
        (a.content is Some) == (b.content is Some),
        (a.summary is Some) == (b.summary is Some),
        (a.state is Some) == (b.state is Some),
        (a.category_id is Some) == (b.category_id is Some),
    ensures
        a.text(first) == b.text(first),
        a.count() == b.count(),
{
}

/// An update never leaves an article without a summary that had one, and
/// gives it one wherever it supplies content.
pub proof fn lemma_update_keeps_summary(article: Article, stored: ArticleFields)
    requires
        stored.summary.len() > 0,
    ensures
        changes_of(article).apply(stored).summary.len() > 0,
{
}

} // verus!
