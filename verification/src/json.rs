//! The JSON values that the server answers with.

use vstd::prelude::*;

verus! {

/// A JSON value. Object members keep the order in which they were added.
pub enum Json {
    Null,
    Bool(bool),
    Int(i64),
    /// The number of something.
    Count(usize),
    Text(String),
    /// A document in its text form, passed on as it was stored.
    Raw(String),
    List(Vec<Json>),
    Object(Vec<(String, Json)>),
}

/// What a [`Json`] value says.
pub enum JsonView {
    Null,
    Bool(bool),
    Int(int),
    Text(Seq<char>),
    Raw(Seq<char>),
    List(Seq<JsonView>),
    Object(Seq<(Seq<char>, JsonView)>),
}

/// What `j` says.
pub open spec fn meaning(j: Json) -> JsonView
    decreases j,
{
    match j {
        Json::Null => JsonView::Null,
        Json::Bool(b) => JsonView::Bool(b),
        Json::Int(n) => JsonView::Int(n as int),
        Json::Count(n) => JsonView::Int(n as int),
        Json::Text(s) => JsonView::Text(s@),
        Json::Raw(s) => JsonView::Raw(s@),
        Json::List(items) => JsonView::List(
            Seq::new(
                items@.len(),
                |i: int|
                    if 0 <= i < items@.len() {
                        meaning(items@[i])
                    } else {
                        JsonView::Null
                    },
            ),
        ),
        Json::Object(members) => JsonView::Object(
            Seq::new(
                members@.len(),
                |i: int|
                    if 0 <= i < members@.len() {
                        (members@[i].0@, meaning(members@[i].1))
                    } else {
                        (Seq::empty(), JsonView::Null)
                    },
            ),
        ),
    }
}

impl View for Json {
    type V = JsonView;

    open spec fn view(&self) -> JsonView {
        meaning(*self)
    }
}

impl DeepView for Json {
    type V = JsonView;

    open spec fn deep_view(&self) -> JsonView {
        self@
    }
}

/// The object without members.
pub open spec fn no_members() -> JsonView {
    JsonView::Object(Seq::empty())
}

impl JsonView {
    /// The object `self` with one more member at its end.
    pub open spec fn with(self, key: Seq<char>, value: JsonView) -> JsonView {
        JsonView::Object(self->Object_0.push((key, value)))
    }
}

/// The text value `s`.
pub fn text(s: &str) -> (r: Json)
    ensures
        r@ == JsonView::Text(s@),
{
    Json::Text(s.to_owned())
}

/// The array of `items`.
pub fn list(items: Vec<Json>) -> (r: Json)
    ensures
        r@ == JsonView::List(items.deep_view()),
{
    let r = Json::List(items);
    proof {
        assert(r@->List_0 =~= items.deep_view());
    }
    r
}

/// The object without members.
pub fn object() -> (r: Json)
    ensures
        r@ == no_members(),
{
    let r = Json::Object(Vec::new());
    proof {
        assert(r@->Object_0 =~= Seq::empty());
    }
    r
}

impl Json {
    /// The object `self` with one more member at its end.
    pub fn with(self, key: &str, value: Json) -> (r: Json)
        requires
            self@ is Object,
        ensures
            r@ == self@.with(key@, value@),
    {
        match self {
            Json::Object(members) => {
                let mut members = members;
                members.push((key.to_owned(), value));
                let r = Json::Object(members);
                proof {
                    assert(r@->Object_0 =~= self@->Object_0.push((key@, value@)));
                }
                r
            },
            other => other,
        }
    }
}

/// The object whose members are `total` and `data`: one page of a list of `total` items.
pub open spec fn page_view(total: int, data: Seq<JsonView>) -> JsonView {
    no_members().with("total"@, JsonView::Int(total)).with("data"@, JsonView::List(data))
}

/// The page that holds `data` out of `total` items.
pub fn page(total: usize, data: Vec<Json>) -> (r: Json)
    ensures
        r@ == page_view(total as int, data.deep_view()),
{
    object().with("total", Json::Count(total)).with("data", list(data))
}

} // verus!
