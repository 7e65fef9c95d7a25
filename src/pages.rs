//! The index page: a handlebars template filled with the list of films.

use vstd::prelude::*;

verus! {

/// The index page's template; it lists the strings under `films`.
pub const INDEX_TEMPLATE: &'static str = "<!DOCTYPE html>
<html lang=\"en\">
<head>
  <meta charset=\"utf-8\">
  <title>Films</title>
  <script src=\"/static/htmx.min.js\"></script>
</head>
<body>
  <h1>Film list</h1>
  <ul>
  {{#each films}}
    <li>{{this}}</li>
  {{/each}}
  </ul>
</body>
</html>
";

/// The name under which the template finds the list of films.
pub const FILMS_KEY: &'static str = "films";

/// What handlebars makes of `template` when the context is the object
/// `{ key: items }`: the rendered page, or the text of the error it reports.
pub uninterp spec fn rendered_list(
    template: Seq<char>,
    key: Seq<char>,
    items: Seq<Seq<char>>,
) -> Result<Seq<char>, Seq<char>>;

/// The text of each string.
pub open spec fn texts(v: Seq<String>) -> Seq<Seq<char>> {
    v.map_values(|s: String| s@)
}

/// The films that the index page lists.
pub open spec fn film_names() -> Seq<Seq<char>> {
    seq!["Film1"@, "Film2"@, "Film3"@]
}

/// The page or the error text of an attempt to render.
pub open spec fn page_or_error_of(r: Result<Seq<char>, Seq<char>>) -> Seq<char> {
    match r {
        Ok(page) => page,
        Err(text) => text,
    }
}

/// The index page's text: the rendered template, or the error's text.
pub open spec fn index_text() -> Seq<char> {
    page_or_error_of(rendered_list(INDEX_TEMPLATE@, FILMS_KEY@, film_names()))
}

/// Relies on `handlebars::Handlebars::render_template` on a new registry (no
/// helpers or partials added, default settings), with a `serde_json` object
/// that maps `key` to the array of `items` as its data, and on the `Display`
/// text of the `RenderError` it may return: the outcome depends on these three
/// values alone. Only the index template is admitted, which holds no partial
/// and no deep nesting, so the call returns.
#[verifier::external_body]
fn render_list(template: &str, key: &str, items: &Vec<String>) -> (r: Result<String, String>)
    requires
        template@ == INDEX_TEMPLATE@,
    ensures
        match r {
            Ok(page) => rendered_list(template@, key@, texts(items@)) == Ok::<Seq<char>, Seq<char>>(page@),
            Err(text) => rendered_list(template@, key@, texts(items@)) == Err::<Seq<char>, Seq<char>>(text@),
        },
{
    let mut data = serde_json::Map::new();
    data.insert(key.to_string(), serde_json::Value::from(items.clone()));
    match handlebars::Handlebars::new().render_template(template, &data) {
        Ok(page) => Ok(page),
        Err(e) => Err(e.to_string()),
    }
}

/// The films that the index page lists.
pub fn films() -> (r: Vec<String>)
    ensures
        texts(r@) == film_names(),
{
    let mut v: Vec<String> = Vec::new();
    v.push(String::from_str("Film1"));
    v.push(String::from_str("Film2"));
    v.push(String::from_str("Film3"));
    assert(texts(v@) =~= film_names());
    v
}

/// The text that a page shows for an attempt to render it: the page, or
/// the error's text where rendering failed.
pub fn page_or_error(rendered: Result<String, String>) -> (r: String)
    ensures
        r@ == page_or_error_of(
            match rendered {
                Ok(p) => Ok::<Seq<char>, Seq<char>>(p@),
                Err(t) => Err::<Seq<char>, Seq<char>>(t@),
            },
        ),
{
    match rendered {
        Ok(page) => page,
        Err(text) => text,
    }
}

/// The index page: the template rendered with the list of films; where the
/// template engine reports an error, the error's text. It depends on nothing
/// else.
pub fn index_page() -> (r: String)
    ensures
        r@ == index_text(),
{
    let names = films();
    page_or_error(render_list(INDEX_TEMPLATE, FILMS_KEY, &names))
}

} // verus!
