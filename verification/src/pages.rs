//! The HTML pages and redirect targets that the HTTP surface serves.
//!
//! The stored content is interpolated into the paste page verbatim, without
//! HTML escaping, as the surrounding application does: a cross-site-scripting
//! exposure that callers should weigh before serving untrusted pastes.

use vstd::prelude::*;

verus! {

/// The landing page, served unconditionally at the root path: a form whose
/// `content` field is posted to the submission endpoint.
pub const LANDING_PAGE: &'static str = "<!DOCTYPE html>
<html lang='en'>
<head>
<meta charset='UTF-8'>
<meta name='viewport' content='width=device-width, initial-scale=1.0'>
<title>Rustacious</title>
<link href='/style.css' rel='stylesheet'>
</head>
<body>
<h2>Rusty Pastry</h2>
<form action='/submit' method='post'>
<textarea name='content' rows='12' cols='60'></textarea>
<br>
<button type='submit'>Create paste</button>
</form>
</body>
</html>
";

/// What stands before the paste's content on the paste page.
pub const PASTE_PAGE_PREFIX: &'static str = "
        <!DOCTYPE html>
            <html lang=\"en\">
            <head>
                <meta charset=\"UTF-8\">
                <meta name=\"viewport\" content=\"width=device-width, initial-scale=1.0\">
                <title>Rustacious</title>
                <link href=\"https://cdn.jsdelivr.net/npm/tailwindcss@2.2.15/dist/tailwind.min.css\" rel=\"stylesheet\">
                <link href=\"https://fonts.googleapis.com/css2?family=Roboto:wght@300&display=swap\" rel=\"stylesheet\">
            </head>
            <body class=\"bg-gray-800 text-white\" style=\"display: flex; flex-direction: column; justify-content: flex-start; align-items: center; height: 100vh; margin: 0;\">
            <img src=\"https://rustacean.net/more-crabby-things/dancing-ferris.gif\" alt=\"Rust mascot\" class=\"logo mb-4\" style=\"width: 16rem; height: 9rem;\">
                <h2> Rusty Pastry</h2>
                    <h1  class=\"text-3xl mb-6\">";

/// What stands after the paste's content on the paste page.
pub const PASTE_PAGE_SUFFIX: &'static str = "</h1>
            </body>
            </html>
        ";

/// The paste page: the given content embedded, unescaped, between the fixed
/// prefix and suffix.
pub open spec fn paste_page_spec(content: Seq<char>) -> Seq<char> {
    PASTE_PAGE_PREFIX@ + content + PASTE_PAGE_SUFFIX@
}

/// The target of the redirect issued after a successful submission: the
/// retrieval URL of the stored paste.
pub open spec fn paste_location_spec(token: Seq<char>) -> Seq<char> {
    "/paste/"@ + token
}

/// Produce the landing page. Total: it yields the same fixed page whatever
/// the state of the store, so the root endpoint can always answer with it.
pub fn landing_page() -> (page: String)
    ensures
        page@ == LANDING_PAGE@,
{
    String::from_str(LANDING_PAGE)
}

/// Render the HTML page that embeds a paste's content (or the not-found
/// sentinel standing in for it).
pub fn render_paste_page(content: &String) -> (page: String)
    ensures
        page@ == paste_page_spec(content@),
{
    let mut page = String::from_str(PASTE_PAGE_PREFIX);
    page.append(content.as_str());
    page.append(PASTE_PAGE_SUFFIX);
    page
}

/// Build the redirect target for a freshly stored paste.
pub fn redirect_location(token: &String) -> (loc: String)
    ensures
        loc@ == paste_location_spec(token@),
{
    let mut loc = String::from_str("/paste/");
    loc.append(token.as_str());
    loc
}

} // verus!
