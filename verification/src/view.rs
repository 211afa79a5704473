//! HTML page rendering for the web flow: the common page shell and the two
//! page bodies it wraps.

use vstd::prelude::*;

verus! {

/// Everything of the page shell that stands before the body.
pub open spec fn spec_page_prefix() -> Seq<char> {
    "<!DOCTYPE html>\n<html lang=\"en\">\n<head>\n  <meta charset=\"UTF-8\">\n  <title>mbzlist-resolvers</title>\n  <style>\n    body {\n      font-family: monospace;\n      font-size: 16px;\n      line-height: 1.6;\n      margin: 2rem;\n      background: #f4f4f4;\n      color: #333;\n    }\n    h1 {\n      font-size: 2rem;\n      margin-bottom: 1rem;\n    }\n    h2 {\n      font-size: 1.25rem;\n      margin-bottom: 0.5rem;\n    }\n    p {\n      margin-bottom: 1rem;\n      color: #555;\n    }\n    .btn {\n      background: #444;\n      color: white;\n      border: none;\n      padding: 0.5rem 1rem;\n      border-radius: 4px;\n      cursor: pointer;\n      font-family: inherit;\n      text-decoration: none;\n    }\n    .btn:hover {\n      background: #222;\n    }\n    .card {\n      background: #e0e0e0;\n      border-radius: 8px;\n      padding: 1.5rem;\n      margin-bottom: 1.5rem;\n      box-shadow: 0 2px 5px rgba(0,0,0,0.05);\n    }\n  </style>\n</head>\n<body>\n  "@
}

/// Everything of the page shell that stands after the body.
pub open spec fn spec_page_suffix() -> Seq<char> {
    "\n</body>\n</html>"@
}

/// Wrap a page body in the common HTML shell: document head, styles, and
/// the body element holding the given markup.
pub fn generate_page(body: &str) -> (r: String)
    ensures
        r@ == spec_page_prefix() + body@ + spec_page_suffix(),
{
    let mut out = String::from_str(
        "<!DOCTYPE html>\n<html lang=\"en\">\n<head>\n  <meta charset=\"UTF-8\">\n  <title>mbzlist-resolvers</title>\n  <style>\n    body {\n      font-family: monospace;\n      font-size: 16px;\n      line-height: 1.6;\n      margin: 2rem;\n      background: #f4f4f4;\n      color: #333;\n    }\n    h1 {\n      font-size: 2rem;\n      margin-bottom: 1rem;\n    }\n    h2 {\n      font-size: 1.25rem;\n      margin-bottom: 0.5rem;\n    }\n    p {\n      margin-bottom: 1rem;\n      color: #555;\n    }\n    .btn {\n      background: #444;\n      color: white;\n      border: none;\n      padding: 0.5rem 1rem;\n      border-radius: 4px;\n      cursor: pointer;\n      font-family: inherit;\n      text-decoration: none;\n    }\n    .btn:hover {\n      background: #222;\n    }\n    .card {\n      background: #e0e0e0;\n      border-radius: 8px;\n      padding: 1.5rem;\n      margin-bottom: 1.5rem;\n      box-shadow: 0 2px 5px rgba(0,0,0,0.05);\n    }\n  </style>\n</head>\n<body>\n  ",
    );
    out.append(body);
    out.append("\n</body>\n</html>");
    out
}

/// The page asking the user for a playlist to export to the given platform.
pub struct PlCreatePageTemplate<'a> {
    pub app_name: &'a str,
    pub app_slug: &'a str,
}

impl<'a> PlCreatePageTemplate<'a> {
    /// Render the page body: a card with a form whose field carries the
    /// playlist URL to the platform's create endpoint.
    pub fn render(&self) -> (r: String)
        ensures
            r@ == "<div class=\"card\">\n  <h1>Export to "@ + self.app_name@
                + "</h1>\n  <form action=\"/"@ + self.app_slug@
                + "/create\" method=\"get\">\n    <input type=\"text\" name=\"mbzlists_url\" placeholder=\"mbzlists playlist URL\"/>\n    <button class=\"btn\" type=\"submit\">Create playlist</button>\n  </form>\n</div>"@,
    {
        let mut out = String::from_str("<div class=\"card\">\n  <h1>Export to ");
        out.append(self.app_name);
        out.append("</h1>\n  <form action=\"/");
        out.append(self.app_slug);
        out.append(
            "/create\" method=\"get\">\n    <input type=\"text\" name=\"mbzlists_url\" placeholder=\"mbzlists playlist URL\"/>\n    <button class=\"btn\" type=\"submit\">Create playlist</button>\n  </form>\n</div>",
        );
        out
    }
}

/// The page telling the user that the remote playlist was created.
pub struct PlCreatedPageTemplate<'a> {
    pub app_name: &'a str,
    pub playlist_url: &'a str,
}

impl<'a> PlCreatedPageTemplate<'a> {
    /// Render the page body: a card linking to the created playlist.
    pub fn render(&self) -> (r: String)
        ensures
            r@ == "<div class=\"card\">\n  <h1>"@ + self.app_name@
                + " playlist created</h1>\n  <p><a class=\"btn\" href=\""@ + self.playlist_url@
                + "\">Open your playlist</a></p>\n</div>"@,
    {
        let mut out = String::from_str("<div class=\"card\">\n  <h1>");
        out.append(self.app_name);
        out.append(" playlist created</h1>\n  <p><a class=\"btn\" href=\"");
        out.append(self.playlist_url);
        out.append("\">Open your playlist</a></p>\n</div>");
        out
    }
}

} // verus!
