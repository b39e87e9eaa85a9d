//! The fixed file layout of a theme.
//!
//! A theme named `name` under project root `root` keeps its ten assets at
//! fixed relative paths below `root/_themes/name/`; a build writes the six
//! static assets below `root/_builds/` under the same `static/` sub-layout.

use vstd::prelude::*;
use vstd::string::StringExecFns;

verus! {

/// Name of the built-in theme that is always available.
pub open spec fn default_theme_name() -> Seq<char> {
    "simple"@
}

/// The reserved identifier of the built-in default theme.
pub fn default_theme() -> (r: &'static str)
    ensures
        r@ == default_theme_name(),
{
    "simple"
}

/// Directory that holds the source tree of the theme `name`.
pub open spec fn theme_dir_view(root: Seq<char>, name: Seq<char>) -> Seq<char> {
    root + "/_themes/"@ + name
}

/// Full path of one asset inside the source tree of the theme `name`.
pub open spec fn theme_file_view(root: Seq<char>, name: Seq<char>, rel: Seq<char>) -> Seq<char> {
    theme_dir_view(root, name) + "/"@ + rel
}

/// Full path of one static asset inside the build output tree.
pub open spec fn output_file_view(root: Seq<char>, rel: Seq<char>) -> Seq<char> {
    root + "/_builds/"@ + rel
}

/// Directory that a resolved theme `name` is read from and written to.
pub fn theme_dir(root: &str, name: &str) -> (r: String)
    ensures
        r@ == theme_dir_view(root@, name@),
{
    let mut r: String = root.to_owned();
    r.append("/_themes/");
    r.append(name);
    r
}

/// Path of the asset at relative path `rel` inside the theme `name`.
pub fn theme_file(root: &str, name: &str, rel: &str) -> (r: String)
    ensures
        r@ == theme_file_view(root@, name@, rel@),
{
    let mut r: String = theme_dir(root, name);
    r.append("/");
    r.append(rel);
    r
}

/// Path of the static asset at relative path `rel` inside the build output.
pub fn output_file(root: &str, rel: &str) -> (r: String)
    ensures
        r@ == output_file_view(root@, rel@),
{
    let mut r: String = root.to_owned();
    r.append("/_builds/");
    r.append(rel);
    r
}

/// The ten asset paths of the theme `name`, in slot order: favicon, logo,
/// main stylesheet, highlight stylesheet, main script, highlight script,
/// base template, index template, post template, tag template.
pub fn source_files(root: &str, name: &str) -> (r: Vec<String>)
    ensures
        r@.len() == 10,
        r@[0]@ == theme_file_view(root@, name@, "static/img/favicon.png"@),
        r@[1]@ == theme_file_view(root@, name@, "static/img/logo.png"@),
        r@[2]@ == theme_file_view(root@, name@, "static/css/main.css"@),
        r@[3]@ == theme_file_view(root@, name@, "static/css/highlight.css"@),
        r@[4]@ == theme_file_view(root@, name@, "static/js/main.js"@),
        r@[5]@ == theme_file_view(root@, name@, "static/js/highlight.js"@),
        r@[6]@ == theme_file_view(root@, name@, "templates/base.tpl"@),
        r@[7]@ == theme_file_view(root@, name@, "templates/index.tpl"@),
        r@[8]@ == theme_file_view(root@, name@, "templates/post.tpl"@),
        r@[9]@ == theme_file_view(root@, name@, "templates/tag.tpl"@),
{
    let mut r: Vec<String> = Vec::new();
    r.push(theme_file(root, name, "static/img/favicon.png"));
    r.push(theme_file(root, name, "static/img/logo.png"));
    r.push(theme_file(root, name, "static/css/main.css"));
    r.push(theme_file(root, name, "static/css/highlight.css"));
    r.push(theme_file(root, name, "static/js/main.js"));
    r.push(theme_file(root, name, "static/js/highlight.js"));
    r.push(theme_file(root, name, "templates/base.tpl"));
    r.push(theme_file(root, name, "templates/index.tpl"));
    r.push(theme_file(root, name, "templates/post.tpl"));
    r.push(theme_file(root, name, "templates/tag.tpl"));
    r
}

} // verus!
