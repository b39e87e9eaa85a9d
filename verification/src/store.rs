//! The theme store itself: a project root, the name of the currently
//! resolved theme, and the ten asset slots.
//!
//! Resolution is all-or-nothing: the slots and the name change together,
//! either to the buffers read from a theme's source tree or to the
//! built-in bundle, and a failed resolution leaves the store exactly as it
//! was. Materialization never mutates the store; it only plans writes.

use crate::bundle;
use crate::files::FileWrite;
use crate::files::ThemeFiles;
use crate::files::ThemeFilesView;
use crate::layout;
use vstd::prelude::*;
use vstd::string::StringExecFns;

verus! {

/// Relies on std::io::Error only as an opaque value: the store never
/// constructs or inspects one, it only carries a read failure, handed in
/// by the caller that did the reading, back out unchanged.
#[verifier::external_type_specification]
#[verifier::external_body]
pub struct ExIoError(std::io::Error);

/// Error a resolution can end in.
#[derive(Debug)]
pub enum ThemeError {
    /// A source file of the requested theme could not be read; carries
    /// the underlying cause.
    Io(std::io::Error),
    /// The requested theme has no source tree on disk and is not the
    /// built-in default; carries the requested name.
    ThemeNotFound(String),
}

/// A named theme bound to a project root, with its ten asset slots.
pub struct Theme {
    root: String,
    name: String,
    favicon: Vec<u8>,
    logo: Vec<u8>,
    main_css: Vec<u8>,
    highlight_css: Vec<u8>,
    main_js: Vec<u8>,
    highlight_js: Vec<u8>,
    base: Vec<u8>,
    index: Vec<u8>,
    post: Vec<u8>,
    tag: Vec<u8>,
}

/// Mathematical image of a `Theme`.
#[verifier::ext_equal]
pub struct ThemeView {
    pub root: Seq<char>,
    pub name: Seq<char>,
    pub favicon: Seq<u8>,
    pub logo: Seq<u8>,
    pub main_css: Seq<u8>,
    pub highlight_css: Seq<u8>,
    pub main_js: Seq<u8>,
    pub highlight_js: Seq<u8>,
    pub base: Seq<u8>,
    pub index: Seq<u8>,
    pub post: Seq<u8>,
    pub tag: Seq<u8>,
}

impl View for Theme {
    type V = ThemeView;

    closed spec fn view(&self) -> ThemeView {
        ThemeView {
            root: self.root@,
            name: self.name@,
            favicon: self.favicon@,
            logo: self.logo@,
            main_css: self.main_css@,
            highlight_css: self.highlight_css@,
            main_js: self.main_js@,
            highlight_js: self.highlight_js@,
            base: self.base@,
            index: self.index@,
            post: self.post@,
            tag: self.tag@,
        }
    }
}

impl ThemeView {
    /// A store is resolved exactly when it carries a theme name.
    pub open spec fn resolved(self) -> bool {
        self.name.len() > 0
    }

    /// All ten slots are empty.
    pub open spec fn slots_empty(self) -> bool {
        &&& self.favicon.len() == 0
        &&& self.logo.len() == 0
        &&& self.main_css.len() == 0
        &&& self.highlight_css.len() == 0
        &&& self.main_js.len() == 0
        &&& self.highlight_js.len() == 0
        &&& self.base.len() == 0
        &&& self.index.len() == 0
        &&& self.post.len() == 0
        &&& self.tag.len() == 0
    }

    /// An unresolved store carries no stale asset bytes.
    pub open spec fn wf(self) -> bool {
        !self.resolved() ==> self.slots_empty()
    }
}

/// The unresolved store bound to `root`.
pub open spec fn empty_theme(root: Seq<char>) -> ThemeView {
    ThemeView {
        root: root,
        name: Seq::<char>::empty(),
        favicon: Seq::<u8>::empty(),
        logo: Seq::<u8>::empty(),
        main_css: Seq::<u8>::empty(),
        highlight_css: Seq::<u8>::empty(),
        main_js: Seq::<u8>::empty(),
        highlight_js: Seq::<u8>::empty(),
        base: Seq::<u8>::empty(),
        index: Seq::<u8>::empty(),
        post: Seq::<u8>::empty(),
        tag: Seq::<u8>::empty(),
    }
}

/// The store that results from resolving the theme `name` with the slot
/// buffers `f`, under project root `root`.
pub open spec fn resolved_theme(root: Seq<char>, name: Seq<char>, f: ThemeFilesView) -> ThemeView {
    ThemeView {
        root: root,
        name: name,
        favicon: f.favicon,
        logo: f.logo,
        main_css: f.main_css,
        highlight_css: f.highlight_css,
        main_js: f.main_js,
        highlight_js: f.highlight_js,
        base: f.base,
        index: f.index,
        post: f.post,
        tag: f.tag,
    }
}

/// `plan` is exactly the write set that materializes `v` as an editable
/// theme source tree: all ten assets, in slot order, each at its fixed
/// path under `v.root/_themes/v.name/`, each with the slot's bytes.
pub open spec fn is_source_plan(plan: Seq<FileWrite>, v: ThemeView) -> bool {
    &&& plan.len() == 10
    &&& plan[0]@.path == layout::theme_file_view(v.root, v.name, "static/img/favicon.png"@)
    &&& plan[0]@.contents == v.favicon
    &&& plan[1]@.path == layout::theme_file_view(v.root, v.name, "static/img/logo.png"@)
    &&& plan[1]@.contents == v.logo
    &&& plan[2]@.path == layout::theme_file_view(v.root, v.name, "static/css/main.css"@)
    &&& plan[2]@.contents == v.main_css
    &&& plan[3]@.path == layout::theme_file_view(v.root, v.name, "static/css/highlight.css"@)
    &&& plan[3]@.contents == v.highlight_css
    &&& plan[4]@.path == layout::theme_file_view(v.root, v.name, "static/js/main.js"@)
    &&& plan[4]@.contents == v.main_js
    &&& plan[5]@.path == layout::theme_file_view(v.root, v.name, "static/js/highlight.js"@)
    &&& plan[5]@.contents == v.highlight_js
    &&& plan[6]@.path == layout::theme_file_view(v.root, v.name, "templates/base.tpl"@)
    &&& plan[6]@.contents == v.base
    &&& plan[7]@.path == layout::theme_file_view(v.root, v.name, "templates/index.tpl"@)
    &&& plan[7]@.contents == v.index
    &&& plan[8]@.path == layout::theme_file_view(v.root, v.name, "templates/post.tpl"@)
    &&& plan[8]@.contents == v.post
    &&& plan[9]@.path == layout::theme_file_view(v.root, v.name, "templates/tag.tpl"@)
    &&& plan[9]@.contents == v.tag
}

/// `plan` is exactly the write set that materializes the static assets of
/// `v` into the flattened build output: the six static slots, in slot
/// order, each at its fixed path under `v.root/_builds/`, and nothing
/// else — in particular no template.
pub open spec fn is_output_plan(plan: Seq<FileWrite>, v: ThemeView) -> bool {
    &&& plan.len() == 6
    &&& plan[0]@.path == layout::output_file_view(v.root, "static/img/favicon.png"@)
    &&& plan[0]@.contents == v.favicon
    &&& plan[1]@.path == layout::output_file_view(v.root, "static/img/logo.png"@)
    &&& plan[1]@.contents == v.logo
    &&& plan[2]@.path == layout::output_file_view(v.root, "static/css/main.css"@)
    &&& plan[2]@.contents == v.main_css
    &&& plan[3]@.path == layout::output_file_view(v.root, "static/css/highlight.css"@)
    &&& plan[3]@.contents == v.highlight_css
    &&& plan[4]@.path == layout::output_file_view(v.root, "static/js/main.js"@)
    &&& plan[4]@.contents == v.main_js
    &&& plan[5]@.path == layout::output_file_view(v.root, "static/js/highlight.js"@)
    &&& plan[5]@.contents == v.highlight_js
}

/// The ten buffers of a source plan, slot by slot: what a later
/// resolution reads back if the plan's files land on disk unchanged.
pub open spec fn planned_files(plan: Seq<FileWrite>) -> ThemeFilesView {
    ThemeFilesView {
        favicon: plan[0]@.contents,
        logo: plan[1]@.contents,
        main_css: plan[2]@.contents,
        highlight_css: plan[3]@.contents,
        main_js: plan[4]@.contents,
        highlight_js: plan[5]@.contents,
        base: plan[6]@.contents,
        index: plan[7]@.contents,
        post: plan[8]@.contents,
        tag: plan[9]@.contents,
    }
}

/// A byte-for-byte copy of a buffer.
fn clone_bytes(v: &Vec<u8>) -> (r: Vec<u8>)
    ensures
        r@ == v@,
{
    let r = v.clone();
    proof {
        assert forall|i: int| 0 <= i < v@.len() implies r@[i] == v@[i] by {
            assert(cloned::<u8>(v@[i], r@[i]));
        }
        assert(r@ =~= v@);
    }
    r
}

impl Theme {
    /// A fresh, unresolved store bound to the project root.
    pub fn new(root: &str) -> (t: Theme)
        ensures
            t@ == empty_theme(root@),
            t@.wf(),
    {
        Theme {
            root: root.to_owned(),
            name: String::new(),
            favicon: Vec::new(),
            logo: Vec::new(),
            main_css: Vec::new(),
            highlight_css: Vec::new(),
            main_js: Vec::new(),
            highlight_js: Vec::new(),
            base: Vec::new(),
            index: Vec::new(),
            post: Vec::new(),
            tag: Vec::new(),
        }
    }

    /// Discards the resolved theme, if any: the store goes back to the
    /// unresolved state, keeping only its project root.
    pub fn clear(&mut self)
        ensures
            final(self)@ == empty_theme(old(self)@.root),
            final(self)@.wf(),
    {
        self.name = String::new();
        self.favicon.clear();
        self.logo.clear();
        self.main_css.clear();
        self.highlight_css.clear();
        self.main_js.clear();
        self.highlight_js.clear();
        self.base.clear();
        self.index.clear();
        self.post.clear();
        self.tag.clear();
    }

    /// Commits a successful disk resolution: the caller found the source
    /// tree of `name` and read all ten files; the store discards its
    /// previous theme and takes the new name and buffers together.
    ///
    /// The caller must not commit a partial read: this is only sound as
    /// the last step of a resolution in which every file was read.
    pub fn load_from_dir(&mut self, name: &str, files: ThemeFiles)
        requires
            name@.len() > 0,
        ensures
            final(self)@ == resolved_theme(old(self)@.root, name@, files@),
            final(self)@.wf(),
    {
        self.clear();
        self.name = name.to_owned();
        let ThemeFiles {
            favicon,
            logo,
            main_css,
            highlight_css,
            main_js,
            highlight_js,
            base,
            index,
            post,
            tag,
        } = files;
        self.favicon = favicon;
        self.logo = logo;
        self.main_css = main_css;
        self.highlight_css = highlight_css;
        self.main_js = main_js;
        self.highlight_js = highlight_js;
        self.base = base;
        self.index = index;
        self.post = post;
        self.tag = tag;
    }

    /// Finishes a disk resolution from the outcome of reading the ten
    /// source files of `name`: a complete read commits name and buffers
    /// together; any read failure leaves the store exactly as it was and
    /// surfaces the failure. A partial read can therefore never become
    /// visible.
    pub fn load_read_outcome(&mut self, name: &str, outcome: Result<
        ThemeFiles,
        std::io::Error,
    >) -> (r: Result<(), ThemeError>)
        requires
            name@.len() > 0,
        ensures
            outcome is Ok ==> {
                &&& r is Ok
                &&& final(self)@ == resolved_theme(old(self)@.root, name@, outcome->Ok_0@)
            },
            outcome is Err ==> {
                &&& *final(self) == *old(self)
                &&& r matches Err(ThemeError::Io(e)) && e == outcome->Err_0
            },
    {
        match outcome {
            Ok(files) => {
                self.load_from_dir(name, files);
                Ok(())
            },
            Err(e) => Err(ThemeError::Io(e)),
        }
    }

    /// Resolves `name` when it has no source tree on disk: the reserved
    /// default name always succeeds from the built-in bundle; any other
    /// name fails, reporting the requested name, and the store is left
    /// exactly as it was.
    pub fn load_fallback(&mut self, name: &str) -> (r: Result<(), ThemeError>)
        ensures
            name@ == layout::default_theme_name() ==> {
                &&& r is Ok
                &&& final(self)@ == resolved_theme(
                    old(self)@.root,
                    layout::default_theme_name(),
                    bundle::simple_files_view(),
                )
            },
            name@ != layout::default_theme_name() ==> {
                &&& *final(self) == *old(self)
                &&& r matches Err(ThemeError::ThemeNotFound(n)) && n@ == name@
            },
            old(self)@.wf() ==> final(self)@.wf(),
    {
        let requested: String = name.to_owned();
        let default_name: String = layout::default_theme().to_owned();
        if requested == default_name {
            proof {
                reveal_strlit("simple");
            }
            self.load_from_dir(name, bundle::simple_files());
            Ok(())
        } else {
            Err(ThemeError::ThemeNotFound(requested))
        }
    }

    /// Plans the materialization of the resolved theme as an editable
    /// source tree under `root/_themes/<name>/`: one write per slot, all
    /// ten assets, with exactly the slot bytes. The store is not changed.
    ///
    /// Whether the plan is carried out at all is the caller's decision:
    /// if the destination directory already exists, the materialization
    /// is a no-op and no file of the plan is written.
    pub fn init_dir_writes(&self) -> (r: Vec<FileWrite>)
        requires
            self@.resolved(),
        ensures
            is_source_plan(r@, self@),
    {
        let mut r: Vec<FileWrite> = Vec::new();
        r.push(FileWrite {
            path: layout::theme_file(self.root.as_str(), self.name.as_str(), "static/img/favicon.png"),
            contents: clone_bytes(&self.favicon),
        });
        r.push(FileWrite {
            path: layout::theme_file(self.root.as_str(), self.name.as_str(), "static/img/logo.png"),
            contents: clone_bytes(&self.logo),
        });
        r.push(FileWrite {
            path: layout::theme_file(self.root.as_str(), self.name.as_str(), "static/css/main.css"),
            contents: clone_bytes(&self.main_css),
        });
        r.push(FileWrite {
            path: layout::theme_file(self.root.as_str(), self.name.as_str(), "static/css/highlight.css"),
            contents: clone_bytes(&self.highlight_css),
        });
        r.push(FileWrite {
            path: layout::theme_file(self.root.as_str(), self.name.as_str(), "static/js/main.js"),
            contents: clone_bytes(&self.main_js),
        });
        r.push(FileWrite {
            path: layout::theme_file(self.root.as_str(), self.name.as_str(), "static/js/highlight.js"),
            contents: clone_bytes(&self.highlight_js),
        });
        r.push(FileWrite {
            path: layout::theme_file(self.root.as_str(), self.name.as_str(), "templates/base.tpl"),
            contents: clone_bytes(&self.base),
        });
        r.push(FileWrite {
            path: layout::theme_file(self.root.as_str(), self.name.as_str(), "templates/index.tpl"),
            contents: clone_bytes(&self.index),
        });
        r.push(FileWrite {
            path: layout::theme_file(self.root.as_str(), self.name.as_str(), "templates/post.tpl"),
            contents: clone_bytes(&self.post),
        });
        r.push(FileWrite {
            path: layout::theme_file(self.root.as_str(), self.name.as_str(), "templates/tag.tpl"),
            contents: clone_bytes(&self.tag),
        });
        r
    }

    /// Plans the export of the static assets into the flattened build
    /// output under `root/_builds/`: the six static slots and nothing
    /// else; templates are never part of this plan. Every call plans the
    /// same unconditional overwrites; the store is not changed.
    pub fn export_static_writes(&self) -> (r: Vec<FileWrite>)
        ensures
            is_output_plan(r@, self@),
    {
        let mut r: Vec<FileWrite> = Vec::new();
        r.push(FileWrite {
            path: layout::output_file(self.root.as_str(), "static/img/favicon.png"),
            contents: clone_bytes(&self.favicon),
        });
        r.push(FileWrite {
            path: layout::output_file(self.root.as_str(), "static/img/logo.png"),
            contents: clone_bytes(&self.logo),
        });
        r.push(FileWrite {
            path: layout::output_file(self.root.as_str(), "static/css/main.css"),
            contents: clone_bytes(&self.main_css),
        });
        r.push(FileWrite {
            path: layout::output_file(self.root.as_str(), "static/css/highlight.css"),
            contents: clone_bytes(&self.highlight_css),
        });
        r.push(FileWrite {
            path: layout::output_file(self.root.as_str(), "static/js/main.js"),
            contents: clone_bytes(&self.main_js),
        });
        r.push(FileWrite {
            path: layout::output_file(self.root.as_str(), "static/js/highlight.js"),
            contents: clone_bytes(&self.highlight_js),
        });
        r
    }

    /// Project root this store was constructed with.
    pub fn root(&self) -> (r: &str)
        ensures
            r@ == self@.root,
    {
        self.root.as_str()
    }

    /// Name of the resolved theme; empty while the store is unresolved.
    pub fn name(&self) -> (r: &str)
        ensures
            r@ == self@.name,
    {
        self.name.as_str()
    }

    /// The favicon image slot.
    pub fn favicon(&self) -> (r: &Vec<u8>)
        ensures
            r@ == self@.favicon,
    {
        &self.favicon
    }

    /// The logo image slot.
    pub fn logo(&self) -> (r: &Vec<u8>)
        ensures
            r@ == self@.logo,
    {
        &self.logo
    }

    /// The main stylesheet slot.
    pub fn main_css(&self) -> (r: &Vec<u8>)
        ensures
            r@ == self@.main_css,
    {
        &self.main_css
    }

    /// The syntax-highlight stylesheet slot.
    pub fn highlight_css(&self) -> (r: &Vec<u8>)
        ensures
            r@ == self@.highlight_css,
    {
        &self.highlight_css
    }

    /// The main script slot.
    pub fn main_js(&self) -> (r: &Vec<u8>)
        ensures
            r@ == self@.main_js,
    {
        &self.main_js
    }

    /// The syntax-highlight script slot.
    pub fn highlight_js(&self) -> (r: &Vec<u8>)
        ensures
            r@ == self@.highlight_js,
    {
        &self.highlight_js
    }

    /// The base layout template slot.
    pub fn base(&self) -> (r: &Vec<u8>)
        ensures
            r@ == self@.base,
    {
        &self.base
    }

    /// The index-page template slot.
    pub fn index(&self) -> (r: &Vec<u8>)
        ensures
            r@ == self@.index,
    {
        &self.index
    }

    /// The single-post template slot.
    pub fn post(&self) -> (r: &Vec<u8>)
        ensures
            r@ == self@.post,
    {
        &self.post
    }

    /// The tag-listing template slot.
    pub fn tag(&self) -> (r: &Vec<u8>)
        ensures
            r@ == self@.tag,
    {
        &self.tag
    }
}

/// Law: materializing a resolved store as a source tree and resolving
/// that theme again from exactly the files the plan wrote reproduces the
/// store, byte for byte, under the same root.
pub proof fn lemma_source_round_trip(plan: Seq<FileWrite>, v: ThemeView)
    requires
        is_source_plan(plan, v),
    ensures
        resolved_theme(v.root, v.name, planned_files(plan)) == v,
{
    assert(resolved_theme(v.root, v.name, planned_files(plan)) =~= v);
}

/// Law: the source write plan is a function of the store alone, so
/// materializing the same resolved store twice plans exactly the same
/// files with the same bytes; a second materialization can change
/// nothing the first has written.
pub proof fn lemma_source_plan_deterministic(p1: Seq<FileWrite>, p2: Seq<FileWrite>, v: ThemeView)
    requires
        is_source_plan(p1, v),
        is_source_plan(p2, v),
    ensures
        p1.len() == p2.len(),
        forall|i: int| 0 <= i < p1.len() ==> (#[trigger] p1[i])@ == p2[i]@,
{
    assert forall|i: int| 0 <= i < p1.len() implies (#[trigger] p1[i])@ == p2[i]@ by {
        if i == 0 {
            assert(p1[0]@ =~= p2[0]@);
        } else if i == 1 {
            assert(p1[1]@ =~= p2[1]@);
        } else if i == 2 {
            assert(p1[2]@ =~= p2[2]@);
        } else if i == 3 {
            assert(p1[3]@ =~= p2[3]@);
        } else if i == 4 {
            assert(p1[4]@ =~= p2[4]@);
        } else if i == 5 {
            assert(p1[5]@ =~= p2[5]@);
        } else if i == 6 {
            assert(p1[6]@ =~= p2[6]@);
        } else if i == 7 {
            assert(p1[7]@ =~= p2[7]@);
        } else if i == 8 {
            assert(p1[8]@ =~= p2[8]@);
        } else {
            assert(p1[9]@ =~= p2[9]@);
        }
    }
}

/// A prefix stays a prefix under a common left extension.
proof fn lemma_prefix_extend(p: Seq<char>, a: Seq<char>, b: Seq<char>)
    requires
        a.is_prefix_of(b),
    ensures
        (p + a).is_prefix_of(p + b),
{
    assert((p + a) =~= (p + b).subrange(0, (p + a).len() as int));
}

/// Two extensions of a common stem that part at their first character
/// never prefix one another.
proof fn lemma_prefix_differs(p: Seq<char>, a: Seq<char>, b: Seq<char>)
    requires
        0 < a.len(),
        0 < b.len(),
        a[0] != b[0],
    ensures
        !((p + a).is_prefix_of(p + b)),
{
    if (p + a).is_prefix_of(p + b) {
        assert((p + a)[p.len() as int] == (p + b).subrange(0, (p + a).len() as int)[p.len() as int]);
        assert(false);
    }
}

/// Both scope facts for one static asset of the build output: its path
/// is below `root/_builds/static/` and not below `root/_builds/templates/`.
proof fn lemma_build_path_scope(root: Seq<char>, rel: Seq<char>)
    requires
        "static/"@.is_prefix_of(rel),
    ensures
        (root + "/_builds/static/"@).is_prefix_of(root + "/_builds/"@ + rel),
        !((root + "/_builds/templates/"@).is_prefix_of(root + "/_builds/"@ + rel)),
{
    reveal_strlit("static/");
    reveal_strlit("templates/");
    reveal_strlit("/_builds/");
    reveal_strlit("/_builds/static/");
    reveal_strlit("/_builds/templates/");
    let stem = root + "/_builds/"@;
    assert(root + "/_builds/static/"@ =~= stem + "static/"@);
    assert(root + "/_builds/templates/"@ =~= stem + "templates/"@);
    lemma_prefix_extend(stem, "static/"@, rel);
    assert(rel[0] == rel.subrange(0, "static/"@.len() as int)[0]);
    lemma_prefix_differs(stem, "templates/"@, rel);
}

/// Law: a build-output plan stays inside the static subtree. Every one
/// of its six writes lands below `root/_builds/static/`, and none below
/// `root/_builds/templates/`: exporting the static assets can never touch
/// a template file.
pub proof fn lemma_output_plan_static_only(plan: Seq<FileWrite>, v: ThemeView)
    requires
        is_output_plan(plan, v),
    ensures
        plan.len() == 6,
        forall|i: int| 0 <= i < plan.len() ==> (v.root + "/_builds/static/"@).is_prefix_of(
            (#[trigger] plan[i])@.path,
        ),
        forall|i: int| 0 <= i < plan.len() ==> !((v.root + "/_builds/templates/"@).is_prefix_of(
            (#[trigger] plan[i])@.path,
        )),
{
    reveal_strlit("static/");
    reveal_strlit("static/img/favicon.png");
    reveal_strlit("static/img/logo.png");
    reveal_strlit("static/css/main.css");
    reveal_strlit("static/css/highlight.css");
    reveal_strlit("static/js/main.js");
    reveal_strlit("static/js/highlight.js");
    assert("static/"@.is_prefix_of("static/img/favicon.png"@)) by {
        assert("static/"@ =~= "static/img/favicon.png"@.subrange(0, 7));
    }
    assert("static/"@.is_prefix_of("static/img/logo.png"@)) by {
        assert("static/"@ =~= "static/img/logo.png"@.subrange(0, 7));
    }
    assert("static/"@.is_prefix_of("static/css/main.css"@)) by {
        assert("static/"@ =~= "static/css/main.css"@.subrange(0, 7));
    }
    assert("static/"@.is_prefix_of("static/css/highlight.css"@)) by {
        assert("static/"@ =~= "static/css/highlight.css"@.subrange(0, 7));
    }
    assert("static/"@.is_prefix_of("static/js/main.js"@)) by {
        assert("static/"@ =~= "static/js/main.js"@.subrange(0, 7));
    }
    assert("static/"@.is_prefix_of("static/js/highlight.js"@)) by {
        assert("static/"@ =~= "static/js/highlight.js"@.subrange(0, 7));
    }
    lemma_build_path_scope(v.root, "static/img/favicon.png"@);
    lemma_build_path_scope(v.root, "static/img/logo.png"@);
    lemma_build_path_scope(v.root, "static/css/main.css"@);
    lemma_build_path_scope(v.root, "static/css/highlight.css"@);
    lemma_build_path_scope(v.root, "static/js/main.js"@);
    lemma_build_path_scope(v.root, "static/js/highlight.js"@);
    assert forall|i: int| 0 <= i < plan.len() implies (v.root + "/_builds/static/"@).is_prefix_of(
        (#[trigger] plan[i])@.path,
    ) && !((v.root + "/_builds/templates/"@).is_prefix_of(plan[i]@.path)) by {
        if i == 0 {
        } else if i == 1 {
        } else if i == 2 {
        } else if i == 3 {
        } else if i == 4 {
        } else {
            assert(i == 5);
        }
    }
}

} // verus!
