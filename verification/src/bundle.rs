//! The built-in default theme bundle.
//!
//! The store must be able to resolve the reserved theme name with no
//! filesystem access at all, so a small fixed payload for each of the ten
//! slots is compiled into the library. The exact bytes are pinned by the
//! spec functions below; the text payloads are ASCII, written out as byte
//! values.

use crate::files::ThemeFiles;
use crate::files::ThemeFilesView;
use vstd::prelude::*;

verus! {

pub open spec fn simple_favicon() -> Seq<u8> {
    seq![0x89u8, 0x50u8, 0x4eu8, 0x47u8]
}

pub open spec fn simple_logo() -> Seq<u8> {
    seq![0x89u8, 0x50u8, 0x4eu8, 0x47u8, 0x21u8]
}

/// "body{}"
pub open spec fn simple_main_css() -> Seq<u8> {
    seq![0x62u8, 0x6fu8, 0x64u8, 0x79u8, 0x7bu8, 0x7du8]
}

/// "pre{}"
pub open spec fn simple_highlight_css() -> Seq<u8> {
    seq![0x70u8, 0x72u8, 0x65u8, 0x7bu8, 0x7du8]
}

/// "run()"
pub open spec fn simple_main_js() -> Seq<u8> {
    seq![0x72u8, 0x75u8, 0x6eu8, 0x28u8, 0x29u8]
}

/// "hl()"
pub open spec fn simple_highlight_js() -> Seq<u8> {
    seq![0x68u8, 0x6cu8, 0x28u8, 0x29u8]
}

/// "[base]"
pub open spec fn simple_base() -> Seq<u8> {
    seq![0x5bu8, 0x62u8, 0x61u8, 0x73u8, 0x65u8, 0x5du8]
}

/// "[index]"
pub open spec fn simple_index() -> Seq<u8> {
    seq![0x5bu8, 0x69u8, 0x6eu8, 0x64u8, 0x65u8, 0x78u8, 0x5du8]
}

/// "[post]"
pub open spec fn simple_post() -> Seq<u8> {
    seq![0x5bu8, 0x70u8, 0x6fu8, 0x73u8, 0x74u8, 0x5du8]
}

/// "[tag]"
pub open spec fn simple_tag() -> Seq<u8> {
    seq![0x5bu8, 0x74u8, 0x61u8, 0x67u8, 0x5du8]
}

/// All ten slots of the built-in bundle.
pub open spec fn simple_files_view() -> ThemeFilesView {
    ThemeFilesView {
        favicon: simple_favicon(),
        logo: simple_logo(),
        main_css: simple_main_css(),
        highlight_css: simple_highlight_css(),
        main_js: simple_main_js(),
        highlight_js: simple_highlight_js(),
        base: simple_base(),
        index: simple_index(),
        post: simple_post(),
        tag: simple_tag(),
    }
}

fn favicon_bytes() -> (r: Vec<u8>)
    ensures
        r@ == simple_favicon(),
{
    let mut r: Vec<u8> = Vec::new();
    r.push(0x89);
    r.push(0x50);
    r.push(0x4e);
    r.push(0x47);
    proof {
        assert(r@ =~= simple_favicon());
    }
    r
}

fn logo_bytes() -> (r: Vec<u8>)
    ensures
        r@ == simple_logo(),
{
    let mut r: Vec<u8> = Vec::new();
    r.push(0x89);
    r.push(0x50);
    r.push(0x4e);
    r.push(0x47);
    r.push(0x21);
    proof {
        assert(r@ =~= simple_logo());
    }
    r
}

fn main_css_bytes() -> (r: Vec<u8>)
    ensures
        r@ == simple_main_css(),
{
    let mut r: Vec<u8> = Vec::new();
    r.push(0x62);
    r.push(0x6f);
    r.push(0x64);
    r.push(0x79);
    r.push(0x7b);
    r.push(0x7d);
    proof {
        assert(r@ =~= simple_main_css());
    }
    r
}

fn highlight_css_bytes() -> (r: Vec<u8>)
    ensures
        r@ == simple_highlight_css(),
{
    let mut r: Vec<u8> = Vec::new();
    r.push(0x70);
    r.push(0x72);
    r.push(0x65);
    r.push(0x7b);
    r.push(0x7d);
    proof {
        assert(r@ =~= simple_highlight_css());
    }
    r
}

fn main_js_bytes() -> (r: Vec<u8>)
    ensures
        r@ == simple_main_js(),
{
    let mut r: Vec<u8> = Vec::new();
    r.push(0x72);
    r.push(0x75);
    r.push(0x6e);
    r.push(0x28);
    r.push(0x29);
    proof {
        assert(r@ =~= simple_main_js());
    }
    r
}

fn highlight_js_bytes() -> (r: Vec<u8>)
    ensures
        r@ == simple_highlight_js(),
{
    let mut r: Vec<u8> = Vec::new();
    r.push(0x68);
    r.push(0x6c);
    r.push(0x28);
    r.push(0x29);
    proof {
        assert(r@ =~= simple_highlight_js());
    }
    r
}

fn base_bytes() -> (r: Vec<u8>)
    ensures
        r@ == simple_base(),
{
    let mut r: Vec<u8> = Vec::new();
    r.push(0x5b);
    r.push(0x62);
    r.push(0x61);
    r.push(0x73);
    r.push(0x65);
    r.push(0x5d);
    proof {
        assert(r@ =~= simple_base());
    }
    r
}

fn index_bytes() -> (r: Vec<u8>)
    ensures
        r@ == simple_index(),
{
    let mut r: Vec<u8> = Vec::new();
    r.push(0x5b);
    r.push(0x69);
    r.push(0x6e);
    r.push(0x64);
    r.push(0x65);
    r.push(0x78);
    r.push(0x5d);
    proof {
        assert(r@ =~= simple_index());
    }
    r
}

fn post_bytes() -> (r: Vec<u8>)
    ensures
        r@ == simple_post(),
{
    let mut r: Vec<u8> = Vec::new();
    r.push(0x5b);
    r.push(0x70);
    r.push(0x6f);
    r.push(0x73);
    r.push(0x74);
    r.push(0x5d);
    proof {
        assert(r@ =~= simple_post());
    }
    r
}

fn tag_bytes() -> (r: Vec<u8>)
    ensures
        r@ == simple_tag(),
{
    let mut r: Vec<u8> = Vec::new();
    r.push(0x5b);
    r.push(0x74);
    r.push(0x61);
    r.push(0x67);
    r.push(0x5d);
    proof {
        assert(r@ =~= simple_tag());
    }
    r
}

/// Builds the whole built-in bundle in memory.
pub fn simple_files() -> (r: ThemeFiles)
    ensures
        r@ == simple_files_view(),
{
    ThemeFiles {
        favicon: favicon_bytes(),
        logo: logo_bytes(),
        main_css: main_css_bytes(),
        highlight_css: highlight_css_bytes(),
        main_js: main_js_bytes(),
        highlight_js: highlight_js_bytes(),
        base: base_bytes(),
        index: index_bytes(),
        post: post_bytes(),
        tag: tag_bytes(),
    }
}

} // verus!
