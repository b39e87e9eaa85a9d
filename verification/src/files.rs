//! Value carriers that cross the store's boundary: the ten byte buffers of
//! a theme read from its source tree, and a single planned file write.

use vstd::prelude::*;

verus! {

/// The ten byte buffers of one theme, in the fixed slot layout:
/// six static assets followed by four page templates.
pub struct ThemeFiles {
    pub favicon: Vec<u8>,
    pub logo: Vec<u8>,
    pub main_css: Vec<u8>,
    pub highlight_css: Vec<u8>,
    pub main_js: Vec<u8>,
    pub highlight_js: Vec<u8>,
    pub base: Vec<u8>,
    pub index: Vec<u8>,
    pub post: Vec<u8>,
    pub tag: Vec<u8>,
}

/// Mathematical image of `ThemeFiles`: one byte sequence per slot.
#[verifier::ext_equal]
pub struct ThemeFilesView {
    pub favicon: Seq<u8>,
    pub logo: Seq<u8>,
    pub main_css: Seq<u8>,
    pub highlight_css: Seq<u8>,
    pub main_js: Seq<u8>,
    pub highlight_js: Seq<u8>,
    pub base: Seq<u8>,
    pub index: Seq<u8>,
    pub post: Seq<u8>,
    pub tag: Seq<u8>,
}

impl View for ThemeFiles {
    type V = ThemeFilesView;

    open spec fn view(&self) -> ThemeFilesView {
        ThemeFilesView {
            favicon: self.favicon@,
            logo: self.logo@,
            main_css: self.main_css@,
            highlight_css: self.highlight_css@,
            main_js: self.main_js@,
            highlight_js: self.highlight_js@,
            base: self.base@,
            index: self.index@,
            post: self.post@,
            tag: self.tag@,
        }
    }
}

/// One planned file write: the full destination path and the exact bytes
/// to put there.
pub struct FileWrite {
    pub path: String,
    pub contents: Vec<u8>,
}

/// Mathematical image of `FileWrite`.
#[verifier::ext_equal]
pub struct FileWriteView {
    pub path: Seq<char>,
    pub contents: Seq<u8>,
}

impl View for FileWrite {
    type V = FileWriteView;

    open spec fn view(&self) -> FileWriteView {
        FileWriteView { path: self.path@, contents: self.contents@ }
    }
}

} // verus!
