//! One chapter of a book.

use vstd::prelude::*;

verus! {

/// A chapter: where it comes from, where it is written, and the images saved
/// for it.
#[derive(Debug, Clone)]
pub struct Chapter {
    /// Position within its container, counted from 1; 0 for a volume's
    /// divider page.
    pub index: usize,
    pub title: String,
    pub url: String,
    /// Whether images were saved for this chapter.
    pub has_illustrations: bool,
    /// File names of the images saved for this chapter, in the order found.
    pub images: Vec<String>,
    pub filename: String,
}

/// What a chapter holds, as plain values.
pub struct ChapterView {
    pub index: nat,
    pub title: Seq<char>,
    pub url: Seq<char>,
    pub has_illustrations: bool,
    pub images: Seq<Seq<char>>,
    pub filename: Seq<char>,
}

impl View for Chapter {
    type V = ChapterView;

    open spec fn view(&self) -> ChapterView {
        ChapterView {
            index: self.index as nat,
            title: self.title@,
            url: self.url@,
            has_illustrations: self.has_illustrations,
            images: self.images.deep_view(),
            filename: self.filename@,
        }
    }
}

impl DeepView for Chapter {
    type V = ChapterView;

    open spec fn deep_view(&self) -> ChapterView {
        self@
    }
}

impl Chapter {
    /// A chapter without images yet.
    pub fn new(index: usize, title: String, url: String, filename: String) -> (c: Chapter)
        ensures
            c@ == (ChapterView {
                index: index as nat,
                title: title@,
                url: url@,
                has_illustrations: false,
                images: Seq::empty(),
                filename: filename@,
            }),
    {
        let c = Chapter { index, title, url, has_illustrations: false, images: Vec::new(), filename };
        assert(c.images.deep_view() =~= Seq::empty());
        c
    }

    /// Records one more saved image.
    pub fn record_image(&mut self, image_name: String)
        ensures
            final(self)@ == (ChapterView {
                has_illustrations: true,
                images: old(self)@.images.push(image_name@),
                ..old(self)@
            }),
    {
        self.images.push(image_name);
        self.has_illustrations = true;
        assert(self.images.deep_view() =~= old(self).images.deep_view().push(image_name@));
    }

    /// A copy with the same content.
    pub fn duplicate(&self) -> (c: Chapter)
        ensures
            c@ == self@,
    {
        let images = self.images.clone();
        assert(images.deep_view() =~= self.images.deep_view());
        Chapter {
            index: self.index,
            title: self.title.clone(),
            url: self.url.clone(),
            has_illustrations: self.has_illustrations,
            images,
            filename: self.filename.clone(),
        }
    }
}

} // verus!
