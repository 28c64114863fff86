//! One volume of a book and its divider page.

use vstd::prelude::*;
use vstd::string::StringExecFns;
use crate::epub::chapter::{Chapter, ChapterView};

verus! {

/// A volume: its position, its cover, its divider page and its chapters.
#[derive(Debug, Clone)]
pub struct Volume {
    /// Position within the book, counted from 1.
    pub index: usize,
    pub cover: Option<String>,
    pub chapters: Vec<Chapter>,
    /// The divider page that opens the volume.
    pub cover_chapter: Chapter,
}

/// What a volume holds, as plain values.
pub struct VolumeView {
    pub index: nat,
    pub cover: Option<Seq<char>>,
    pub chapters: Seq<ChapterView>,
    pub cover_chapter: ChapterView,
}

impl View for Volume {
    type V = VolumeView;

    open spec fn view(&self) -> VolumeView {
        VolumeView {
            index: self.index as nat,
            cover: self.cover.deep_view(),
            chapters: self.chapters.deep_view(),
            cover_chapter: self.cover_chapter@,
        }
    }
}

impl DeepView for Volume {
    type V = VolumeView;

    open spec fn deep_view(&self) -> VolumeView {
        self@
    }
}

/// The divider page of a volume titled `title`, with its cover image if it
/// has one.
pub open spec fn cover_page(title: Seq<char>, cover: Option<Seq<char>>) -> Seq<char> {
    r#"<?xml version="1.0" encoding="UTF-8"?>
<!DOCTYPE html PUBLIC "-//W3C//DTD XHTML 1.1//EN" "http://www.w3.org/TR/xhtml11/DTD/xhtml11.dtd">
<html xmlns="http://www.w3.org/1999/xhtml">
<head>
    <title>"#@
        + title + r#"</title>
    <meta http-equiv="Content-Type" content="text/html; charset=UTF-8"/>
</head>
<body>
    <div class="cover">
        <h1>"#@ + title + r#"</h1>
"#@ + (match cover {
        Some(name) => "        <img src=\"../images/"@ + name
            + "\" alt=\"封面\" class=\"volume-cover-img\"/>\n"@,
        None => Seq::empty(),
    }) + r#"    </div>
</body>
</html>"#@
}

impl Volume {
    /// The divider page of this volume.
    pub fn cover_html(&self) -> (page: String)
        ensures
            page@ == cover_page(self@.cover_chapter.title, self@.cover),
    {
        let mut page = String::new();
        page.append(
            r#"<?xml version="1.0" encoding="UTF-8"?>
<!DOCTYPE html PUBLIC "-//W3C//DTD XHTML 1.1//EN" "http://www.w3.org/TR/xhtml11/DTD/xhtml11.dtd">
<html xmlns="http://www.w3.org/1999/xhtml">
<head>
    <title>"#,
        );
        page.append(self.cover_chapter.title.as_str());
        page.append(
            r#"</title>
    <meta http-equiv="Content-Type" content="text/html; charset=UTF-8"/>
</head>
<body>
    <div class="cover">
        <h1>"#,
        );
        page.append(self.cover_chapter.title.as_str());
        page.append(r#"</h1>
"#);
        let ghost head = page@;
        match &self.cover {
            Some(name) => {
                page.append("        <img src=\"../images/");
                page.append(name.as_str());
                page.append("\" alt=\"封面\" class=\"volume-cover-img\"/>\n");
                assert(page@ == head + ("        <img src=\"../images/"@ + name@
                    + "\" alt=\"封面\" class=\"volume-cover-img\"/>\n"@));
            },
            None => {
                assert(page@ == head + Seq::<char>::empty());
            },
        }
        page.append(r#"    </div>
</body>
</html>"#);
        page
    }
}

} // verus!
