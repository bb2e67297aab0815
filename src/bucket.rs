//! Groups of related input files, processed together under one output
//! folder.
use vstd::prelude::*;

verus! {

/// A group: its title, its sidecar files and its media files, as paths.
#[derive(Debug, Clone)]
pub struct Bucket {
    folder_title: String,
    xml_files: Vec<String>,
    video_files: Vec<String>,
}

/// Mathematical view of a [`Bucket`].
pub struct BucketView {
    pub title: Seq<char>,
    pub xml: Seq<Seq<char>>,
    pub video: Seq<Seq<char>>,
}

pub open spec fn path_texts(v: Seq<String>) -> Seq<Seq<char>> {
    v.map_values(|s: String| s@)
}

impl View for Bucket {
    type V = BucketView;

    closed spec fn view(&self) -> BucketView {
        BucketView {
            title: self.folder_title@,
            xml: path_texts(self.xml_files@),
            video: path_texts(self.video_files@),
        }
    }
}

pub open spec fn bucket_views(v: Seq<Bucket>) -> Seq<BucketView> {
    v.map_values(|b: Bucket| b@)
}

impl Bucket {
    pub fn new(folder_title: String, xml_files: Vec<String>, video_files: Vec<String>) -> (r: Self)
        ensures
            r@ == (BucketView {
                title: folder_title@,
                xml: path_texts(xml_files@),
                video: path_texts(video_files@),
            }),
    {
        Bucket { folder_title, xml_files, video_files }
    }

    pub fn title(&self) -> (r: String)
        ensures
            r@ == self@.title,
    {
        self.folder_title.clone()
    }

    pub fn xml_files(&self) -> (r: &Vec<String>)
        ensures
            path_texts(r@) == self@.xml,
    {
        &self.xml_files
    }

    pub fn video_files(&self) -> (r: &Vec<String>)
        ensures
            path_texts(r@) == self@.video,
    {
        &self.video_files
    }

    pub fn into_parts(self) -> (r: (String, Vec<String>, Vec<String>))
        ensures
            r.0@ == self@.title,
            path_texts(r.1@) == self@.xml,
            path_texts(r.2@) == self@.video,
    {
        (self.folder_title, self.xml_files, self.video_files)
    }
}

} // verus!
