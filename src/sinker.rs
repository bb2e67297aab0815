//! Grouping of input files: each file carries the title of its group (its
//! recording session); sidecar (`xml`) and media (`mp4`) files are routed
//! into their group, every other file is dropped.
use vstd::prelude::*;

use crate::bucket::{bucket_views, path_texts, Bucket, BucketView};
use crate::converter::titles_unique;

verus! {

/// The session letter for a recording made at `hour` on `weekday`
/// (0 is Monday): mornings are `A`, afternoons `B`, evenings `C`, except on
/// Wednesdays, whose evening belongs to `B`; other hours have none.
pub open spec fn session_text(weekday: u32, hour: u32) -> Seq<char> {
    if 17 <= hour <= 20 && weekday == 2 {
        "B"@
    } else if 8 <= hour <= 11 {
        "A"@
    } else if 13 <= hour <= 16 {
        "B"@
    } else if 17 <= hour < 20 {
        "C"@
    } else {
        ""@
    }
}

pub fn session_letter(weekday: u32, hour: u32) -> (r: &'static str)
    ensures
        r@ == session_text(weekday, hour),
{
    if 17 <= hour && hour <= 20 && weekday == 2 {
        "B"
    } else if 8 <= hour && hour <= 11 {
        "A"
    } else if 13 <= hour && hour <= 16 {
        "B"
    } else if 17 <= hour && hour < 20 {
        "C"
    } else {
        ""
    }
}

/// One input file with the title of its group and its lowercased extension.
pub struct SinkEntry {
    pub title: String,
    pub path: String,
    pub extension: String,
}

pub struct EntryView {
    pub title: Seq<char>,
    pub path: Seq<char>,
    pub extension: Seq<char>,
}

impl View for SinkEntry {
    type V = EntryView;

    open spec fn view(&self) -> EntryView {
        EntryView { title: self.title@, path: self.path@, extension: self.extension@ }
    }
}

pub open spec fn entry_views(v: Seq<SinkEntry>) -> Seq<EntryView> {
    v.map_values(|e: SinkEntry| e@)
}

/// Group titles in order of first appearance.
pub open spec fn first_titles(es: Seq<EntryView>) -> Seq<Seq<char>>
    decreases es.len(),
{
    if es.len() == 0 {
        Seq::empty()
    } else {
        let t = first_titles(es.drop_last());
        if t.contains(es.last().title) {
            t
        } else {
            t.push(es.last().title)
        }
    }
}

/// Paths of the files of group `title` with extension `ext`, in input order.
pub open spec fn paths_where(es: Seq<EntryView>, title: Seq<char>, ext: Seq<char>) -> Seq<
    Seq<char>,
>
    decreases es.len(),
{
    if es.len() == 0 {
        Seq::empty()
    } else {
        let rest = paths_where(es.drop_last(), title, ext);
        if es.last().title == title && es.last().extension == ext {
            rest.push(es.last().path)
        } else {
            rest
        }
    }
}

/// The groups of a list of entries: one per title, in order of first
/// appearance, each with its sidecar and media paths in input order.
pub open spec fn groups_of(es: Seq<EntryView>) -> Seq<BucketView> {
    first_titles(es).map_values(
        |t: Seq<char>|
            BucketView { title: t, xml: paths_where(es, t, "xml"@), video: paths_where(es, t, "mp4"@) },
    )
}

proof fn lemma_first_titles_unique(es: Seq<EntryView>)
    ensures
        first_titles(es).no_duplicates(),
    decreases es.len(),
{
    if es.len() > 0 {
        lemma_first_titles_unique(es.drop_last());
    }
}

fn position(titles: &Vec<String>, t: &String) -> (r: Option<usize>)
    ensures
        match r {
            Some(j) => j < titles@.len() && titles@[j as int]@ == t@,
            None => forall|k: int| 0 <= k < titles@.len() ==> (#[trigger] titles@[k])@ != t@,
        },
{
    let mut j: usize = 0;
    while j < titles.len()
        invariant
            j <= titles@.len(),
            forall|k: int| 0 <= k < j ==> (#[trigger] titles@[k])@ != t@,
        decreases titles.len() - j,
    {
        if titles[j] == *t {
            return Some(j);
        }
        j = j + 1;
    }
    None
}

fn is_text(s: &String, lit: &str) -> (r: bool)
    ensures
        r == (s@ == lit@),
{
    let l = lit.to_owned();
    *s == l
}

pub struct Sinker;

impl Sinker {
    /// Groups `entries` by title.
    pub fn sink(entries: Vec<SinkEntry>) -> (r: Vec<Bucket>)
        ensures
            bucket_views(r@) == groups_of(entry_views(entries@)),
            titles_unique(bucket_views(r@)),
    {
        proof {
            reveal_strlit("xml");
            reveal_strlit("mp4");
        }
        let ghost es = entry_views(entries@);
        let mut titles: Vec<String> = Vec::new();
        let mut xmls: Vec<Vec<String>> = Vec::new();
        let mut videos: Vec<Vec<String>> = Vec::new();
        let mut i: usize = 0;
        assert(path_texts(titles@) =~= first_titles(es.subrange(0, 0)));
        while i < entries.len()
            invariant
                i <= entries.len(),
                es == entry_views(entries@),
                titles@.len() == xmls@.len() && titles@.len() == videos@.len(),
                path_texts(titles@) == first_titles(es.subrange(0, i as int)),
                forall|k: int|
                    0 <= k < titles@.len() ==> path_texts(#[trigger] xmls@[k]@) == paths_where(
                        es.subrange(0, i as int),
                        titles@[k]@,
                        "xml"@,
                    ) && path_texts(videos@[k]@) == paths_where(
                        es.subrange(0, i as int),
                        titles@[k]@,
                        "mp4"@,
                    ),
            decreases entries.len() - i,
        {
            let ghost prev = es.subrange(0, i as int);
            let ghost next = es.subrange(0, i + 1);
            let ghost old_titles = titles@;
            let ghost old_xmls = xmls@;
            let ghost old_videos = videos@;
            assert(next.drop_last() =~= prev);
            assert(next.last() == entries@[i as int]@);
            proof {
                lemma_first_titles_unique(prev);
            }
            let e = &entries[i];
            let j = match position(&titles, &e.title) {
                Some(j) => {
                    assert(first_titles(prev)[j as int] == e.title@);
                    j
                },
                None => {
                    assert(!first_titles(prev).contains(e.title@)) by {
                        if first_titles(prev).contains(e.title@) {
                            let k = choose|k: int|
                                0 <= k < first_titles(prev).len() && first_titles(prev)[k]
                                    == e.title@;
                            assert(titles@[k]@ == e.title@);
                        }
                    }
                    titles.push(e.title.clone());
                    xmls.push(Vec::new());
                    videos.push(Vec::new());
                    assert(path_texts(titles@) =~= first_titles(next));
                    assert(path_texts(xmls@[titles@.len() - 1]@) =~= paths_where(
                        prev,
                        e.title@,
                        "xml"@,
                    )) by {
                        lemma_paths_absent(prev, e.title@, "xml"@);
                    }
                    assert(path_texts(videos@[titles@.len() - 1]@) =~= paths_where(
                        prev,
                        e.title@,
                        "mp4"@,
                    )) by {
                        lemma_paths_absent(prev, e.title@, "mp4"@);
                    }
                    titles.len() - 1
                },
            };
            assert("xml"@ != "mp4"@) by {
                reveal_strlit("xml");
                reveal_strlit("mp4");
                assert("xml"@[0] != "mp4"@[0]);
            }
            if is_text(&e.extension, "xml") {
                xmls[j].push(e.path.clone());
            } else if is_text(&e.extension, "mp4") {
                videos[j].push(e.path.clone());
            }
            assert(path_texts(titles@) =~= first_titles(next));
            assert forall|k: int| 0 <= k < titles@.len() implies path_texts(
                #[trigger] xmls@[k]@,
            ) == paths_where(next, titles@[k]@, "xml"@) && path_texts(videos@[k]@) == paths_where(
                next,
                titles@[k]@,
                "mp4"@,
            ) by {
                if k == j {
                    assert(path_texts(xmls@[k]@) =~= paths_where(next, titles@[k]@, "xml"@));
                    assert(path_texts(videos@[k]@) =~= paths_where(next, titles@[k]@, "mp4"@));
                } else {
                    assert(titles@[k]@ != e.title@) by {
                        lemma_first_titles_unique(next);
                        assert(path_texts(titles@)[k] == titles@[k]@);
                        assert(path_texts(titles@)[j as int] == titles@[j as int]@);
                    }
                    assert(k < old_titles.len());
                    assert(titles@[k] == old_titles[k]);
                    assert(xmls@[k] == old_xmls[k]);
                    assert(videos@[k] == old_videos[k]);
                    assert(path_texts(old_xmls[k]@) == paths_where(prev, old_titles[k]@, "xml"@));
                    assert(path_texts(old_videos[k]@) == paths_where(prev, old_titles[k]@, "mp4"@));
                    assert(paths_where(next, titles@[k]@, "xml"@) == paths_where(
                        prev,
                        titles@[k]@,
                        "xml"@,
                    ));
                    assert(paths_where(next, titles@[k]@, "mp4"@) == paths_where(
                        prev,
                        titles@[k]@,
                        "mp4"@,
                    ));
                }
            }
            i = i + 1;
        }
        let ghost groups = groups_of(es);
        let ghost n = titles@.len();
        assert(es.subrange(0, i as int) =~= es);
        let mut buckets: Vec<Bucket> = Vec::new();
        while titles.len() > 0
            invariant
                titles@.len() == xmls@.len() && titles@.len() == videos@.len(),
                titles@.len() <= n,
                n == groups.len(),
                groups == groups_of(es),
                forall|k: int|
                    0 <= k < titles@.len() ==> (#[trigger] titles@[k])@ == first_titles(es)[k],
                forall|k: int|
                    0 <= k < titles@.len() ==> path_texts(#[trigger] xmls@[k]@) == paths_where(
                        es,
                        titles@[k]@,
                        "xml"@,
                    ) && path_texts(videos@[k]@) == paths_where(es, titles@[k]@, "mp4"@),
                bucket_views(buckets@) == groups.subrange(titles@.len() as int, n as int),
            decreases titles@.len(),
        {
            let k = titles.len() - 1;
            assert(path_texts(titles@)[k as int] == titles@[k as int]@);
            let t = titles.pop().unwrap();
            let x = xmls.pop().unwrap();
            let v = videos.pop().unwrap();
            let b = Bucket::new(t, x, v);
            assert(b@ == groups[k as int]);
            let ghost before = bucket_views(buckets@);
            buckets.insert(0, b);
            assert(bucket_views(buckets@) =~= seq![groups[k as int]] + before);
            assert(bucket_views(buckets@) =~= groups.subrange(k as int, n as int));
        }
        proof {
            lemma_first_titles_unique(es);
        }
        assert(bucket_views(buckets@) =~= groups);
        buckets
    }
}

proof fn lemma_paths_absent(es: Seq<EntryView>, title: Seq<char>, ext: Seq<char>)
    requires
        !first_titles(es).contains(title),
    ensures
        paths_where(es, title, ext) == Seq::<Seq<char>>::empty(),
    decreases es.len(),
{
    if es.len() > 0 {
        let t = first_titles(es.drop_last());
        assert(!t.contains(title)) by {
            if t.contains(title) {
                let k = choose|k: int| 0 <= k < t.len() && t[k] == title;
                assert(first_titles(es)[k] == title);
            }
        }
        if es.last().title == title {
            assert(first_titles(es).contains(title)) by {
                if !t.contains(es.last().title) {
                    assert(first_titles(es)[t.len() as int] == title);
                }
            }
        }
        lemma_paths_absent(es.drop_last(), title, ext);
    }
}

} // verus!
