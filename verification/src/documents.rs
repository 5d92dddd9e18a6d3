//! Documents behind narrow capabilities: a viewer can be read and searched,
//! an archive can only be read, and neither has to pretend to do more.
use vstd::prelude::*;
use vstd::string::StringSliceAdditionalSpecFns;
use vstd::utf8::{encode_utf8, is_char_boundary};

verus! {

#[derive(Debug)]
pub struct Metadata {
    pub title: String,
}

/// Can be read: it has a text and a title.
pub trait Readable {
    /// The document's text.
    spec fn content(&self) -> Seq<char>;

    /// The document's title.
    spec fn title(&self) -> Seq<char>;

    fn get_content(&self) -> (res: &str)
        ensures
            res@ == self.content(),
    ;

    fn get_metadata(&self) -> (res: &Metadata)
        ensures
            res.title@ == self.title(),
    ;
}

/// Can be searched for a text.
pub trait Searchable {
    /// The text that is searched.
    spec fn searched(&self) -> Seq<char>;

    /// The offsets at which `query` is found, in rising order. An offset
    /// counts the bytes of the text in UTF-8.
    fn search(&self, query: &str) -> (res: Vec<usize>)
        ensures
            offsets(res@) == match_positions(encode_utf8(self.searched()), encode_utf8(query@)),
    ;
}

/// `needle` stands in `hay` at the offset `at`.
pub open spec fn occurs_at(hay: Seq<u8>, needle: Seq<u8>, at: int) -> bool {
    &&& 0 <= at
    &&& at + needle.len() <= hay.len()
    &&& hay.subrange(at, at + needle.len()) == needle
}

/// The offsets, from `from` on, at which a non-empty `needle` is found in
/// `hay`, read from left to right: the leftmost occurrence counts, and the
/// search goes on behind its end, so that no two matches overlap.
pub open spec fn matches_from(hay: Seq<u8>, needle: Seq<u8>, from: int) -> Seq<int>
    decreases hay.len() - from,
{
    if needle.len() == 0 || from < 0 || from + needle.len() > hay.len() {
        Seq::<int>::empty()
    } else if occurs_at(hay, needle, from) {
        seq![from] + matches_from(hay, needle, from + needle.len())
    } else {
        matches_from(hay, needle, from + 1)
    }
}

/// The offsets, from `from` on, at which a character of `hay` begins, and
/// the offset of the end of `hay`.
pub open spec fn boundaries_from(hay: Seq<u8>, from: int) -> Seq<int>
    decreases hay.len() - from + 1,
{
    if from < 0 || from > hay.len() {
        Seq::<int>::empty()
    } else if is_char_boundary(hay, from) {
        seq![from] + boundaries_from(hay, from + 1)
    } else {
        boundaries_from(hay, from + 1)
    }
}

/// The offsets at which `needle` is found in `hay`. The empty text is found
/// before every character and at the end.
pub open spec fn match_positions(hay: Seq<u8>, needle: Seq<u8>) -> Seq<int> {
    if needle.len() == 0 {
        boundaries_from(hay, 0)
    } else {
        matches_from(hay, needle, 0)
    }
}

/// Every offset found is at or behind the start of the search, and the
/// text stands there.
pub proof fn lemma_matches_are_occurrences(hay: Seq<u8>, needle: Seq<u8>, from: int, k: int)
    requires
        0 <= k < matches_from(hay, needle, from).len(),
    ensures
        from <= matches_from(hay, needle, from)[k],
        occurs_at(hay, needle, matches_from(hay, needle, from)[k]),
    decreases hay.len() - from,
{
    if occurs_at(hay, needle, from) {
        if k > 0 {
            lemma_matches_are_occurrences(hay, needle, from + needle.len(), k - 1);
        }
    } else {
        lemma_matches_are_occurrences(hay, needle, from + 1, k);
    }
}

/// The offsets found rise, and no two matches overlap: each match begins at
/// or behind the end of the match before it.
pub proof fn lemma_matches_are_disjoint(hay: Seq<u8>, needle: Seq<u8>, from: int, k: int)
    requires
        0 <= k,
        k + 1 < matches_from(hay, needle, from).len(),
    ensures
        matches_from(hay, needle, from)[k] + needle.len() <= matches_from(hay, needle, from)[k
            + 1],
    decreases hay.len() - from,
{
    if occurs_at(hay, needle, from) {
        if k == 0 {
            lemma_matches_are_occurrences(hay, needle, from + needle.len(), 0);
        } else {
            lemma_matches_are_disjoint(hay, needle, from + needle.len(), k - 1);
        }
    } else {
        lemma_matches_are_disjoint(hay, needle, from + 1, k);
    }
}

/// No occurrence is passed over: wherever the text stands at or behind the
/// start of the search, a match is found there, or a match found before
/// that place reaches into it.
pub proof fn lemma_no_occurrence_is_missed(hay: Seq<u8>, needle: Seq<u8>, from: int, place: int)
    requires
        needle.len() > 0,
        0 <= from <= place,
        occurs_at(hay, needle, place),
    ensures
        exists|k: int|
            0 <= k < matches_from(hay, needle, from).len() && #[trigger] matches_from(
                hay,
                needle,
                from,
            )[k] <= place < matches_from(hay, needle, from)[k] + needle.len(),
    decreases hay.len() - from,
{
    let found = matches_from(hay, needle, from);
    if occurs_at(hay, needle, from) {
        let rest = matches_from(hay, needle, from + needle.len());
        if place < from + needle.len() {
            assert(found[0] <= place < found[0] + needle.len());
        } else {
            lemma_no_occurrence_is_missed(hay, needle, from + needle.len(), place);
            let k = choose|k: int|
                0 <= k < rest.len() && #[trigger] rest[k] <= place < rest[k] + needle.len();
            assert(found[k + 1] == rest[k]);
        }
    } else {
        lemma_no_occurrence_is_missed(hay, needle, from + 1, place);
    }
}

/// Offsets as integers.
pub open spec fn offsets(found: Seq<usize>) -> Seq<int> {
    Seq::new(found.len(), |i: int| found[i] as int)
}

/// Whether `needle` stands in `hay` at the offset `at`.
pub fn found_at(hay: &[u8], needle: &[u8], at: usize) -> (res: bool)
    requires
        at + needle@.len() <= hay@.len(),
    ensures
        res == occurs_at(hay@, needle@, at as int),
{
    let n = hay.len();
    let m = needle.len();
    let mut k: usize = 0;
    while k < m
        invariant
            k <= m,
            m == needle@.len(),
            n == hay@.len(),
            at + m <= n,
            forall|j: int| 0 <= j < k ==> hay@[at + j] == needle@[j],
        decreases m - k,
    {
        if hay[at + k] != needle[k] {
            return false;
        }
        k = k + 1;
    }
    assert(hay@.subrange(at as int, at + m) =~= needle@);
    true
}

/// The byte offsets at which `query` is found in `text`, in rising order.
pub fn find_all(text: &str, query: &str) -> (res: Vec<usize>)
    ensures
        offsets(res@) == match_positions(text.spec_bytes(), query.spec_bytes()),
{
    let hay = text.as_bytes();
    let needle = query.as_bytes();
    let n = hay.len();
    let m = needle.len();
    let mut found: Vec<usize> = Vec::new();
    let mut i: usize = 0;
    if m == 0 {
        while i < n
            invariant
                i <= n,
                n == hay@.len(),
                hay@ == text.spec_bytes(),
                offsets(found@) + boundaries_from(hay@, i as int) == boundaries_from(hay@, 0),
            decreases n - i,
        {
            let ghost before = offsets(found@);
            if text.is_char_boundary(i) {
                found.push(i);
                assert(offsets(found@) + boundaries_from(hay@, i + 1) =~= before
                    + boundaries_from(hay@, i as int));
            }
            i = i + 1;
        }
        assert(boundaries_from(hay@, n + 1) =~= Seq::<int>::empty());
        if text.is_char_boundary(n) {
            found.push(n);
        }
        found
    } else {
        assert(Seq::<int>::empty() + matches_from(hay@, needle@, 0) =~= matches_from(
            hay@,
            needle@,
            0,
        ));
        while m <= n && i <= n - m
            invariant
                n == hay@.len(),
                m == needle@.len(),
                m > 0,
                i <= n,
                offsets(found@) + matches_from(hay@, needle@, i as int) == matches_from(
                    hay@,
                    needle@,
                    0,
                ),
            decreases n - i,
        {
            let ghost before = offsets(found@);
            if found_at(hay, needle, i) {
                found.push(i);
                assert(offsets(found@) + matches_from(hay@, needle@, i + m) =~= before
                    + matches_from(hay@, needle@, i as int));
                i = i + m;
            } else {
                i = i + 1;
            }
        }
        found
    }
}

/// A document that can be read and searched and offers nothing else.
pub struct ReadOnlyViewer {
    content: String,
    metadata: Metadata,
}

impl ReadOnlyViewer {
    pub fn new(content: String, title: String) -> (res: Self)
        ensures
            res.content() == content@,
            res.title() == title@,
    {
        ReadOnlyViewer { content, metadata: Metadata { title } }
    }
}

impl Readable for ReadOnlyViewer {
    closed spec fn content(&self) -> Seq<char> {
        self.content@
    }

    closed spec fn title(&self) -> Seq<char> {
        self.metadata.title@
    }

    fn get_content(&self) -> (res: &str) {
        self.content.as_str()
    }

    fn get_metadata(&self) -> (res: &Metadata) {
        &self.metadata
    }
}

impl Searchable for ReadOnlyViewer {
    closed spec fn searched(&self) -> Seq<char> {
        self.content@
    }

    fn search(&self, query: &str) -> (res: Vec<usize>) {
        find_all(self.content.as_str(), query)
    }
}

/// A document kept for the record: it can be read, and that is all.
pub struct ArchiveDocument {
    content: String,
    metadata: Metadata,
}

impl ArchiveDocument {
    pub fn new(content: String, title: String) -> (res: Self)
        ensures
            res.content() == content@,
            res.title() == title@,
    {
        ArchiveDocument { content, metadata: Metadata { title } }
    }
}

impl Readable for ArchiveDocument {
    closed spec fn content(&self) -> Seq<char> {
        self.content@
    }

    closed spec fn title(&self) -> Seq<char> {
        self.metadata.title@
    }

    fn get_content(&self) -> (res: &str) {
        self.content.as_str()
    }

    fn get_metadata(&self) -> (res: &Metadata) {
        &self.metadata
    }
}

} // verus!
