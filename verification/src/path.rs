//! Relative paths: alternating collection and document segments without a
//! database root. A `CollectionPath` is a collection identifier optionally
//! below a parent document path; a `DocumentPath` is always a document
//! identifier below a parent collection path. The view of either type is
//! its sequence of segment strings, so descending is a push, ascending is
//! a drop of the last segment, and appending a relative collection path
//! below a document path is plain concatenation of segments.
use vstd::prelude::*;

use crate::error::Error;
use crate::error::ErrorKind;
use crate::id::CollectionId;
use crate::id::DocumentId;
use crate::id::TryIntoDocumentId;
use crate::id::first_bad_seg;
use crate::id::lemma_first_bad_seg;
use crate::id::seg_err;
use crate::id::seg_ok;
use crate::id::segs_err;
use crate::id::segs_ok;
use crate::text::join_segs;
use crate::text::lemma_join_push;
use crate::text::lemma_split_join_inverse;
use crate::text::lemma_split_len;
use crate::text::lemma_split_slash_free;
use crate::text::split_all;
use crate::text::split_segs;
use crate::text::views_of_strings;

verus! {

/// A valid sequence of collection-path segments: an odd number of valid
/// identifier segments, alternating collection, document, collection, ...
pub open spec fn col_segs_ok(segs: Seq<Seq<char>>) -> bool {
    segs.len() % 2 == 1 && segs_ok(segs)
}

/// A valid sequence of document-path segments: an even number, at least
/// two, of valid identifier segments.
pub open spec fn doc_segs_ok(segs: Seq<Seq<char>>) -> bool {
    segs.len() % 2 == 0 && segs.len() >= 2 && segs_ok(segs)
}

/// The strings accepted as a collection path.
pub open spec fn collection_path_ok(s: Seq<char>) -> bool {
    col_segs_ok(split_segs(s))
}

/// The failure reported for a rejected collection path: an even segment
/// count bottoms out in a parentless document path, otherwise the leftmost
/// invalid segment decides.
pub open spec fn collection_path_err(s: Seq<char>) -> ErrorKind
    recommends
        !collection_path_ok(s),
{
    if split_segs(s).len() % 2 == 0 {
        ErrorKind::NotContainsSlash
    } else {
        segs_err(split_segs(s))
    }
}

/// The strings accepted as a document path.
pub open spec fn document_path_ok(s: Seq<char>) -> bool {
    doc_segs_ok(split_segs(s))
}

/// The failure reported for a rejected document path.
pub open spec fn document_path_err(s: Seq<char>) -> ErrorKind
    recommends
        !document_path_ok(s),
{
    if split_segs(s).len() % 2 == 1 {
        ErrorKind::NotContainsSlash
    } else {
        segs_err(split_segs(s))
    }
}

/// A relative collection path: `{collection_id}` or
/// `{document_path}/{collection_id}`.
#[derive(Debug)]
pub struct CollectionPath {
    document_path: Option<DocumentPath>,
    collection_id: CollectionId,
}

/// A relative document path: `{collection_path}/{document_id}`. A document
/// path always has a parent collection path.
#[derive(Debug)]
pub struct DocumentPath {
    collection_path: Box<CollectionPath>,
    document_id: DocumentId,
}

impl CollectionPath {
    /// The segment strings of this path, root first.
    pub closed spec fn segs(&self) -> Seq<Seq<char>>
        decreases self,
    {
        match self.document_path {
            Option::None => seq![self.collection_id@],
            Option::Some(dp) => dp.segs().push(self.collection_id@),
        }
    }
}

impl DocumentPath {
    /// The segment strings of this path, root first.
    pub closed spec fn segs(&self) -> Seq<Seq<char>>
        decreases self,
    {
        self.collection_path.segs().push(self.document_id@)
    }
}

impl View for CollectionPath {
    type V = Seq<Seq<char>>;

    closed spec fn view(&self) -> Seq<Seq<char>> {
        self.segs()
    }
}

impl View for DocumentPath {
    type V = Seq<Seq<char>>;

    closed spec fn view(&self) -> Seq<Seq<char>> {
        self.segs()
    }
}

/// A collection path has an odd number of segments, at least one.
pub proof fn lemma_collection_path_len(p: &CollectionPath)
    ensures
        p@.len() % 2 == 1,
        p@.len() >= 1,
    decreases p,
{
    match p.document_path {
        Option::None => {},
        Option::Some(dp) => {
            lemma_document_path_len(&dp);
        },
    }
}

/// A document path has an even number of segments, at least two.
pub proof fn lemma_document_path_len(p: &DocumentPath)
    ensures
        p@.len() % 2 == 0,
        p@.len() >= 2,
    decreases p,
{
    lemma_collection_path_len(&*p.collection_path);
}

/// The view of a collection path built from a parent and an identifier.
pub open spec fn collection_path_view_of(
    parent: Option<DocumentPath>,
    id: CollectionId,
) -> Seq<Seq<char>> {
    match parent {
        Option::None => seq![id@],
        Option::Some(d) => d@.push(id@),
    }
}

impl CollectionPath {
    /// The path satisfies its invariant: an odd number of valid segments.
    pub open spec fn wf(&self) -> bool {
        col_segs_ok(self@)
    }

    /// Combines an optional parent document path and a collection
    /// identifier into a collection path.
    pub fn new(parent: Option<DocumentPath>, collection_id: CollectionId) -> (r: CollectionPath)
        ensures
            r@ == collection_path_view_of(parent, collection_id),
            (collection_id.wf() && (parent matches Some(d) ==> d.wf())) ==> r.wf(),
    {
        proof {
            match &parent {
                Option::None => {},
                Option::Some(d) => {
                    lemma_document_path_len(d);
                    if collection_id.wf() && d.wf() {
                        let v = d@.push(collection_id@);
                        assert forall|i: int| 0 <= i < v.len() implies seg_ok(#[trigger] v[i]) by {
                            if i < d@.len() {
                                assert(v[i] == d@[i]);
                            }
                        }
                    }
                },
            }
        }
        CollectionPath { document_path: parent, collection_id }
    }

    /// The final collection identifier of this path.
    pub fn collection_id(&self) -> (r: &CollectionId)
        ensures
            r@ == self@.last(),
    {
        &self.collection_id
    }

    /// Descends into the document `document_id` of this collection,
    /// keeping this path as its parent.
    pub fn doc<T: TryIntoDocumentId>(&self, document_id: T) -> (r: Result<DocumentPath, Error>)
        requires
            document_id.arg_wf(),
        ensures
            r is Ok <==> seg_ok(document_id.arg_str()),
            r is Ok ==> r->Ok_0@ == self@.push(document_id.arg_str()),
            r is Ok && self.wf() ==> r->Ok_0.wf(),
            r is Err ==> r->Err_0.kind() == ErrorKind::DocumentIdConversion && r->Err_0.cause()
                == Some(seg_err(document_id.arg_str())),
    {
        self.clone().into_doc(document_id)
    }

    /// Descends into the document `document_id`, consuming this path.
    pub fn into_doc<T: TryIntoDocumentId>(self, document_id: T) -> (r: Result<DocumentPath, Error>)
        requires
            document_id.arg_wf(),
        ensures
            r is Ok <==> seg_ok(document_id.arg_str()),
            r is Ok ==> r->Ok_0@ == self@.push(document_id.arg_str()),
            r is Ok && self.wf() ==> r->Ok_0.wf(),
            r is Err ==> r->Err_0.kind() == ErrorKind::DocumentIdConversion && r->Err_0.cause()
                == Some(seg_err(document_id.arg_str())),
    {
        match document_id.try_into_document_id() {
            Ok(did) => {
                proof {
                    lemma_collection_path_len(&self);
                    if self.wf() {
                        let v = self@.push(did@);
                        assert forall|i: int| 0 <= i < v.len() implies seg_ok(#[trigger] v[i]) by {
                            if i < self@.len() {
                                assert(v[i] == self@[i]);
                            }
                        }
                    }
                }
                Ok(DocumentPath { collection_path: Box::new(self), document_id: did })
            },
            Err(e) => Err(Error::wrap(ErrorKind::DocumentIdConversion, e.kind())),
        }
    }

    /// The parent document path, if this collection is not at the root.
    pub fn parent(&self) -> (r: Option<&DocumentPath>)
        ensures
            r is Some <==> self@.len() > 1,
            r matches Some(d) ==> d@ == self@.drop_last(),
            self.wf() ==> (r matches Some(d) ==> d.wf()),
    {
        proof {
            match &self.document_path {
                Option::None => {},
                Option::Some(dp) => {
                    lemma_document_path_len(dp);
                    assert(dp@.push(self.collection_id@).drop_last() =~= dp@);
                    if self.wf() {
                        assert forall|i: int| 0 <= i < dp@.len() implies seg_ok(
                            #[trigger] dp@[i],
                        ) by {
                            assert(self@[i] == dp@[i]);
                        }
                    }
                },
            }
        }
        self.document_path.as_ref()
    }

    /// The parent document path by value, if this collection is not at the
    /// root; consumes this path.
    pub fn into_parent(self) -> (r: Option<DocumentPath>)
        ensures
            r is Some <==> self@.len() > 1,
            r matches Some(d) ==> d@ == self@.drop_last(),
            self.wf() ==> (r matches Some(d) ==> d.wf()),
    {
        proof {
            match &self.document_path {
                Option::None => {},
                Option::Some(dp) => {
                    lemma_document_path_len(dp);
                    assert(dp@.push(self.collection_id@).drop_last() =~= dp@);
                    if self.wf() {
                        assert forall|i: int| 0 <= i < dp@.len() implies seg_ok(
                            #[trigger] dp@[i],
                        ) by {
                            assert(self@[i] == dp@[i]);
                        }
                    }
                },
            }
        }
        self.document_path
    }

    /// Parses a collection path: segments split on `'/'`, oddly many, each
    /// a valid identifier.
    pub fn parse(s: &str) -> (r: Result<CollectionPath, Error>)
        ensures
            r is Ok <==> collection_path_ok(s@),
            r is Ok ==> r->Ok_0@ == split_segs(s@),
            r is Err ==> r->Err_0.kind() == collection_path_err(s@) && r->Err_0.cause() is None,
    {
        let parts = split_all(s);
        let n: usize = parts.len();
        proof {
            lemma_split_len(s@);
        }
        if n % 2 == 0 {
            return Err(Error::new(ErrorKind::NotContainsSlash));
        }
        let r = build_collection_path(&parts, 0, n);
        proof {
            assert(views_of_strings(parts@).subrange(0, n as int) =~= split_segs(s@));
        }
        r
    }
}

impl DocumentPath {
    /// The path satisfies its invariant: an even number, at least two, of
    /// valid segments.
    pub open spec fn wf(&self) -> bool {
        doc_segs_ok(self@)
    }

    /// Combines a parent collection path and a document identifier into a
    /// document path.
    pub fn new(collection_path: CollectionPath, document_id: DocumentId) -> (r: DocumentPath)
        ensures
            r@ == collection_path@.push(document_id@),
            (collection_path.wf() && document_id.wf()) ==> r.wf(),
    {
        proof {
            lemma_collection_path_len(&collection_path);
            if collection_path.wf() && document_id.wf() {
                let v = collection_path@.push(document_id@);
                assert forall|i: int| 0 <= i < v.len() implies seg_ok(#[trigger] v[i]) by {
                    if i < collection_path@.len() {
                        assert(v[i] == collection_path@[i]);
                    }
                }
            }
        }
        DocumentPath { collection_path: Box::new(collection_path), document_id }
    }

    /// Appends the relative collection path `other` below this document
    /// path: every segment of `other` keeps its identifier, only its root
    /// changes.
    fn append_collection_path(self, other: CollectionPath) -> (r: CollectionPath)
        ensures
            r@ == self@ + other@,
        decreases other,
    {
        match other.document_path {
            None => {
                let r = CollectionPath {
                    document_path: Some(self),
                    collection_id: other.collection_id,
                };
                proof {
                    assert(r@ =~= self@ + seq![other.collection_id@]);
                }
                r
            },
            Some(dp) => {
                let ghost dpv = dp@;
                let new_dp = self.append_document_path(dp);
                let r = CollectionPath {
                    document_path: Some(new_dp),
                    collection_id: other.collection_id,
                };
                proof {
                    assert(r@ =~= self@ + dpv.push(other.collection_id@));
                }
                r
            },
        }
    }

    /// Appends the relative document path `other` below this document path.
    fn append_document_path(self, other: DocumentPath) -> (r: DocumentPath)
        ensures
            r@ == self@ + other@,
        decreases other,
    {
        let DocumentPath { collection_path, document_id } = other;
        let ghost cpv = collection_path@;
        let new_cp = self.append_collection_path(*collection_path);
        let r = DocumentPath { collection_path: Box::new(new_cp), document_id };
        proof {
            assert(r@ =~= (self@ + cpv).push(document_id@));
            assert((self@ + cpv).push(document_id@) =~= self@ + cpv.push(document_id@));
        }
        r
    }

    /// Builds the collection path `collection_path` re-rooted below this
    /// document path.
    pub fn collection<T: TryIntoCollectionPath>(&self, collection_path: T) -> (r: Result<
        CollectionPath,
        Error,
    >)
        requires
            collection_path.arg_wf(),
        ensures
            r is Ok <==> collection_path_ok(collection_path.arg_str()),
            r is Ok ==> r->Ok_0@ == self@ + split_segs(collection_path.arg_str()),
            r is Ok && self.wf() ==> r->Ok_0.wf(),
            r is Err ==> r->Err_0.kind() == ErrorKind::CollectionIdConversion && r->Err_0.cause()
                == Some(collection_path_err(collection_path.arg_str())),
    {
        self.clone().into_collection(collection_path)
    }

    /// Builds the collection path `collection_path` re-rooted below this
    /// document path, consuming this path.
    pub fn into_collection<T: TryIntoCollectionPath>(self, collection_path: T) -> (r: Result<
        CollectionPath,
        Error,
    >)
        requires
            collection_path.arg_wf(),
        ensures
            r is Ok <==> collection_path_ok(collection_path.arg_str()),
            r is Ok ==> r->Ok_0@ == self@ + split_segs(collection_path.arg_str()),
            r is Ok && self.wf() ==> r->Ok_0.wf(),
            r is Err ==> r->Err_0.kind() == ErrorKind::CollectionIdConversion && r->Err_0.cause()
                == Some(collection_path_err(collection_path.arg_str())),
    {
        match collection_path.try_into_collection_path() {
            Ok(cp) => {
                let ghost selfv = self@;
                let ghost cpv = cp@;
                let r = self.append_collection_path(cp);
                proof {
                    if doc_segs_ok(selfv) && col_segs_ok(cpv) {
                        let v = selfv + cpv;
                        assert forall|i: int| 0 <= i < v.len() implies seg_ok(#[trigger] v[i]) by {
                            if i < selfv.len() {
                                assert(v[i] == selfv[i]);
                            } else {
                                assert(v[i] == cpv[i - selfv.len()]);
                            }
                        }
                    }
                }
                Ok(r)
            },
            Err(e) => Err(Error::wrap(ErrorKind::CollectionIdConversion, e.kind())),
        }
    }

    /// Builds the document path `document_path` re-rooted below this
    /// document path.
    pub fn doc<T: TryIntoDocumentPath>(&self, document_path: T) -> (r: Result<DocumentPath, Error>)
        requires
            document_path.arg_wf(),
        ensures
            r is Ok <==> document_path_ok(document_path.arg_str()),
            r is Ok ==> r->Ok_0@ == self@ + split_segs(document_path.arg_str()),
            r is Ok && self.wf() ==> r->Ok_0.wf(),
            r is Err ==> r->Err_0.kind() == ErrorKind::DocumentPathConversion && r->Err_0.cause()
                == Some(document_path_err(document_path.arg_str())),
    {
        self.clone().into_doc(document_path)
    }

    /// Builds the document path `document_path` re-rooted below this
    /// document path, consuming this path.
    pub fn into_doc<T: TryIntoDocumentPath>(self, document_path: T) -> (r: Result<
        DocumentPath,
        Error,
    >)
        requires
            document_path.arg_wf(),
        ensures
            r is Ok <==> document_path_ok(document_path.arg_str()),
            r is Ok ==> r->Ok_0@ == self@ + split_segs(document_path.arg_str()),
            r is Ok && self.wf() ==> r->Ok_0.wf(),
            r is Err ==> r->Err_0.kind() == ErrorKind::DocumentPathConversion && r->Err_0.cause()
                == Some(document_path_err(document_path.arg_str())),
    {
        match document_path.try_into_document_path() {
            Ok(dp) => {
                let ghost selfv = self@;
                let ghost dpv = dp@;
                let r = self.append_document_path(dp);
                proof {
                    if doc_segs_ok(selfv) && doc_segs_ok(dpv) {
                        let v = selfv + dpv;
                        assert forall|i: int| 0 <= i < v.len() implies seg_ok(#[trigger] v[i]) by {
                            if i < selfv.len() {
                                assert(v[i] == selfv[i]);
                            } else {
                                assert(v[i] == dpv[i - selfv.len()]);
                            }
                        }
                    }
                }
                Ok(r)
            },
            Err(e) => Err(Error::wrap(ErrorKind::DocumentPathConversion, e.kind())),
        }
    }

    /// The collection identifier this document lives in: the next-to-last
    /// segment.
    pub fn collection_id(&self) -> (r: &CollectionId)
        ensures
            r@ == self@[self@.len() - 2],
    {
        proof {
            lemma_collection_path_len(&*self.collection_path);
            assert(self@.drop_last() =~= self.collection_path@);
        }
        self.collection_path.collection_id()
    }

    /// The final document identifier of this path.
    pub fn document_id(&self) -> (r: &DocumentId)
        ensures
            r@ == self@.last(),
    {
        &self.document_id
    }

    /// The parent collection path: everything but the last segment.
    pub fn parent(&self) -> (r: &CollectionPath)
        ensures
            r@ == self@.drop_last(),
            self.wf() ==> r.wf(),
    {
        proof {
            assert(self.collection_path@.push(self.document_id@).drop_last()
                =~= self.collection_path@);
            if self.wf() {
                let cp = self.collection_path@;
                lemma_collection_path_len(&*self.collection_path);
                assert forall|i: int| 0 <= i < cp.len() implies seg_ok(#[trigger] cp[i]) by {
                    assert(self@[i] == cp[i]);
                }
            }
        }
        &*self.collection_path
    }

    /// The parent collection path by value; consumes this path.
    pub fn into_parent(self) -> (r: CollectionPath)
        ensures
            r@ == self@.drop_last(),
            self.wf() ==> r.wf(),
    {
        proof {
            assert(self.collection_path@.push(self.document_id@).drop_last()
                =~= self.collection_path@);
            if self.wf() {
                let cp = self.collection_path@;
                lemma_collection_path_len(&*self.collection_path);
                assert forall|i: int| 0 <= i < cp.len() implies seg_ok(#[trigger] cp[i]) by {
                    assert(self@[i] == cp[i]);
                }
            }
        }
        *self.collection_path
    }

    /// Parses a document path: segments split on `'/'`, evenly many, each
    /// a valid identifier.
    pub fn parse(s: &str) -> (r: Result<DocumentPath, Error>)
        ensures
            r is Ok <==> document_path_ok(s@),
            r is Ok ==> r->Ok_0@ == split_segs(s@),
            r is Err ==> r->Err_0.kind() == document_path_err(s@) && r->Err_0.cause() is None,
    {
        let parts = split_all(s);
        let n: usize = parts.len();
        proof {
            lemma_split_len(s@);
        }
        if n % 2 == 1 {
            return Err(Error::new(ErrorKind::NotContainsSlash));
        }
        let ghost whole = split_segs(s@);
        let cp = match build_collection_path(&parts, 0, n - 1) {
            Ok(cp) => cp,
            Err(e) => {
                proof {
                    let sub = whole.subrange(0, n - 1);
                    crate::id::lemma_first_bad_seg_props(sub);
                    let k = first_bad_seg(sub);
                    assert(sub[k] == whole[k]);
                    assert forall|j: int| 0 <= j < k implies seg_ok(#[trigger] whole[j]) by {
                        assert(sub[j] == whole[j]);
                    }
                    lemma_first_bad_seg(whole, k);
                }
                return Err(e);
            },
        };
        let did = match DocumentId::parse(parts[n - 1].as_str()) {
            Ok(did) => did,
            Err(e) => {
                proof {
                    assert(views_of_strings(parts@)[n - 1] == parts@[n - 1]@);
                    assert forall|j: int| 0 <= j < n - 1 implies seg_ok(#[trigger] whole[j]) by {
                        assert(whole.subrange(0, n - 1)[j] == whole[j]);
                    }
                    lemma_first_bad_seg(whole, n - 1);
                }
                return Err(e);
            },
        };
        let r = DocumentPath { collection_path: Box::new(cp), document_id: did };
        proof {
            assert(r@ =~= whole);
            assert forall|j: int| 0 <= j < whole.len() implies seg_ok(#[trigger] whole[j]) by {
                if j < n - 1 {
                    assert(whole.subrange(0, n - 1)[j] == whole[j]);
                }
            }
        }
        Ok(r)
    }
}

/// Builds a collection path from the segment strings
/// `parts[start..end]`, validating each left to right. The segment count
/// must be odd; the leftmost invalid segment decides the error.
pub(crate) fn build_collection_path(parts: &Vec<String>, start: usize, end: usize) -> (r: Result<
    CollectionPath,
    Error,
>)
    requires
        start < end <= parts@.len(),
        (end - start) % 2 == 1,
    ensures
        r is Ok <==> segs_ok(views_of_strings(parts@).subrange(start as int, end as int)),
        r is Ok ==> r->Ok_0@ == views_of_strings(parts@).subrange(start as int, end as int)
            && r->Ok_0.wf(),
        r is Err ==> r->Err_0.kind() == segs_err(
            views_of_strings(parts@).subrange(start as int, end as int),
        ) && r->Err_0.cause() is None,
{
    let ghost segs = views_of_strings(parts@).subrange(start as int, end as int);
    let first = match CollectionId::parse(parts[start].as_str()) {
        Ok(id) => id,
        Err(e) => {
            proof {
                assert(segs[0] == parts@[start as int]@);
                lemma_first_bad_seg(segs, 0);
            }
            return Err(e);
        },
    };
    let mut cp = CollectionPath { document_path: None, collection_id: first };
    let mut k: usize = start + 1;
    proof {
        assert(cp@ =~= segs.subrange(0, 1));
    }
    while k < end
        invariant
            start < end <= parts@.len(),
            (end - start) % 2 == 1,
            start + 1 <= k <= end,
            (k - start) % 2 == 1,
            segs == views_of_strings(parts@).subrange(start as int, end as int),
            cp@ == segs.subrange(0, k - start),
            forall|j: int| 0 <= j < k - start ==> seg_ok(#[trigger] segs[j]),
        decreases end - k,
    {
        let did = match DocumentId::parse(parts[k].as_str()) {
            Ok(did) => did,
            Err(e) => {
                proof {
                    assert(segs[k - start] == parts@[k as int]@);
                    lemma_first_bad_seg(segs, k - start);
                }
                return Err(e);
            },
        };
        let cid = match CollectionId::parse(parts[k + 1].as_str()) {
            Ok(cid) => cid,
            Err(e) => {
                proof {
                    assert(segs[k + 1 - start] == parts@[k + 1]@);
                    assert(segs[k - start] == parts@[k as int]@);
                    lemma_first_bad_seg(segs, k + 1 - start);
                }
                return Err(e);
            },
        };
        let dp = DocumentPath { collection_path: Box::new(cp), document_id: did };
        cp = CollectionPath { document_path: Some(dp), collection_id: cid };
        proof {
            assert(segs[k - start] == parts@[k as int]@);
            assert(segs[k + 1 - start] == parts@[k + 1]@);
            assert(cp@ =~= segs.subrange(0, k + 2 - start));
        }
        k += 2;
    }
    proof {
        assert(cp@ =~= segs);
    }
    Ok(cp)
}

/// An argument accepted by the collection-descend operations: a raw
/// string, a collection identifier, or an already-structured collection
/// path.
pub trait TryIntoCollectionPath: Sized {
    /// The characters of the collection path this argument denotes.
    spec fn arg_str(&self) -> Seq<char>;

    /// The argument's own invariant; trivially true for raw strings.
    spec fn arg_wf(&self) -> bool;

    /// Converts the argument into a validated collection path.
    fn try_into_collection_path(self) -> (r: Result<CollectionPath, Error>)
        requires
            self.arg_wf(),
        ensures
            r is Ok <==> collection_path_ok(self.arg_str()),
            r is Ok ==> r->Ok_0@ == split_segs(self.arg_str()) && r->Ok_0.wf(),
            r is Err ==> r->Err_0.kind() == collection_path_err(self.arg_str()) && r->Err_0.cause()
                is None,
    ;
}

impl TryIntoCollectionPath for &str {
    open spec fn arg_str(&self) -> Seq<char> {
        self@
    }

    open spec fn arg_wf(&self) -> bool {
        true
    }

    fn try_into_collection_path(self) -> (r: Result<CollectionPath, Error>) {
        CollectionPath::parse(self)
    }
}

impl TryIntoCollectionPath for String {
    open spec fn arg_str(&self) -> Seq<char> {
        self@
    }

    open spec fn arg_wf(&self) -> bool {
        true
    }

    fn try_into_collection_path(self) -> (r: Result<CollectionPath, Error>) {
        CollectionPath::parse(self.as_str())
    }
}

impl TryIntoCollectionPath for CollectionId {
    open spec fn arg_str(&self) -> Seq<char> {
        self@
    }

    open spec fn arg_wf(&self) -> bool {
        self.wf()
    }

    fn try_into_collection_path(self) -> (r: Result<CollectionPath, Error>) {
        proof {
            lemma_split_slash_free(self@);
        }
        Ok(CollectionPath { document_path: None, collection_id: self })
    }
}

impl TryIntoCollectionPath for CollectionPath {
    open spec fn arg_str(&self) -> Seq<char> {
        crate::text::join_segs(self@)
    }

    open spec fn arg_wf(&self) -> bool {
        self.wf()
    }

    fn try_into_collection_path(self) -> (r: Result<CollectionPath, Error>) {
        proof {
            assert forall|i: int|
                0 <= i < self@.len() implies crate::text::slash_free(#[trigger] self@[i]) by {
                assert(seg_ok(self@[i]));
            }
            lemma_split_join_inverse(self@);
        }
        Ok(self)
    }
}

/// An argument accepted by the document-path-descend operations: a raw
/// string or an already-structured document path.
pub trait TryIntoDocumentPath: Sized {
    /// The characters of the document path this argument denotes.
    spec fn arg_str(&self) -> Seq<char>;

    /// The argument's own invariant; trivially true for raw strings.
    spec fn arg_wf(&self) -> bool;

    /// Converts the argument into a validated document path.
    fn try_into_document_path(self) -> (r: Result<DocumentPath, Error>)
        requires
            self.arg_wf(),
        ensures
            r is Ok <==> document_path_ok(self.arg_str()),
            r is Ok ==> r->Ok_0@ == split_segs(self.arg_str()) && r->Ok_0.wf(),
            r is Err ==> r->Err_0.kind() == document_path_err(self.arg_str()) && r->Err_0.cause()
                is None,
    ;
}

impl TryIntoDocumentPath for &str {
    open spec fn arg_str(&self) -> Seq<char> {
        self@
    }

    open spec fn arg_wf(&self) -> bool {
        true
    }

    fn try_into_document_path(self) -> (r: Result<DocumentPath, Error>) {
        DocumentPath::parse(self)
    }
}

impl TryIntoDocumentPath for String {
    open spec fn arg_str(&self) -> Seq<char> {
        self@
    }

    open spec fn arg_wf(&self) -> bool {
        true
    }

    fn try_into_document_path(self) -> (r: Result<DocumentPath, Error>) {
        DocumentPath::parse(self.as_str())
    }
}

impl TryIntoDocumentPath for DocumentPath {
    open spec fn arg_str(&self) -> Seq<char> {
        crate::text::join_segs(self@)
    }

    open spec fn arg_wf(&self) -> bool {
        self.wf()
    }

    fn try_into_document_path(self) -> (r: Result<DocumentPath, Error>) {
        proof {
            assert forall|i: int|
                0 <= i < self@.len() implies crate::text::slash_free(#[trigger] self@[i]) by {
                assert(seg_ok(self@[i]));
            }
            lemma_split_join_inverse(self@);
        }
        Ok(self)
    }
}

impl CollectionPath {
    /// The canonical string of this path: its segments joined with `'/'`.
    pub fn to_string(&self) -> (r: String)
        ensures
            r@ == join_segs(self@),
        decreases self,
    {
        match &self.document_path {
            None => self.collection_id.to_string(),
            Some(dp) => {
                let mut out = dp.to_string();
                out.append("/");
                out.append(self.collection_id.as_ref());
                proof {
                    lemma_document_path_len(dp);
                    lemma_join_push(dp@, self.collection_id@);
                    reveal_strlit("/");
                    assert(join_segs(dp@) + "/"@ + self.collection_id@ =~= join_segs(
                        dp@,
                    ) + seq!['/'] + self.collection_id@);
                }
                out
            },
        }
    }
}

impl DocumentPath {
    /// The canonical string of this path: its segments joined with `'/'`.
    pub fn to_string(&self) -> (r: String)
        ensures
            r@ == join_segs(self@),
        decreases self,
    {
        let mut out = self.collection_path.to_string();
        out.append("/");
        out.append(self.document_id.as_ref());
        proof {
            lemma_collection_path_len(&*self.collection_path);
            lemma_join_push(self.collection_path@, self.document_id@);
            reveal_strlit("/");
            assert(join_segs(self.collection_path@) + "/"@ + self.document_id@ =~= join_segs(
                self.collection_path@,
            ) + seq!['/'] + self.document_id@);
        }
        out
    }
}

impl Clone for CollectionPath {
    /// Clones the path; the clone equals the original.
    fn clone(&self) -> (r: Self)
        ensures
            r == *self,
    {
        self.clone_path()
    }
}

impl Clone for DocumentPath {
    /// Clones the path; the clone equals the original.
    fn clone(&self) -> (r: Self)
        ensures
            r == *self,
    {
        self.clone_path()
    }
}

impl CollectionPath {
    fn clone_path(&self) -> (r: Self)
        ensures
            r == *self,
        decreases self,
    {
        let parent = match &self.document_path {
            None => None,
            Some(dp) => Some(dp.clone_path()),
        };
        CollectionPath { document_path: parent, collection_id: self.collection_id.clone() }
    }
}

impl DocumentPath {
    fn clone_path(&self) -> (r: Self)
        ensures
            r == *self,
        decreases self,
    {
        DocumentPath {
            collection_path: Box::new(self.collection_path.clone_path()),
            document_id: self.document_id.clone(),
        }
    }
}

impl PartialEq for CollectionPath {
    fn eq(&self, other: &Self) -> (r: bool) {
        self.eq_path(other)
    }
}

impl PartialEq for DocumentPath {
    fn eq(&self, other: &Self) -> (r: bool) {
        self.eq_path(other)
    }
}

impl vstd::std_specs::cmp::PartialEqSpecImpl for CollectionPath {
    open spec fn obeys_eq_spec() -> bool {
        true
    }

    open spec fn eq_spec(&self, other: &Self) -> bool {
        self@ == other@
    }
}

impl vstd::std_specs::cmp::PartialEqSpecImpl for DocumentPath {
    open spec fn obeys_eq_spec() -> bool {
        true
    }

    open spec fn eq_spec(&self, other: &Self) -> bool {
        self@ == other@
    }
}

impl CollectionPath {
    fn eq_path(&self, other: &CollectionPath) -> (r: bool)
        ensures
            r == (self@ == other@),
        decreases self,
    {
        match (&self.document_path, &other.document_path) {
            (None, None) => {
                proof {
                    if self.collection_id@ == other.collection_id@ {
                        assert(self@ =~= other@);
                    } else {
                        assert(self@[0] != other@[0]);
                    }
                }
                self.collection_id == other.collection_id
            },
            (Some(a), Some(b)) => {
                proof {
                    if a@ == b@ && self.collection_id@ == other.collection_id@ {
                        assert(self@ =~= other@);
                    }
                    if self@ == other@ {
                        assert(self@.drop_last() =~= a@);
                        assert(other@.drop_last() =~= b@);
                        assert(self@.last() == self.collection_id@);
                    }
                }
                let pe = a.eq_path(b);
                pe && self.collection_id == other.collection_id
            },
            (None, Some(b)) => {
                proof {
                    lemma_document_path_len(b);
                    assert(self@.len() == 1);
                    assert(other@.len() >= 3);
                }
                false
            },
            (Some(a), None) => {
                proof {
                    lemma_document_path_len(a);
                    assert(self@.len() >= 3);
                    assert(other@.len() == 1);
                }
                false
            },
        }
    }
}

impl DocumentPath {
    fn eq_path(&self, other: &DocumentPath) -> (r: bool)
        ensures
            r == (self@ == other@),
        decreases self,
    {
        proof {
            if self.collection_path@ == other.collection_path@ && self.document_id@
                == other.document_id@ {
                assert(self@ =~= other@);
            }
            if self@ == other@ {
                assert(self@.drop_last() =~= self.collection_path@);
                assert(other@.drop_last() =~= other.collection_path@);
                assert(self@.last() == self.document_id@);
            }
        }
        let pe = self.collection_path.eq_path(&*other.collection_path);
        pe && self.document_id == other.document_id
    }
}

impl From<CollectionId> for CollectionPath {
    /// A root-level collection path holding just `collection_id`.
    fn from(collection_id: CollectionId) -> (r: Self) {
        CollectionPath { document_path: None, collection_id }
    }
}

impl vstd::std_specs::convert::FromSpecImpl<CollectionId> for CollectionPath {
    open spec fn obeys_from_spec() -> bool {
        true
    }

    closed spec fn from_spec(v: CollectionId) -> CollectionPath {
        CollectionPath { document_path: None, collection_id: v }
    }
}

impl From<CollectionPath> for CollectionId {
    /// The final collection identifier of the path.
    fn from(collection_path: CollectionPath) -> (r: Self) {
        collection_path.collection_id
    }
}

impl vstd::std_specs::convert::FromSpecImpl<CollectionPath> for CollectionId {
    open spec fn obeys_from_spec() -> bool {
        true
    }

    closed spec fn from_spec(v: CollectionPath) -> CollectionId {
        v.collection_id
    }
}

impl From<CollectionPath> for Option<DocumentPath> {
    /// The parent document path of the collection path, if any.
    fn from(collection_path: CollectionPath) -> (r: Self) {
        collection_path.document_path
    }
}

impl vstd::std_specs::convert::FromSpecImpl<CollectionPath> for Option<DocumentPath> {
    open spec fn obeys_from_spec() -> bool {
        true
    }

    closed spec fn from_spec(v: CollectionPath) -> Option<DocumentPath> {
        v.document_path
    }
}

impl From<DocumentPath> for CollectionPath {
    /// The parent collection path of the document path.
    fn from(document_path: DocumentPath) -> (r: Self) {
        *document_path.collection_path
    }
}

impl vstd::std_specs::convert::FromSpecImpl<DocumentPath> for CollectionPath {
    open spec fn obeys_from_spec() -> bool {
        true
    }

    closed spec fn from_spec(v: DocumentPath) -> CollectionPath {
        *v.collection_path
    }
}

impl From<DocumentPath> for DocumentId {
    /// The final document identifier of the path.
    fn from(document_path: DocumentPath) -> (r: Self) {
        document_path.document_id
    }
}

impl vstd::std_specs::convert::FromSpecImpl<DocumentPath> for DocumentId {
    open spec fn obeys_from_spec() -> bool {
        true
    }

    closed spec fn from_spec(v: DocumentPath) -> DocumentId {
        v.document_id
    }
}

impl TryFrom<&str> for CollectionPath {
    type Error = Error;

    fn try_from(s: &str) -> Result<Self, Self::Error> {
        Self::parse(s)
    }
}

impl TryFrom<String> for CollectionPath {
    type Error = Error;

    fn try_from(s: String) -> Result<Self, Self::Error> {
        Self::parse(s.as_str())
    }
}

impl vstd::std_specs::convert::TryFromSpecImpl<&str> for CollectionPath {
    open spec fn obeys_try_from_spec() -> bool {
        false
    }

    open spec fn try_from_spec(v: &str) -> Result<Self, Self::Error> {
        arbitrary()
    }
}

impl vstd::std_specs::convert::TryFromSpecImpl<String> for CollectionPath {
    open spec fn obeys_try_from_spec() -> bool {
        false
    }

    open spec fn try_from_spec(v: String) -> Result<Self, Self::Error> {
        arbitrary()
    }
}

impl std::str::FromStr for CollectionPath {
    type Err = Error;

    fn from_str(s: &str) -> Result<Self, Self::Err> {
        Self::parse(s)
    }
}

impl TryFrom<&str> for DocumentPath {
    type Error = Error;

    fn try_from(s: &str) -> Result<Self, Self::Error> {
        Self::parse(s)
    }
}

impl TryFrom<String> for DocumentPath {
    type Error = Error;

    fn try_from(s: String) -> Result<Self, Self::Error> {
        Self::parse(s.as_str())
    }
}

impl vstd::std_specs::convert::TryFromSpecImpl<&str> for DocumentPath {
    open spec fn obeys_try_from_spec() -> bool {
        false
    }

    open spec fn try_from_spec(v: &str) -> Result<Self, Self::Error> {
        arbitrary()
    }
}

impl vstd::std_specs::convert::TryFromSpecImpl<String> for DocumentPath {
    open spec fn obeys_try_from_spec() -> bool {
        false
    }

    open spec fn try_from_spec(v: String) -> Result<Self, Self::Error> {
        arbitrary()
    }
}

impl std::str::FromStr for DocumentPath {
    type Err = Error;

    fn from_str(s: &str) -> Result<Self, Self::Err> {
        Self::parse(s)
    }
}

} // verus!
