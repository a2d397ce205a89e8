//! Fully-qualified names: a database root prefix
//! `projects/{project_id}/databases/{database_id}` with, for documents and
//! collections, the literal `documents` segment and a relative path below
//! it. The view of a name is the pair of its root identifiers and its
//! relative segments, so navigation mirrors the relative-path algebra with
//! the root carried along unchanged.
use vstd::prelude::*;

use crate::error::Error;
use crate::error::ErrorKind;
use crate::id::DatabaseId;
use crate::id::ProjectId;
use crate::id::TryIntoDocumentId;
use crate::id::TryIntoProjectId;
use crate::id::database_id_err;
use crate::id::database_id_ok;
use crate::id::lemma_first_bad_seg;
use crate::id::project_id_err;
use crate::id::project_id_ok;
use crate::id::seg_err;
use crate::id::seg_ok;
use crate::id::segs_err;
use crate::id::segs_ok;
use crate::path::CollectionPath;
use crate::path::DocumentPath;
use crate::path::TryIntoCollectionPath;
use crate::path::TryIntoDocumentPath;
use crate::path::build_collection_path;
use crate::path::col_segs_ok;
use crate::path::collection_path_err;
use crate::path::collection_path_ok;
use crate::path::doc_segs_ok;
use crate::path::document_path_err;
use crate::path::document_path_ok;
use crate::path::lemma_collection_path_len;
use crate::path::lemma_document_path_len;
use crate::text::byte_len;
use crate::text::join_segs;
use crate::text::lemma_join_concat;
use crate::text::lemma_join_push;
use crate::text::split_all;
use crate::text::split_segs;
use crate::text::str_byte_len;
use crate::text::str_eq;
use crate::text::views_of_strings;

verus! {

/// The root identifiers of a database: its project and database ids.
pub struct DbView {
    pub project: Seq<char>,
    pub database: Seq<char>,
}

/// A fully-qualified name: root identifiers plus relative path segments.
pub struct QualView {
    pub db: DbView,
    pub segs: Seq<Seq<char>>,
}

/// The root identifiers are valid.
pub open spec fn db_wf(v: DbView) -> bool {
    project_id_ok(v.project) && database_id_ok(v.database)
}

/// The four segments of a database name string.
pub open spec fn db_segs(v: DbView) -> Seq<Seq<char>> {
    seq!["projects"@, v.project, "databases"@, v.database]
}

/// The five segments of a root document name string.
pub open spec fn root_segs(v: DbView) -> Seq<Seq<char>> {
    db_segs(v).push("documents"@)
}

/// The canonical string of a database name.
pub open spec fn fmt_db(v: DbView) -> Seq<char> {
    join_segs(db_segs(v))
}

/// The canonical string of a root document name.
pub open spec fn fmt_root(v: DbView) -> Seq<char> {
    join_segs(root_segs(v))
}

/// The canonical string of a fully-qualified collection or document name.
pub open spec fn fmt_qual(v: QualView) -> Seq<char> {
    join_segs(root_segs(v.db) + v.segs)
}

/// The strings accepted as a database name.
pub open spec fn database_name_ok(s: Seq<char>) -> bool {
    let segs = split_segs(s);
    &&& 1 <= byte_len(s) <= 6144
    &&& segs.len() == 4
    &&& segs[0] == "projects"@
    &&& segs[2] == "databases"@
    &&& project_id_ok(segs[1])
    &&& database_id_ok(segs[3])
}

/// The root identifiers read from a parsed database name string.
pub open spec fn parsed_db(s: Seq<char>) -> DbView {
    DbView { project: split_segs(s)[1], database: split_segs(s)[3] }
}

/// The failure reported for a rejected database name, in check order.
pub open spec fn database_name_err(s: Seq<char>) -> ErrorKind
    recommends
        !database_name_ok(s),
{
    let segs = split_segs(s);
    if !(1 <= byte_len(s) <= 6144) {
        ErrorKind::LengthOutOfBounds
    } else if segs.len() != 4 {
        ErrorKind::InvalidNumberOfPathComponents
    } else if segs[0] != "projects"@ || segs[2] != "databases"@ {
        ErrorKind::InvalidName
    } else if !project_id_ok(segs[1]) {
        project_id_err(segs[1])
    } else {
        database_id_err(segs[3])
    }
}

/// The strings accepted as a root document name.
pub open spec fn root_name_ok(s: Seq<char>) -> bool {
    let segs = split_segs(s);
    &&& 1 <= byte_len(s) <= 6144
    &&& segs.len() == 5
    &&& segs[0] == "projects"@
    &&& segs[2] == "databases"@
    &&& segs[4] == "documents"@
    &&& project_id_ok(segs[1])
    &&& database_id_ok(segs[3])
}

/// The failure reported for a rejected root document name, in check order.
pub open spec fn root_name_err(s: Seq<char>) -> ErrorKind
    recommends
        !root_name_ok(s),
{
    let segs = split_segs(s);
    if !(1 <= byte_len(s) <= 6144) {
        ErrorKind::LengthOutOfBounds
    } else if segs.len() != 5 {
        ErrorKind::InvalidNumberOfPathComponents
    } else if segs[0] != "projects"@ || segs[2] != "databases"@ || segs[4] != "documents"@ {
        ErrorKind::InvalidName
    } else if !project_id_ok(segs[1]) {
        project_id_err(segs[1])
    } else {
        database_id_err(segs[3])
    }
}

/// The strings accepted as a fully-qualified collection name: a valid
/// five-segment root and an odd number of valid relative segments.
pub open spec fn collection_name_ok(s: Seq<char>) -> bool {
    let segs = split_segs(s);
    &&& 1 <= byte_len(s) <= 6144
    &&& segs.len() >= 6
    &&& (segs.len() - 5) % 2 == 1
    &&& segs[0] == "projects"@
    &&& segs[2] == "databases"@
    &&& segs[4] == "documents"@
    &&& project_id_ok(segs[1])
    &&& database_id_ok(segs[3])
    &&& segs_ok(segs.skip(5))
}

/// The strings accepted as a fully-qualified document name: a valid
/// five-segment root and an even number, at least two, of valid relative
/// segments.
pub open spec fn document_name_ok(s: Seq<char>) -> bool {
    let segs = split_segs(s);
    &&& 1 <= byte_len(s) <= 6144
    &&& segs.len() >= 7
    &&& (segs.len() - 5) % 2 == 0
    &&& segs[0] == "projects"@
    &&& segs[2] == "databases"@
    &&& segs[4] == "documents"@
    &&& project_id_ok(segs[1])
    &&& database_id_ok(segs[3])
    &&& segs_ok(segs.skip(5))
}

/// The root identifiers and relative segments read from a parsed
/// fully-qualified name string.
pub open spec fn parsed_qual(s: Seq<char>) -> QualView {
    QualView { db: parsed_db(s), segs: split_segs(s).skip(5) }
}

/// The failure reported for a rejected collection name: length and segment
/// count first, then the relative path left to right, then the root.
pub open spec fn collection_name_err(s: Seq<char>) -> ErrorKind
    recommends
        !collection_name_ok(s),
{
    let segs = split_segs(s);
    if !(1 <= byte_len(s) <= 6144) {
        ErrorKind::LengthOutOfBounds
    } else if segs.len() < 6 || (segs.len() - 5) % 2 == 0 {
        ErrorKind::InvalidNumberOfPathComponents
    } else if !segs_ok(segs.skip(5)) {
        segs_err(segs.skip(5))
    } else if segs[0] != "projects"@ || segs[2] != "databases"@ || segs[4] != "documents"@ {
        ErrorKind::InvalidName
    } else if !project_id_ok(segs[1]) {
        project_id_err(segs[1])
    } else {
        database_id_err(segs[3])
    }
}

/// The failure reported for a rejected document name: length and segment
/// count first, then the root, then the relative path left to right.
pub open spec fn document_name_err(s: Seq<char>) -> ErrorKind
    recommends
        !document_name_ok(s),
{
    let segs = split_segs(s);
    if !(1 <= byte_len(s) <= 6144) {
        ErrorKind::LengthOutOfBounds
    } else if segs.len() < 7 || (segs.len() - 5) % 2 == 1 {
        ErrorKind::InvalidNumberOfPathComponents
    } else if segs[0] != "projects"@ || segs[2] != "databases"@ || segs[4] != "documents"@ {
        ErrorKind::InvalidName
    } else if !project_id_ok(segs[1]) {
        project_id_err(segs[1])
    } else if !database_id_ok(segs[3]) {
        database_id_err(segs[3])
    } else {
        segs_err(segs.skip(5))
    }
}

/// A database name: `projects/{project_id}/databases/{database_id}`.
#[derive(Debug)]
pub struct DatabaseName {
    database_id: DatabaseId,
    project_id: ProjectId,
}

/// A root document name: `{database_name}/documents`, the prefix every
/// fully-qualified collection or document name starts with.
#[derive(Debug)]
pub struct RootDocumentName {
    database_name: DatabaseName,
}

/// A fully-qualified collection name:
/// `{root_document_name}/{collection_path}`.
#[derive(Debug)]
pub struct CollectionName {
    collection_path: CollectionPath,
    root_document_name: RootDocumentName,
}

/// A fully-qualified document name:
/// `{root_document_name}/{document_path}`.
#[derive(Debug)]
pub struct DocumentName {
    document_path: DocumentPath,
    root_document_name: RootDocumentName,
}

impl View for DatabaseName {
    type V = DbView;

    closed spec fn view(&self) -> DbView {
        DbView { project: self.project_id@, database: self.database_id@ }
    }
}

impl View for RootDocumentName {
    type V = DbView;

    closed spec fn view(&self) -> DbView {
        self.database_name@
    }
}

impl View for CollectionName {
    type V = QualView;

    closed spec fn view(&self) -> QualView {
        QualView { db: self.root_document_name@, segs: self.collection_path@ }
    }
}

impl View for DocumentName {
    type V = QualView;

    closed spec fn view(&self) -> QualView {
        QualView { db: self.root_document_name@, segs: self.document_path@ }
    }
}

/// A value that can serve as the root prefix of a fully-qualified name:
/// a database name or a root document name.
pub trait ToRootDocumentName: Sized {
    /// The root identifiers this value denotes.
    spec fn root_view(&self) -> DbView;

    /// Converts the value into a root document name.
    fn to_root_document_name(self) -> (r: RootDocumentName)
        ensures
            r@ == self.root_view(),
    ;
}

impl ToRootDocumentName for DatabaseName {
    open spec fn root_view(&self) -> DbView {
        self@
    }

    fn to_root_document_name(self) -> (r: RootDocumentName) {
        RootDocumentName { database_name: self }
    }
}

impl ToRootDocumentName for RootDocumentName {
    open spec fn root_view(&self) -> DbView {
        self@
    }

    fn to_root_document_name(self) -> (r: RootDocumentName) {
        self
    }
}

impl DatabaseName {
    /// The root identifiers are valid.
    pub open spec fn wf(&self) -> bool {
        db_wf(self@)
    }

    /// Combines a project identifier and a database identifier; never
    /// fails.
    pub fn new(project_id: ProjectId, database_id: DatabaseId) -> (r: DatabaseName)
        ensures
            r@ == (DbView { project: project_id@, database: database_id@ }),
            (project_id.wf() && database_id.wf()) ==> r.wf(),
    {
        DatabaseName { database_id, project_id }
    }

    /// Builds the database name for `project_id` with the default database
    /// identifier `"(default)"`.
    pub fn from_project_id<T: TryIntoProjectId>(project_id: T) -> (r: Result<DatabaseName, Error>)
        requires
            project_id.arg_wf(),
        ensures
            r is Ok <==> project_id_ok(project_id.arg_str()),
            r is Ok ==> r->Ok_0@ == (DbView {
                project: project_id.arg_str(),
                database: "(default)"@,
            }) && r->Ok_0.wf(),
            r is Err ==> r->Err_0.kind() == project_id_err(project_id.arg_str())
                && r->Err_0.cause() is None,
    {
        match project_id.try_into_project_id() {
            Ok(pid) => Ok(DatabaseName { database_id: DatabaseId::default(), project_id: pid }),
            Err(e) => Err(e),
        }
    }

    /// The database identifier of this name.
    pub fn database_id(&self) -> (r: &DatabaseId)
        ensures
            r@ == self@.database,
    {
        &self.database_id
    }

    /// The project identifier of this name.
    pub fn project_id(&self) -> (r: &ProjectId)
        ensures
            r@ == self@.project,
    {
        &self.project_id
    }

    /// The root document name of this database.
    pub fn root_document_name(&self) -> (r: RootDocumentName)
        ensures
            r@ == self@,
    {
        self.clone().into_root_document_name()
    }

    /// The root document name of this database; consumes this name.
    pub fn into_root_document_name(self) -> (r: RootDocumentName)
        ensures
            r@ == self@,
    {
        RootDocumentName { database_name: self }
    }

    /// Builds the fully-qualified collection name for `collection_path`
    /// under this database.
    pub fn collection<T: TryIntoCollectionPath>(&self, collection_path: T) -> (r: Result<
        CollectionName,
        Error,
    >)
        requires
            collection_path.arg_wf(),
        ensures
            r is Ok <==> collection_path_ok(collection_path.arg_str()),
            r is Ok ==> r->Ok_0@ == (QualView {
                db: self@,
                segs: split_segs(collection_path.arg_str()),
            }),
            r is Ok && self.wf() ==> r->Ok_0.wf(),
            r is Err ==> r->Err_0.kind() == ErrorKind::CollectionPathConversion
                && r->Err_0.cause() == Some(collection_path_err(collection_path.arg_str())),
    {
        self.clone().into_collection(collection_path)
    }

    /// Builds the fully-qualified collection name for `collection_path`
    /// under this database; consumes this name.
    pub fn into_collection<T: TryIntoCollectionPath>(self, collection_path: T) -> (r: Result<
        CollectionName,
        Error,
    >)
        requires
            collection_path.arg_wf(),
        ensures
            r is Ok <==> collection_path_ok(collection_path.arg_str()),
            r is Ok ==> r->Ok_0@ == (QualView {
                db: self@,
                segs: split_segs(collection_path.arg_str()),
            }),
            r is Ok && self.wf() ==> r->Ok_0.wf(),
            r is Err ==> r->Err_0.kind() == ErrorKind::CollectionPathConversion
                && r->Err_0.cause() == Some(collection_path_err(collection_path.arg_str())),
    {
        match collection_path.try_into_collection_path() {
            Ok(cp) => Ok(
                CollectionName {
                    collection_path: cp,
                    root_document_name: RootDocumentName { database_name: self },
                },
            ),
            Err(e) => Err(Error::wrap(ErrorKind::CollectionPathConversion, e.kind())),
        }
    }

    /// Builds the fully-qualified document name for `document_path` under
    /// this database.
    pub fn doc<T: TryIntoDocumentPath>(&self, document_path: T) -> (r: Result<DocumentName, Error>)
        requires
            document_path.arg_wf(),
        ensures
            r is Ok <==> document_path_ok(document_path.arg_str()),
            r is Ok ==> r->Ok_0@ == (QualView {
                db: self@,
                segs: split_segs(document_path.arg_str()),
            }),
            r is Ok && self.wf() ==> r->Ok_0.wf(),
            r is Err ==> r->Err_0.kind() == ErrorKind::DocumentPathConversion && r->Err_0.cause()
                == Some(document_path_err(document_path.arg_str())),
    {
        self.clone().into_doc(document_path)
    }

    /// Builds the fully-qualified document name for `document_path` under
    /// this database; consumes this name.
    pub fn into_doc<T: TryIntoDocumentPath>(self, document_path: T) -> (r: Result<
        DocumentName,
        Error,
    >)
        requires
            document_path.arg_wf(),
        ensures
            r is Ok <==> document_path_ok(document_path.arg_str()),
            r is Ok ==> r->Ok_0@ == (QualView {
                db: self@,
                segs: split_segs(document_path.arg_str()),
            }),
            r is Ok && self.wf() ==> r->Ok_0.wf(),
            r is Err ==> r->Err_0.kind() == ErrorKind::DocumentPathConversion && r->Err_0.cause()
                == Some(document_path_err(document_path.arg_str())),
    {
        match document_path.try_into_document_path() {
            Ok(dp) => Ok(
                DocumentName {
                    document_path: dp,
                    root_document_name: RootDocumentName { database_name: self },
                },
            ),
            Err(e) => Err(Error::wrap(ErrorKind::DocumentPathConversion, e.kind())),
        }
    }

    /// Parses a database name: exactly four segments, the literals
    /// `projects` and `databases` in place, and valid identifiers between.
    pub fn parse(s: &str) -> (r: Result<DatabaseName, Error>)
        ensures
            r is Ok <==> database_name_ok(s@),
            r is Ok ==> r->Ok_0@ == parsed_db(s@) && r->Ok_0.wf(),
            r is Err ==> r->Err_0.kind() == database_name_err(s@) && r->Err_0.cause() is None,
    {
        let nb: usize = str_byte_len(s);
        if nb < 1 || nb > 6144 {
            return Err(Error::new(ErrorKind::LengthOutOfBounds));
        }
        let parts = split_all(s);
        let n: usize = parts.len();
        proof {
            assert(views_of_strings(parts@).len() == split_segs(s@).len());
        }
        if n != 4 {
            return Err(Error::new(ErrorKind::InvalidNumberOfPathComponents));
        }
        proof {
            assert(views_of_strings(parts@)[0] == parts@[0]@);
            assert(views_of_strings(parts@)[1] == parts@[1]@);
            assert(views_of_strings(parts@)[2] == parts@[2]@);
            assert(views_of_strings(parts@)[3] == parts@[3]@);
        }
        if !str_eq(parts[0].as_str(), "projects") || !str_eq(parts[2].as_str(), "databases") {
            return Err(Error::new(ErrorKind::InvalidName));
        }
        let pid = match ProjectId::parse(parts[1].as_str()) {
            Ok(p) => p,
            Err(e) => {
                return Err(e);
            },
        };
        let dbid = match DatabaseId::parse(parts[3].as_str()) {
            Ok(d) => d,
            Err(e) => {
                return Err(e);
            },
        };
        Ok(DatabaseName { database_id: dbid, project_id: pid })
    }

    /// The canonical string of this database name.
    pub fn to_string(&self) -> (r: String)
        ensures
            r@ == fmt_db(self@),
    {
        let mut out = String::from_str("projects");
        out.append("/");
        out.append(self.project_id.as_ref());
        out.append("/");
        out.append("databases");
        out.append("/");
        out.append(self.database_id.as_ref());
        proof {
            reveal_strlit("/");
            assert("/"@ =~= seq!['/']);
            let g0 = seq!["projects"@];
            let g1 = seq!["projects"@, self@.project];
            let g2 = seq!["projects"@, self@.project, "databases"@];
            let g3 = db_segs(self@);
            assert(join_segs(g0) == "projects"@);
            assert(g1.drop_last() =~= g0);
            assert(g1.last() == self@.project);
            assert(join_segs(g1) == join_segs(g0) + seq!['/'] + self@.project);
            assert(g2.drop_last() =~= g1);
            assert(g2.last() == "databases"@);
            assert(join_segs(g2) == join_segs(g1) + seq!['/'] + "databases"@);
            assert(g3.drop_last() =~= g2);
            assert(g3.last() == self@.database);
            assert(join_segs(g3) == join_segs(g2) + seq!['/'] + self@.database);
            assert(out@ =~= fmt_db(self@));
        }
        out
    }
}

impl RootDocumentName {
    /// The root identifiers are valid.
    pub open spec fn wf(&self) -> bool {
        db_wf(self@)
    }

    /// Wraps a database name as the root all relative paths attach to.
    pub fn new(database_name: DatabaseName) -> (r: RootDocumentName)
        ensures
            r@ == database_name@,
    {
        RootDocumentName { database_name }
    }

    pub(crate) fn as_database_name(&self) -> (r: &DatabaseName)
        ensures
            r@ == self@,
    {
        &self.database_name
    }

    /// Builds the fully-qualified collection name for `collection_path`
    /// under this root.
    pub fn collection<T: TryIntoCollectionPath>(&self, collection_path: T) -> (r: Result<
        CollectionName,
        Error,
    >)
        requires
            collection_path.arg_wf(),
        ensures
            r is Ok <==> collection_path_ok(collection_path.arg_str()),
            r is Ok ==> r->Ok_0@ == (QualView {
                db: self@,
                segs: split_segs(collection_path.arg_str()),
            }),
            r is Ok && self.wf() ==> r->Ok_0.wf(),
            r is Err ==> r->Err_0.kind() == ErrorKind::CollectionPathConversion
                && r->Err_0.cause() == Some(collection_path_err(collection_path.arg_str())),
    {
        self.clone().into_collection(collection_path)
    }

    /// Builds the fully-qualified collection name for `collection_path`
    /// under this root; consumes this name.
    pub fn into_collection<T: TryIntoCollectionPath>(self, collection_path: T) -> (r: Result<
        CollectionName,
        Error,
    >)
        requires
            collection_path.arg_wf(),
        ensures
            r is Ok <==> collection_path_ok(collection_path.arg_str()),
            r is Ok ==> r->Ok_0@ == (QualView {
                db: self@,
                segs: split_segs(collection_path.arg_str()),
            }),
            r is Ok && self.wf() ==> r->Ok_0.wf(),
            r is Err ==> r->Err_0.kind() == ErrorKind::CollectionPathConversion
                && r->Err_0.cause() == Some(collection_path_err(collection_path.arg_str())),
    {
        match collection_path.try_into_collection_path() {
            Ok(cp) => Ok(CollectionName { collection_path: cp, root_document_name: self }),
            Err(e) => Err(Error::wrap(ErrorKind::CollectionPathConversion, e.kind())),
        }
    }

    /// Builds the fully-qualified document name for `document_path` under
    /// this root.
    pub fn doc<T: TryIntoDocumentPath>(&self, document_path: T) -> (r: Result<DocumentName, Error>)
        requires
            document_path.arg_wf(),
        ensures
            r is Ok <==> document_path_ok(document_path.arg_str()),
            r is Ok ==> r->Ok_0@ == (QualView {
                db: self@,
                segs: split_segs(document_path.arg_str()),
            }),
            r is Ok && self.wf() ==> r->Ok_0.wf(),
            r is Err ==> r->Err_0.kind() == ErrorKind::DocumentPathConversion && r->Err_0.cause()
                == Some(document_path_err(document_path.arg_str())),
    {
        self.clone().into_doc(document_path)
    }

    /// Builds the fully-qualified document name for `document_path` under
    /// this root; consumes this name.
    pub fn into_doc<T: TryIntoDocumentPath>(self, document_path: T) -> (r: Result<
        DocumentName,
        Error,
    >)
        requires
            document_path.arg_wf(),
        ensures
            r is Ok <==> document_path_ok(document_path.arg_str()),
            r is Ok ==> r->Ok_0@ == (QualView {
                db: self@,
                segs: split_segs(document_path.arg_str()),
            }),
            r is Ok && self.wf() ==> r->Ok_0.wf(),
            r is Err ==> r->Err_0.kind() == ErrorKind::DocumentPathConversion && r->Err_0.cause()
                == Some(document_path_err(document_path.arg_str())),
    {
        match document_path.try_into_document_path() {
            Ok(dp) => Ok(DocumentName { document_path: dp, root_document_name: self }),
            Err(e) => Err(Error::wrap(ErrorKind::DocumentPathConversion, e.kind())),
        }
    }

    /// Parses a root document name: exactly five segments, the literals
    /// `projects`, `databases` and `documents` in place, and valid
    /// identifiers between.
    pub fn parse(s: &str) -> (r: Result<RootDocumentName, Error>)
        ensures
            r is Ok <==> root_name_ok(s@),
            r is Ok ==> r->Ok_0@ == parsed_db(s@) && r->Ok_0.wf(),
            r is Err ==> r->Err_0.kind() == root_name_err(s@) && r->Err_0.cause() is None,
    {
        let nb: usize = str_byte_len(s);
        if nb < 1 || nb > 6144 {
            return Err(Error::new(ErrorKind::LengthOutOfBounds));
        }
        let parts = split_all(s);
        let n: usize = parts.len();
        proof {
            assert(views_of_strings(parts@).len() == split_segs(s@).len());
        }
        if n != 5 {
            return Err(Error::new(ErrorKind::InvalidNumberOfPathComponents));
        }
        proof {
            assert(views_of_strings(parts@)[0] == parts@[0]@);
            assert(views_of_strings(parts@)[1] == parts@[1]@);
            assert(views_of_strings(parts@)[2] == parts@[2]@);
            assert(views_of_strings(parts@)[3] == parts@[3]@);
            assert(views_of_strings(parts@)[4] == parts@[4]@);
        }
        if !str_eq(parts[0].as_str(), "projects") || !str_eq(parts[2].as_str(), "databases")
            || !str_eq(parts[4].as_str(), "documents") {
            return Err(Error::new(ErrorKind::InvalidName));
        }
        let pid = match ProjectId::parse(parts[1].as_str()) {
            Ok(p) => p,
            Err(e) => {
                return Err(e);
            },
        };
        let dbid = match DatabaseId::parse(parts[3].as_str()) {
            Ok(d) => d,
            Err(e) => {
                return Err(e);
            },
        };
        Ok(
            RootDocumentName {
                database_name: DatabaseName { database_id: dbid, project_id: pid },
            },
        )
    }

    /// The canonical string of this root document name.
    pub fn to_string(&self) -> (r: String)
        ensures
            r@ == fmt_root(self@),
    {
        let mut out = self.database_name.to_string();
        out.append("/");
        out.append("documents");
        proof {
            reveal_strlit("/");
            lemma_join_push(db_segs(self@), "documents"@);
            assert(out@ =~= fmt_root(self@));
        }
        out
    }
}

impl CollectionName {
    /// The root identifiers and every relative segment are valid, and the
    /// relative segments end on a collection.
    pub open spec fn wf(&self) -> bool {
        db_wf(self@.db) && col_segs_ok(self@.segs)
    }

    /// Combines a root prefix and a relative collection path.
    pub fn new<D: ToRootDocumentName>(root_document_name: D, collection_path: CollectionPath) -> (r:
        CollectionName)
        ensures
            r@ == (QualView { db: root_document_name.root_view(), segs: collection_path@ }),
            (db_wf(root_document_name.root_view()) && collection_path.wf()) ==> r.wf(),
    {
        CollectionName {
            collection_path,
            root_document_name: root_document_name.to_root_document_name(),
        }
    }

    /// The final collection identifier of this name.
    pub fn collection_id(&self) -> (r: &crate::id::CollectionId)
        ensures
            r@ == self@.segs.last(),
    {
        self.collection_path.collection_id()
    }

    /// The relative collection path of this name.
    pub fn collection_path(&self) -> (r: &CollectionPath)
        ensures
            r@ == self@.segs,
    {
        &self.collection_path
    }

    /// The database name of this collection.
    pub fn database_name(&self) -> (r: &DatabaseName)
        ensures
            r@ == self@.db,
    {
        self.root_document_name.as_database_name()
    }

    /// Descends into the document `document_id` of this collection.
    pub fn doc<T: TryIntoDocumentId>(&self, document_id: T) -> (r: Result<DocumentName, Error>)
        requires
            document_id.arg_wf(),
        ensures
            r is Ok <==> seg_ok(document_id.arg_str()),
            r is Ok ==> r->Ok_0@ == (QualView {
                db: self@.db,
                segs: self@.segs.push(document_id.arg_str()),
            }),
            r is Ok && self.wf() ==> r->Ok_0.wf(),
            r is Err ==> r->Err_0.kind() == ErrorKind::DocumentIdConversion && r->Err_0.cause()
                == Some(seg_err(document_id.arg_str())),
    {
        self.clone().into_doc(document_id)
    }

    /// Descends into the document `document_id`; consumes this name.
    pub fn into_doc<T: TryIntoDocumentId>(self, document_id: T) -> (r: Result<DocumentName, Error>)
        requires
            document_id.arg_wf(),
        ensures
            r is Ok <==> seg_ok(document_id.arg_str()),
            r is Ok ==> r->Ok_0@ == (QualView {
                db: self@.db,
                segs: self@.segs.push(document_id.arg_str()),
            }),
            r is Ok && self.wf() ==> r->Ok_0.wf(),
            r is Err ==> r->Err_0.kind() == ErrorKind::DocumentIdConversion && r->Err_0.cause()
                == Some(seg_err(document_id.arg_str())),
    {
        let CollectionName { collection_path, root_document_name } = self;
        match collection_path.into_doc(document_id) {
            Ok(dp) => Ok(DocumentName { document_path: dp, root_document_name }),
            Err(e) => Err(e),
        }
    }

    /// The parent document name, if this collection is not at the root of
    /// the database; consumes this name.
    pub fn into_parent(self) -> (r: Option<DocumentName>)
        ensures
            r is Some <==> self@.segs.len() > 1,
            r matches Some(d) ==> d@ == (QualView { db: self@.db, segs: self@.segs.drop_last() }),
            self.wf() && r is Some ==> r->0.wf(),
    {
        proof {
            if self.wf() && self@.segs.len() > 1 {
                let v = self@.segs;
                assert forall|i: int| 0 <= i < v.drop_last().len() implies seg_ok(
                    #[trigger] v.drop_last()[i],
                ) by {
                    assert(v.drop_last()[i] == v[i]);
                }
            }
        }
        let CollectionName { collection_path, root_document_name } = self;
        match collection_path.into_parent() {
            Some(dp) => Some(DocumentName { document_path: dp, root_document_name }),
            None => None,
        }
    }

    /// The parent document name, if this collection is not at the root of
    /// the database.
    pub fn parent(&self) -> (r: Option<DocumentName>)
        ensures
            r is Some <==> self@.segs.len() > 1,
            r matches Some(d) ==> d@ == (QualView { db: self@.db, segs: self@.segs.drop_last() }),
            self.wf() && r is Some ==> r->0.wf(),
    {
        self.clone().into_parent()
    }

    /// The root document name of this collection; consumes this name.
    pub fn into_root_document_name(self) -> (r: RootDocumentName)
        ensures
            r@ == self@.db,
    {
        self.root_document_name
    }

    /// The root document name of this collection.
    pub fn root_document_name(&self) -> (r: &RootDocumentName)
        ensures
            r@ == self@.db,
    {
        &self.root_document_name
    }

    /// Parses a fully-qualified collection name: a five-segment root and
    /// an odd number of relative segments.
    pub fn parse(s: &str) -> (r: Result<CollectionName, Error>)
        ensures
            r is Ok <==> collection_name_ok(s@),
            r is Ok ==> r->Ok_0@ == parsed_qual(s@) && r->Ok_0.wf(),
            r is Err ==> r->Err_0.kind() == collection_name_err(s@) && r->Err_0.cause() is None,
    {
        let nb: usize = str_byte_len(s);
        if nb < 1 || nb > 6144 {
            return Err(Error::new(ErrorKind::LengthOutOfBounds));
        }
        let parts = split_all(s);
        let n: usize = parts.len();
        let ghost whole = split_segs(s@);
        proof {
            assert(views_of_strings(parts@).len() == whole.len());
        }
        if n < 6 || (n - 5) % 2 == 0 {
            return Err(Error::new(ErrorKind::InvalidNumberOfPathComponents));
        }
        proof {
            assert(whole.subrange(5, n as int) =~= whole.skip(5));
        }
        let cp = match build_collection_path(&parts, 5, n) {
            Ok(cp) => cp,
            Err(e) => {
                return Err(e);
            },
        };
        proof {
            assert(views_of_strings(parts@)[0] == parts@[0]@);
            assert(views_of_strings(parts@)[1] == parts@[1]@);
            assert(views_of_strings(parts@)[2] == parts@[2]@);
            assert(views_of_strings(parts@)[3] == parts@[3]@);
            assert(views_of_strings(parts@)[4] == parts@[4]@);
        }
        if !str_eq(parts[0].as_str(), "projects") || !str_eq(parts[2].as_str(), "databases")
            || !str_eq(parts[4].as_str(), "documents") {
            return Err(Error::new(ErrorKind::InvalidName));
        }
        let pid = match ProjectId::parse(parts[1].as_str()) {
            Ok(p) => p,
            Err(e) => {
                return Err(e);
            },
        };
        let dbid = match DatabaseId::parse(parts[3].as_str()) {
            Ok(d) => d,
            Err(e) => {
                return Err(e);
            },
        };
        Ok(
            CollectionName {
                collection_path: cp,
                root_document_name: RootDocumentName {
                    database_name: DatabaseName { database_id: dbid, project_id: pid },
                },
            },
        )
    }

    /// The canonical string of this collection name.
    pub fn to_string(&self) -> (r: String)
        ensures
            r@ == fmt_qual(self@),
    {
        let mut out = self.root_document_name.to_string();
        out.append("/");
        let path = self.collection_path.to_string();
        out.append(path.as_str());
        proof {
            reveal_strlit("/");
            lemma_collection_path_len(&self.collection_path);
            lemma_join_concat(root_segs(self@.db), self@.segs);
            assert(out@ =~= fmt_qual(self@));
        }
        out
    }
}

impl DocumentName {
    /// The root identifiers and every relative segment are valid, and the
    /// relative segments end on a document.
    pub open spec fn wf(&self) -> bool {
        db_wf(self@.db) && doc_segs_ok(self@.segs)
    }

    /// Combines a root prefix and a relative document path.
    pub fn new<D: ToRootDocumentName>(root_document_name: D, document_path: DocumentPath) -> (r:
        DocumentName)
        ensures
            r@ == (QualView { db: root_document_name.root_view(), segs: document_path@ }),
            (db_wf(root_document_name.root_view()) && document_path.wf()) ==> r.wf(),
    {
        DocumentName {
            document_path,
            root_document_name: root_document_name.to_root_document_name(),
        }
    }

    /// Builds the collection name for `collection_path` re-rooted below
    /// this document.
    pub fn collection<T: TryIntoCollectionPath>(&self, collection_path: T) -> (r: Result<
        CollectionName,
        Error,
    >)
        requires
            collection_path.arg_wf(),
        ensures
            r is Ok <==> collection_path_ok(collection_path.arg_str()),
            r is Ok ==> r->Ok_0@ == (QualView {
                db: self@.db,
                segs: self@.segs + split_segs(collection_path.arg_str()),
            }),
            r is Ok && self.wf() ==> r->Ok_0.wf(),
            r is Err ==> r->Err_0.kind() == ErrorKind::CollectionIdConversion && r->Err_0.cause()
                == Some(collection_path_err(collection_path.arg_str())),
    {
        self.clone().into_collection(collection_path)
    }

    /// Builds the collection name for `collection_path` re-rooted below
    /// this document; consumes this name.
    pub fn into_collection<T: TryIntoCollectionPath>(self, collection_path: T) -> (r: Result<
        CollectionName,
        Error,
    >)
        requires
            collection_path.arg_wf(),
        ensures
            r is Ok <==> collection_path_ok(collection_path.arg_str()),
            r is Ok ==> r->Ok_0@ == (QualView {
                db: self@.db,
                segs: self@.segs + split_segs(collection_path.arg_str()),
            }),
            r is Ok && self.wf() ==> r->Ok_0.wf(),
            r is Err ==> r->Err_0.kind() == ErrorKind::CollectionIdConversion && r->Err_0.cause()
                == Some(collection_path_err(collection_path.arg_str())),
    {
        let DocumentName { document_path, root_document_name } = self;
        match document_path.into_collection(collection_path) {
            Ok(cp) => Ok(CollectionName { collection_path: cp, root_document_name }),
            Err(e) => Err(e),
        }
    }

    /// The collection identifier this document lives in.
    pub fn collection_id(&self) -> (r: &crate::id::CollectionId)
        ensures
            r@ == self@.segs[self@.segs.len() - 2],
    {
        self.document_path.collection_id()
    }

    /// The database name of this document.
    pub fn database_name(&self) -> (r: &DatabaseName)
        ensures
            r@ == self@.db,
    {
        self.root_document_name.as_database_name()
    }

    /// Builds the document name for `document_path` re-rooted below this
    /// document.
    pub fn doc<T: TryIntoDocumentPath>(&self, document_path: T) -> (r: Result<DocumentName, Error>)
        requires
            document_path.arg_wf(),
        ensures
            r is Ok <==> document_path_ok(document_path.arg_str()),
            r is Ok ==> r->Ok_0@ == (QualView {
                db: self@.db,
                segs: self@.segs + split_segs(document_path.arg_str()),
            }),
            r is Ok && self.wf() ==> r->Ok_0.wf(),
            r is Err ==> r->Err_0.kind() == ErrorKind::DocumentPathConversion && r->Err_0.cause()
                == Some(document_path_err(document_path.arg_str())),
    {
        self.clone().into_doc(document_path)
    }

    /// Builds the document name for `document_path` re-rooted below this
    /// document; consumes this name.
    pub fn into_doc<T: TryIntoDocumentPath>(self, document_path: T) -> (r: Result<
        DocumentName,
        Error,
    >)
        requires
            document_path.arg_wf(),
        ensures
            r is Ok <==> document_path_ok(document_path.arg_str()),
            r is Ok ==> r->Ok_0@ == (QualView {
                db: self@.db,
                segs: self@.segs + split_segs(document_path.arg_str()),
            }),
            r is Ok && self.wf() ==> r->Ok_0.wf(),
            r is Err ==> r->Err_0.kind() == ErrorKind::DocumentPathConversion && r->Err_0.cause()
                == Some(document_path_err(document_path.arg_str())),
    {
        let DocumentName { document_path: own_path, root_document_name } = self;
        match own_path.into_doc(document_path) {
            Ok(dp) => Ok(DocumentName { document_path: dp, root_document_name }),
            Err(e) => Err(e),
        }
    }

    /// The final document identifier of this name.
    pub fn document_id(&self) -> (r: &crate::id::DocumentId)
        ensures
            r@ == self@.segs.last(),
    {
        self.document_path.document_id()
    }

    /// The relative document path of this name.
    pub fn document_path(&self) -> (r: &DocumentPath)
        ensures
            r@ == self@.segs,
    {
        &self.document_path
    }

    /// The parent collection name of this document; consumes this name.
    pub fn into_parent(self) -> (r: CollectionName)
        ensures
            r@ == (QualView { db: self@.db, segs: self@.segs.drop_last() }),
            self.wf() ==> r.wf(),
    {
        proof {
            if self.wf() {
                let v = self@.segs;
                assert forall|i: int| 0 <= i < v.drop_last().len() implies seg_ok(
                    #[trigger] v.drop_last()[i],
                ) by {
                    assert(v.drop_last()[i] == v[i]);
                }
            }
        }
        let DocumentName { document_path, root_document_name } = self;
        CollectionName { collection_path: document_path.into_parent(), root_document_name }
    }

    /// The parent collection name of this document.
    pub fn parent(&self) -> (r: CollectionName)
        ensures
            r@ == (QualView { db: self@.db, segs: self@.segs.drop_last() }),
            self.wf() ==> r.wf(),
    {
        self.clone().into_parent()
    }

    /// The document name two levels up, if this document is nested below
    /// another document; consumes this name.
    pub fn into_parent_document_name(self) -> (r: Option<DocumentName>)
        ensures
            r is Some <==> self@.segs.len() > 2,
            r matches Some(d) ==> d@ == (QualView {
                db: self@.db,
                segs: self@.segs.drop_last().drop_last(),
            }),
            self.wf() && r is Some ==> r->0.wf(),
    {
        proof {
            lemma_document_path_len(&self.document_path);
            if self.wf() {
                let v = self@.segs;
                assert forall|i: int|
                    0 <= i < v.drop_last().drop_last().len() implies seg_ok(
                    #[trigger] v.drop_last().drop_last()[i],
                ) by {
                    assert(v.drop_last().drop_last()[i] == v[i]);
                }
            }
        }
        let DocumentName { document_path, root_document_name } = self;
        match document_path.into_parent().into_parent() {
            Some(dp) => Some(DocumentName { document_path: dp, root_document_name }),
            None => None,
        }
    }

    /// The document name two levels up, if this document is nested below
    /// another document.
    pub fn parent_document_name(&self) -> (r: Option<DocumentName>)
        ensures
            r is Some <==> self@.segs.len() > 2,
            r matches Some(d) ==> d@ == (QualView {
                db: self@.db,
                segs: self@.segs.drop_last().drop_last(),
            }),
            self.wf() && r is Some ==> r->0.wf(),
    {
        self.clone().into_parent_document_name()
    }

    /// The root document name of this document; consumes this name.
    pub fn into_root_document_name(self) -> (r: RootDocumentName)
        ensures
            r@ == self@.db,
    {
        self.root_document_name
    }

    /// The root document name of this document.
    pub fn root_document_name(&self) -> (r: &RootDocumentName)
        ensures
            r@ == self@.db,
    {
        &self.root_document_name
    }

    /// Parses a fully-qualified document name: a five-segment root and an
    /// even number, at least two, of relative segments.
    pub fn parse(s: &str) -> (r: Result<DocumentName, Error>)
        ensures
            r is Ok <==> document_name_ok(s@),
            r is Ok ==> r->Ok_0@ == parsed_qual(s@) && r->Ok_0.wf(),
            r is Err ==> r->Err_0.kind() == document_name_err(s@) && r->Err_0.cause() is None,
    {
        let nb: usize = str_byte_len(s);
        if nb < 1 || nb > 6144 {
            return Err(Error::new(ErrorKind::LengthOutOfBounds));
        }
        let parts = split_all(s);
        let n: usize = parts.len();
        let ghost whole = split_segs(s@);
        proof {
            assert(views_of_strings(parts@).len() == whole.len());
        }
        if n < 7 || (n - 5) % 2 == 1 {
            return Err(Error::new(ErrorKind::InvalidNumberOfPathComponents));
        }
        proof {
            assert(views_of_strings(parts@)[0] == parts@[0]@);
            assert(views_of_strings(parts@)[1] == parts@[1]@);
            assert(views_of_strings(parts@)[2] == parts@[2]@);
            assert(views_of_strings(parts@)[3] == parts@[3]@);
            assert(views_of_strings(parts@)[4] == parts@[4]@);
        }
        if !str_eq(parts[0].as_str(), "projects") || !str_eq(parts[2].as_str(), "databases")
            || !str_eq(parts[4].as_str(), "documents") {
            return Err(Error::new(ErrorKind::InvalidName));
        }
        let pid = match ProjectId::parse(parts[1].as_str()) {
            Ok(p) => p,
            Err(e) => {
                return Err(e);
            },
        };
        let dbid = match DatabaseId::parse(parts[3].as_str()) {
            Ok(d) => d,
            Err(e) => {
                return Err(e);
            },
        };
        let cp = match build_collection_path(&parts, 5, n - 1) {
            Ok(cp) => cp,
            Err(e) => {
                proof {
                    let tail = whole.skip(5);
                    let sub = whole.subrange(5, n - 1);
                    crate::id::lemma_first_bad_seg_props(sub);
                    let k = crate::id::first_bad_seg(sub);
                    assert(sub[k] == tail[k]);
                    assert forall|j: int| 0 <= j < k implies seg_ok(#[trigger] tail[j]) by {
                        assert(sub[j] == tail[j]);
                    }
                    lemma_first_bad_seg(tail, k);
                }
                return Err(e);
            },
        };
        let did = match crate::id::DocumentId::parse(parts[n - 1].as_str()) {
            Ok(did) => did,
            Err(e) => {
                proof {
                    let tail = whole.skip(5);
                    assert(views_of_strings(parts@)[n - 1] == parts@[n - 1]@);
                    assert(tail[n - 6] == whole[n - 1]);
                    assert forall|j: int| 0 <= j < n - 6 implies seg_ok(#[trigger] tail[j]) by {
                        assert(whole.subrange(5, n - 1)[j] == tail[j]);
                    }
                    lemma_first_bad_seg(tail, n - 6);
                }
                return Err(e);
            },
        };
        let dp = DocumentPath::new(cp, did);
        proof {
            assert(views_of_strings(parts@)[n - 1] == parts@[n - 1]@);
            assert(dp@ =~= whole.skip(5));
            let tail = whole.skip(5);
            assert forall|j: int| 0 <= j < tail.len() implies seg_ok(#[trigger] tail[j]) by {
                if j < n - 6 {
                    assert(whole.subrange(5, n - 1)[j] == tail[j]);
                } else {
                    assert(tail[j] == whole[n - 1]);
                }
            }
        }
        Ok(
            DocumentName {
                document_path: dp,
                root_document_name: RootDocumentName {
                    database_name: DatabaseName { database_id: dbid, project_id: pid },
                },
            },
        )
    }

    /// The canonical string of this document name.
    pub fn to_string(&self) -> (r: String)
        ensures
            r@ == fmt_qual(self@),
    {
        let mut out = self.root_document_name.to_string();
        out.append("/");
        let path = self.document_path.to_string();
        out.append(path.as_str());
        proof {
            reveal_strlit("/");
            lemma_document_path_len(&self.document_path);
            lemma_join_concat(root_segs(self@.db), self@.segs);
            assert(out@ =~= fmt_qual(self@));
        }
        out
    }
}

impl Clone for DatabaseName {
    /// Clones the name; the clone equals the original.
    fn clone(&self) -> (r: Self)
        ensures
            r == *self,
    {
        DatabaseName { database_id: self.database_id.clone(), project_id: self.project_id.clone() }
    }
}

impl Clone for RootDocumentName {
    /// Clones the name; the clone equals the original.
    fn clone(&self) -> (r: Self)
        ensures
            r == *self,
    {
        RootDocumentName { database_name: self.database_name.clone() }
    }
}

impl Clone for CollectionName {
    /// Clones the name; the clone equals the original.
    fn clone(&self) -> (r: Self)
        ensures
            r == *self,
    {
        CollectionName {
            collection_path: self.collection_path.clone(),
            root_document_name: self.root_document_name.clone(),
        }
    }
}

impl Clone for DocumentName {
    /// Clones the name; the clone equals the original.
    fn clone(&self) -> (r: Self)
        ensures
            r == *self,
    {
        DocumentName {
            document_path: self.document_path.clone(),
            root_document_name: self.root_document_name.clone(),
        }
    }
}

impl PartialEq for DatabaseName {
    fn eq(&self, other: &Self) -> (r: bool) {
        self.project_id == other.project_id && self.database_id == other.database_id
    }
}

impl vstd::std_specs::cmp::PartialEqSpecImpl for DatabaseName {
    open spec fn obeys_eq_spec() -> bool {
        true
    }

    open spec fn eq_spec(&self, other: &Self) -> bool {
        self@ == other@
    }
}

impl PartialEq for RootDocumentName {
    fn eq(&self, other: &Self) -> (r: bool) {
        self.database_name == other.database_name
    }
}

impl vstd::std_specs::cmp::PartialEqSpecImpl for RootDocumentName {
    open spec fn obeys_eq_spec() -> bool {
        true
    }

    open spec fn eq_spec(&self, other: &Self) -> bool {
        self@ == other@
    }
}

impl PartialEq for CollectionName {
    fn eq(&self, other: &Self) -> (r: bool) {
        self.root_document_name == other.root_document_name && self.collection_path
            == other.collection_path
    }
}

impl vstd::std_specs::cmp::PartialEqSpecImpl for CollectionName {
    open spec fn obeys_eq_spec() -> bool {
        true
    }

    open spec fn eq_spec(&self, other: &Self) -> bool {
        self@ == other@
    }
}

impl PartialEq for DocumentName {
    fn eq(&self, other: &Self) -> (r: bool) {
        self.root_document_name == other.root_document_name && self.document_path
            == other.document_path
    }
}

impl vstd::std_specs::cmp::PartialEqSpecImpl for DocumentName {
    open spec fn obeys_eq_spec() -> bool {
        true
    }

    open spec fn eq_spec(&self, other: &Self) -> bool {
        self@ == other@
    }
}

impl From<DatabaseName> for RootDocumentName {
    /// The root document name of the database.
    fn from(database_name: DatabaseName) -> (r: Self) {
        RootDocumentName { database_name }
    }
}

impl vstd::std_specs::convert::FromSpecImpl<DatabaseName> for RootDocumentName {
    open spec fn obeys_from_spec() -> bool {
        true
    }

    closed spec fn from_spec(v: DatabaseName) -> RootDocumentName {
        RootDocumentName { database_name: v }
    }
}

impl From<RootDocumentName> for DatabaseName {
    /// The database name the root wraps.
    fn from(root_document_name: RootDocumentName) -> (r: Self) {
        root_document_name.database_name
    }
}

impl vstd::std_specs::convert::FromSpecImpl<RootDocumentName> for DatabaseName {
    open spec fn obeys_from_spec() -> bool {
        true
    }

    closed spec fn from_spec(v: RootDocumentName) -> DatabaseName {
        v.database_name
    }
}

impl From<DatabaseName> for DatabaseId {
    /// The database identifier of the name.
    fn from(database_name: DatabaseName) -> (r: Self) {
        database_name.database_id
    }
}

impl vstd::std_specs::convert::FromSpecImpl<DatabaseName> for DatabaseId {
    open spec fn obeys_from_spec() -> bool {
        true
    }

    closed spec fn from_spec(v: DatabaseName) -> DatabaseId {
        v.database_id
    }
}

impl From<DatabaseName> for ProjectId {
    /// The project identifier of the name.
    fn from(database_name: DatabaseName) -> (r: Self) {
        database_name.project_id
    }
}

impl vstd::std_specs::convert::FromSpecImpl<DatabaseName> for ProjectId {
    open spec fn obeys_from_spec() -> bool {
        true
    }

    closed spec fn from_spec(v: DatabaseName) -> ProjectId {
        v.project_id
    }
}

impl From<CollectionName> for crate::id::CollectionId {
    /// The final collection identifier of the name.
    fn from(collection_name: CollectionName) -> (r: Self) {
        Self::from(collection_name.collection_path)
    }
}

impl vstd::std_specs::convert::FromSpecImpl<CollectionName> for crate::id::CollectionId {
    open spec fn obeys_from_spec() -> bool {
        false
    }

    closed spec fn from_spec(v: CollectionName) -> crate::id::CollectionId {
        arbitrary()
    }
}

impl From<CollectionName> for CollectionPath {
    /// The relative collection path of the name.
    fn from(collection_name: CollectionName) -> (r: Self) {
        collection_name.collection_path
    }
}

impl vstd::std_specs::convert::FromSpecImpl<CollectionName> for CollectionPath {
    open spec fn obeys_from_spec() -> bool {
        true
    }

    closed spec fn from_spec(v: CollectionName) -> CollectionPath {
        v.collection_path
    }
}

impl From<CollectionName> for DatabaseName {
    /// The database name of the collection.
    fn from(collection_name: CollectionName) -> (r: Self) {
        collection_name.root_document_name.database_name
    }
}

impl vstd::std_specs::convert::FromSpecImpl<CollectionName> for DatabaseName {
    open spec fn obeys_from_spec() -> bool {
        true
    }

    closed spec fn from_spec(v: CollectionName) -> DatabaseName {
        v.root_document_name.database_name
    }
}

impl From<DocumentName> for DatabaseName {
    /// The database name of the document.
    fn from(document_name: DocumentName) -> (r: Self) {
        document_name.root_document_name.database_name
    }
}

impl vstd::std_specs::convert::FromSpecImpl<DocumentName> for DatabaseName {
    open spec fn obeys_from_spec() -> bool {
        true
    }

    closed spec fn from_spec(v: DocumentName) -> DatabaseName {
        v.root_document_name.database_name
    }
}

impl From<DocumentName> for crate::id::DocumentId {
    /// The final document identifier of the name.
    fn from(document_name: DocumentName) -> (r: Self) {
        Self::from(document_name.document_path)
    }
}

impl vstd::std_specs::convert::FromSpecImpl<DocumentName> for crate::id::DocumentId {
    open spec fn obeys_from_spec() -> bool {
        false
    }

    closed spec fn from_spec(v: DocumentName) -> crate::id::DocumentId {
        arbitrary()
    }
}

impl From<DocumentName> for DocumentPath {
    /// The relative document path of the name.
    fn from(document_name: DocumentName) -> (r: Self) {
        document_name.document_path
    }
}

impl vstd::std_specs::convert::FromSpecImpl<DocumentName> for DocumentPath {
    open spec fn obeys_from_spec() -> bool {
        true
    }

    closed spec fn from_spec(v: DocumentName) -> DocumentPath {
        v.document_path
    }
}

impl TryFrom<&str> for DatabaseName {
    type Error = Error;

    fn try_from(s: &str) -> Result<Self, Self::Error> {
        Self::parse(s)
    }
}

impl TryFrom<String> for DatabaseName {
    type Error = Error;

    fn try_from(s: String) -> Result<Self, Self::Error> {
        Self::parse(s.as_str())
    }
}

impl vstd::std_specs::convert::TryFromSpecImpl<&str> for DatabaseName {
    open spec fn obeys_try_from_spec() -> bool {
        false
    }

    open spec fn try_from_spec(v: &str) -> Result<Self, Self::Error> {
        arbitrary()
    }
}

impl vstd::std_specs::convert::TryFromSpecImpl<String> for DatabaseName {
    open spec fn obeys_try_from_spec() -> bool {
        false
    }

    open spec fn try_from_spec(v: String) -> Result<Self, Self::Error> {
        arbitrary()
    }
}

impl std::str::FromStr for DatabaseName {
    type Err = Error;

    fn from_str(s: &str) -> Result<Self, Self::Err> {
        Self::parse(s)
    }
}

impl TryFrom<&str> for RootDocumentName {
    type Error = Error;

    fn try_from(s: &str) -> Result<Self, Self::Error> {
        Self::parse(s)
    }
}

impl TryFrom<String> for RootDocumentName {
    type Error = Error;

    fn try_from(s: String) -> Result<Self, Self::Error> {
        Self::parse(s.as_str())
    }
}

impl vstd::std_specs::convert::TryFromSpecImpl<&str> for RootDocumentName {
    open spec fn obeys_try_from_spec() -> bool {
        false
    }

    open spec fn try_from_spec(v: &str) -> Result<Self, Self::Error> {
        arbitrary()
    }
}

impl vstd::std_specs::convert::TryFromSpecImpl<String> for RootDocumentName {
    open spec fn obeys_try_from_spec() -> bool {
        false
    }

    open spec fn try_from_spec(v: String) -> Result<Self, Self::Error> {
        arbitrary()
    }
}

impl std::str::FromStr for RootDocumentName {
    type Err = Error;

    fn from_str(s: &str) -> Result<Self, Self::Err> {
        Self::parse(s)
    }
}

impl TryFrom<&str> for CollectionName {
    type Error = Error;

    fn try_from(s: &str) -> Result<Self, Self::Error> {
        Self::parse(s)
    }
}

impl TryFrom<String> for CollectionName {
    type Error = Error;

    fn try_from(s: String) -> Result<Self, Self::Error> {
        Self::parse(s.as_str())
    }
}

impl vstd::std_specs::convert::TryFromSpecImpl<&str> for CollectionName {
    open spec fn obeys_try_from_spec() -> bool {
        false
    }

    open spec fn try_from_spec(v: &str) -> Result<Self, Self::Error> {
        arbitrary()
    }
}

impl vstd::std_specs::convert::TryFromSpecImpl<String> for CollectionName {
    open spec fn obeys_try_from_spec() -> bool {
        false
    }

    open spec fn try_from_spec(v: String) -> Result<Self, Self::Error> {
        arbitrary()
    }
}

impl std::str::FromStr for CollectionName {
    type Err = Error;

    fn from_str(s: &str) -> Result<Self, Self::Err> {
        Self::parse(s)
    }
}

impl TryFrom<&str> for DocumentName {
    type Error = Error;

    fn try_from(s: &str) -> Result<Self, Self::Error> {
        Self::parse(s)
    }
}

impl TryFrom<String> for DocumentName {
    type Error = Error;

    fn try_from(s: String) -> Result<Self, Self::Error> {
        Self::parse(s.as_str())
    }
}

impl vstd::std_specs::convert::TryFromSpecImpl<&str> for DocumentName {
    open spec fn obeys_try_from_spec() -> bool {
        false
    }

    open spec fn try_from_spec(v: &str) -> Result<Self, Self::Error> {
        arbitrary()
    }
}

impl vstd::std_specs::convert::TryFromSpecImpl<String> for DocumentName {
    open spec fn obeys_try_from_spec() -> bool {
        false
    }

    open spec fn try_from_spec(v: String) -> Result<Self, Self::Error> {
        arbitrary()
    }
}

impl std::str::FromStr for DocumentName {
    type Err = Error;

    fn from_str(s: &str) -> Result<Self, Self::Err> {
        Self::parse(s)
    }
}

} // verus!
