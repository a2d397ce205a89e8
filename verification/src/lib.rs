//! Validated, strongly-typed resource names for a hierarchical document
//! database: identifiers, relative paths of alternating collection and
//! document segments, and fully-qualified names rooted at a database.
//!
//! Every value is built either from already-validated components or by
//! parsing a canonical slash-delimited string; formatting a parsed value
//! returns the exact string it was parsed from.
mod error;
mod id;
pub mod laws;
mod name;
mod path;
mod text;

pub use self::error::Error;
pub use self::error::ErrorKind;
pub use self::id::CollectionId;
pub use self::id::DatabaseId;
pub use self::id::DocumentId;
pub use self::id::ProjectId;
pub use self::id::TryIntoDocumentId;
pub use self::id::TryIntoProjectId;
pub use self::id::database_id_err;
pub use self::id::database_id_ok;
pub use self::id::first_bad_seg;
pub use self::id::is_digit_char;
pub use self::id::is_lower_char;
pub use self::id::is_project_char;
pub use self::id::project_id_err;
pub use self::id::project_id_ok;
pub use self::id::reserved_seg;
pub use self::id::seg_err;
pub use self::id::seg_ok;
pub use self::id::segs_err;
pub use self::id::segs_ok;
pub use self::name::CollectionName;
pub use self::name::DatabaseName;
pub use self::name::DbView;
pub use self::name::DocumentName;
pub use self::name::QualView;
pub use self::name::RootDocumentName;
pub use self::name::ToRootDocumentName;
pub use self::name::collection_name_err;
pub use self::name::collection_name_ok;
pub use self::name::database_name_err;
pub use self::name::database_name_ok;
pub use self::name::db_segs;
pub use self::name::db_wf;
pub use self::name::document_name_err;
pub use self::name::document_name_ok;
pub use self::name::fmt_db;
pub use self::name::fmt_qual;
pub use self::name::fmt_root;
pub use self::name::parsed_db;
pub use self::name::parsed_qual;
pub use self::name::root_name_err;
pub use self::name::root_name_ok;
pub use self::name::root_segs;
pub use self::path::CollectionPath;
pub use self::path::DocumentPath;
pub use self::path::TryIntoCollectionPath;
pub use self::path::TryIntoDocumentPath;
pub use self::path::col_segs_ok;
pub use self::path::collection_path_err;
pub use self::path::collection_path_ok;
pub use self::path::doc_segs_ok;
pub use self::path::document_path_err;
pub use self::path::document_path_ok;
pub use self::text::all_slash_free;
pub use self::text::byte_len;
pub use self::text::contains_seq;
pub use self::text::join_segs;
pub use self::text::slash_free;
pub use self::text::split_segs;
