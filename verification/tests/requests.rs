//! The strings a caller would place into backend request fields: the
//! database resource string, the parent/collection/document triple that
//! addresses a document to create, and the full name of a document to
//! delete.
use std::str::FromStr as _;

use firestore_path::{DatabaseName, DocumentName};

#[test]
fn test_begin_transaction_request() -> Result<(), firestore_path::Error> {
    let s = "projects/my-project/databases/(default)";
    let database_name = DatabaseName::from_str(s)?;

    let database = database_name.to_string();

    assert_eq!(database, s);
    Ok(())
}

#[test]
fn test_create_document_request() -> Result<(), firestore_path::Error> {
    for (s, p, c, d) in [
        (
            "projects/my-project/databases/(default)/documents/chatrooms/chatroom1",
            "projects/my-project/databases/(default)/documents",
            "chatrooms",
            "chatroom1",
        ),
        (
            "projects/my-project/databases/(default)/documents/chatrooms/chatroom1/messages/message1",
            "projects/my-project/databases/(default)/documents/chatrooms/chatroom1",
            "messages",
            "message1",
        ),
    ] {
        let document_name = DocumentName::from_str(s)?;

        let parent = document_name
            .clone()
            .parent()
            .parent()
            .map(|parent_document_name| parent_document_name.to_string())
            .unwrap_or_else(|| document_name.root_document_name().to_string());
        let collection_id = document_name.collection_id().to_string();
        let document_id = document_name.document_id().to_string();

        assert_eq!(parent, p);
        assert_eq!(collection_id, c);
        assert_eq!(document_id, d);
    }

    Ok(())
}

#[test]
fn test_delete_document_request() -> Result<(), firestore_path::Error> {
    for s in [
        "projects/my-project/databases/(default)/documents/chatrooms/chatroom1",
        "projects/my-project/databases/(default)/documents/chatrooms/chatroom1/messages/message1",
    ] {
        let document_name = DocumentName::from_str(s)?;

        let name = document_name.to_string();

        assert_eq!(name, s);
    }

    Ok(())
}
