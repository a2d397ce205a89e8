//! The fully-qualified name types: construction, parsing, navigation and
//! conversions.
use std::str::FromStr;

use firestore_path::{
    CollectionId, CollectionName, DatabaseId, DatabaseName, DocumentId, DocumentName, Error,
    ProjectId, RootDocumentName,
};

#[test]
fn database_name_test() -> Result<(), Error> {
    let s = "projects/my-project/databases/my-database";
    let database_name = DatabaseName::from_str(s)?;
    assert_eq!(database_name.to_string(), s);
    Ok(())
}

#[test]
fn database_name_test_impl_from_str_and_impl_try_from_string() -> Result<(), Error> {
    for (s, expected) in [
        ("", false),
        ("projects/my-project/databases/my-database", true),
        ("x".repeat(1024 * 6 + 1).as_ref(), false),
        ("p/my-project/databases/my-database", false),
        ("projects/my-project/d/my-database", false),
        ("projects/P/databases/my-database/d", false),
        ("projects/my-project/databases/D", false),
    ] {
        assert_eq!(DatabaseName::from_str(s).is_ok(), expected);
        assert_eq!(DatabaseName::try_from(s).is_ok(), expected);
        assert_eq!(DatabaseName::try_from(s.to_string()).is_ok(), expected);
        if expected {
            assert_eq!(DatabaseName::from_str(s)?, DatabaseName::try_from(s)?);
            assert_eq!(
                DatabaseName::from_str(s)?,
                DatabaseName::try_from(s.to_string())?
            );
            assert_eq!(DatabaseName::from_str(s)?.to_string(), s);
        }
    }
    Ok(())
}

#[test]
fn database_name_test_new() -> Result<(), Error> {
    let project_id = ProjectId::from_str("my-project")?;
    let database_id = DatabaseId::from_str("my-database")?;
    let database_name = DatabaseName::new(project_id.clone(), database_id.clone());
    assert_eq!(
        database_name.to_string(),
        format!(
            "projects/{}/databases/{}",
            project_id.to_string(),
            database_id.to_string()
        )
    );
    Ok(())
}

#[test]
fn root_document_name_test() -> Result<(), Error> {
    let s = "projects/my-project/databases/my-database/documents";
    let root_document_name = RootDocumentName::from_str(s)?;
    assert_eq!(root_document_name.to_string(), s);
    Ok(())
}

#[test]
fn root_document_name_test_impl_from_str_and_impl_try_from_string() -> Result<(), Error> {
    for (s, expected) in [
        ("", false),
        ("projects/my-project/databases/my-database/documents", true),
        ("x".repeat(1024 * 6 + 1).as_ref(), false),
        ("p/my-project/databases/my-database/documents", false),
        ("projects/my-project/d/my-database/documents", false),
        ("projects/my-project/databases/my-database/d", false),
        ("projects/P/databases/my-database/d", false),
        ("projects/my-project/databases/D/d", false),
    ] {
        assert_eq!(RootDocumentName::from_str(s).is_ok(), expected);
        assert_eq!(RootDocumentName::try_from(s).is_ok(), expected);
        assert_eq!(RootDocumentName::try_from(s.to_string()).is_ok(), expected);
        if expected {
            assert_eq!(RootDocumentName::from_str(s)?, RootDocumentName::try_from(s)?);
            assert_eq!(
                RootDocumentName::from_str(s)?,
                RootDocumentName::try_from(s.to_string())?
            );
            assert_eq!(RootDocumentName::from_str(s)?.to_string(), s);
        }
    }
    Ok(())
}

#[test]
fn collection_name_test() -> Result<(), Error> {
    let s = "projects/my-project/databases/my-database/documents/chatrooms";
    let collection_name = CollectionName::from_str(s)?;
    assert_eq!(collection_name.to_string(), s);

    let s = "projects/my-project/databases/my-database/documents/chatrooms/chatroom1/messages";
    let collection_name = CollectionName::from_str(s)?;
    assert_eq!(collection_name.to_string(), s);
    Ok(())
}

#[test]
fn collection_name_test_collection_id() -> Result<(), Error> {
    let s = "projects/my-project/databases/my-database/documents/chatrooms";
    let collection_name = CollectionName::from_str(s)?;
    assert_eq!(
        collection_name.collection_id(),
        &CollectionId::from_str("chatrooms")?
    );
    Ok(())
}

#[test]
fn collection_name_test_doc() -> Result<(), Error> {
    let collection_name =
        CollectionName::from_str("projects/my-project/databases/my-database/documents/chatrooms")?;
    let document_name = collection_name.doc("chatroom1")?;
    assert_eq!(
        document_name,
        DocumentName::from_str(
            "projects/my-project/databases/my-database/documents/chatrooms/chatroom1"
        )?
    );
    let document_name = collection_name.doc("chatroom2")?;
    assert_eq!(
        document_name,
        DocumentName::from_str(
            "projects/my-project/databases/my-database/documents/chatrooms/chatroom2"
        )?
    );

    let collection_name = CollectionName::from_str(
        "projects/my-project/databases/my-database/documents/chatrooms/chatroom1/messages",
    )?;
    let document_name = collection_name.doc("message1")?;
    assert_eq!(
        document_name,
        DocumentName::from_str(
            "projects/my-project/databases/my-database/documents/chatrooms/chatroom1/messages/message1"
        )?
    );

    let collection_name =
        CollectionName::from_str("projects/my-project/databases/my-database/documents/chatrooms")?;
    let document_id = DocumentId::from_str("chatroom1")?;
    let document_name = collection_name.doc(document_id)?;
    assert_eq!(
        document_name,
        DocumentName::from_str(
            "projects/my-project/databases/my-database/documents/chatrooms/chatroom1"
        )?
    );

    Ok(())
}

#[test]
fn test_impl_from_collection_name_for_collection_id() -> Result<(), Error> {
    let s = "projects/my-project/databases/my-database/documents/chatrooms";
    let collection_name = CollectionName::from_str(s)?;
    assert_eq!(
        CollectionId::from(collection_name),
        CollectionId::from_str("chatrooms")?
    );
    Ok(())
}

#[test]
fn test_impl_from_collection_name_for_database_name() -> Result<(), Error> {
    let s = "projects/my-project/databases/my-database/documents/chatrooms";
    let collection_name = CollectionName::from_str(s)?;
    assert_eq!(
        DatabaseName::from(collection_name),
        DatabaseName::from_str("projects/my-project/databases/my-database")?
    );
    Ok(())
}

#[test]
fn collection_name_test_impl_from_str_and_impl_try_from_string() -> Result<(), Error> {
    let b = "projects/my-project/databases/my-database/documents";
    let c1 = "x".repeat(1500);
    let d1 = "x".repeat(1500);
    let c2 = "y".repeat(1500);
    let d2 = "y".repeat(1500);
    let c3_ok = "z".repeat(88);
    let c3_err = "z".repeat(88 + 1);
    let s1 = format!("{}/{}/{}/{}/{}/{}", b, c1, d1, c2, d2, c3_ok);
    assert_eq!(s1.len(), 6_144);
    let s2 = format!("{}/{}/{}/{}/{}/{}", b, c1, d1, c2, d2, c3_err);
    assert_eq!(s2.len(), 6_145);
    for (s, expected) in [
        ("", false),
        ("projects/my-project/databases/my-database/documents", false),
        ("projects/my-project/databases/my-database/documents/c", true),
        ("projects/my-project/databases/my-database/documents/c/d", false),
        ("projects/my-project/databases/my-database/documents/c/d/c", true),
        (s1.as_str(), true),
        (s2.as_str(), false),
    ] {
        assert_eq!(CollectionName::from_str(s).is_ok(), expected);
        assert_eq!(CollectionName::try_from(s).is_ok(), expected);
        assert_eq!(CollectionName::try_from(s.to_string()).is_ok(), expected);
        if expected {
            assert_eq!(CollectionName::from_str(s)?, CollectionName::try_from(s)?);
            assert_eq!(
                CollectionName::from_str(s)?,
                CollectionName::try_from(s.to_string())?
            );
            assert_eq!(CollectionName::from_str(s)?.to_string(), s);
        }
    }
    Ok(())
}

#[test]
fn test_into_doc() -> Result<(), Error> {
    let collection_name =
        CollectionName::from_str("projects/my-project/databases/my-database/documents/chatrooms")?;
    let document_name = collection_name.into_doc("chatroom1")?;
    assert_eq!(
        document_name,
        DocumentName::from_str(
            "projects/my-project/databases/my-database/documents/chatrooms/chatroom1"
        )?
    );

    let collection_name = CollectionName::from_str(
        "projects/my-project/databases/my-database/documents/chatrooms/chatroom1/messages",
    )?;
    let document_name = collection_name.into_doc("message1")?;
    assert_eq!(
        document_name,
        DocumentName::from_str(
            "projects/my-project/databases/my-database/documents/chatrooms/chatroom1/messages/message1"
        )?
    );

    let collection_name =
        CollectionName::from_str("projects/my-project/databases/my-database/documents/chatrooms")?;
    let document_id = DocumentId::from_str("chatroom1")?;
    let document_name = collection_name.into_doc(document_id)?;
    assert_eq!(
        document_name,
        DocumentName::from_str(
            "projects/my-project/databases/my-database/documents/chatrooms/chatroom1"
        )?
    );

    Ok(())
}

#[test]
fn collection_name_test_parent() -> Result<(), Error> {
    let s = "projects/my-project/databases/my-database/documents/chatrooms";
    let collection_name = CollectionName::from_str(s)?;
    assert_eq!(collection_name.into_parent(), None);

    let s = "projects/my-project/databases/my-database/documents/chatrooms/chatroom1/messages";
    let collection_name = CollectionName::from_str(s)?;
    assert_eq!(
        collection_name.into_parent(),
        Some(DocumentName::from_str(
            "projects/my-project/databases/my-database/documents/chatrooms/chatroom1"
        )?)
    );
    Ok(())
}

#[test]
fn document_name_test() -> Result<(), Error> {
    let s = "projects/my-project/databases/my-database/documents/chatrooms/chatroom1";
    let document_name = DocumentName::from_str(s)?;
    assert_eq!(document_name.to_string(), s);
    Ok(())
}

#[test]
fn document_name_test_collection() -> Result<(), Error> {
    let document_name = DocumentName::from_str(
        "projects/my-project/databases/my-database/documents/chatrooms/chatroom1",
    )?;
    let collection_name = document_name.into_collection("messages")?;
    assert_eq!(
        collection_name,
        CollectionName::from_str(
            "projects/my-project/databases/my-database/documents/chatrooms/chatroom1/messages"
        )?
    );

    let document_name = DocumentName::from_str(
        "projects/my-project/databases/my-database/documents/chatrooms/chatroom1/messages/message1",
    )?;
    let collection_name = document_name.into_collection("col")?;
    assert_eq!(
        collection_name,
        CollectionName::from_str(
            "projects/my-project/databases/my-database/documents/chatrooms/chatroom1/messages/message1/col"
        )?
    );

    let document_name = DocumentName::from_str(
        "projects/my-project/databases/my-database/documents/chatrooms/chatroom1",
    )?;
    let collection_id = CollectionId::from_str("messages")?;
    let collection_name = document_name.into_collection(collection_id)?;
    assert_eq!(
        collection_name,
        CollectionName::from_str(
            "projects/my-project/databases/my-database/documents/chatrooms/chatroom1/messages"
        )?
    );
    Ok(())
}

#[test]
fn document_name_test_collection_with_colleciton_path() -> Result<(), Error> {
    let document_name = DocumentName::from_str(
        "projects/my-project/databases/my-database/documents/chatrooms/chatroom1",
    )?;
    let collection_name = document_name.into_collection("messages/message1/col")?;
    assert_eq!(
        collection_name,
        CollectionName::from_str(
            "projects/my-project/databases/my-database/documents/chatrooms/chatroom1/messages/message1/col"
        )?
    );

    let document_name = DocumentName::from_str(
        "projects/my-project/databases/my-database/documents/chatrooms/chatroom1",
    )?;
    let collection_path = firestore_path::CollectionPath::from_str("messages/message1/col")?;
    let collection_name = document_name.into_collection(collection_path)?;
    assert_eq!(
        collection_name,
        CollectionName::from_str(
            "projects/my-project/databases/my-database/documents/chatrooms/chatroom1/messages/message1/col"
        )?
    );
    Ok(())
}

#[test]
fn document_name_test_document_id() -> Result<(), Error> {
    let document_name = DocumentName::from_str(
        "projects/my-project/databases/my-database/documents/chatrooms/chatroom1",
    )?;
    assert_eq!(document_name.document_id(), &DocumentId::from_str("chatroom1")?);
    Ok(())
}

#[test]
fn test_impl_from_database_name_for_document_id() -> Result<(), Error> {
    let document_name = DocumentName::from_str(
        "projects/my-project/databases/my-database/documents/chatrooms/chatroom1",
    )?;
    assert_eq!(
        DatabaseName::from(document_name),
        DatabaseName::from_str("projects/my-project/databases/my-database")?
    );
    Ok(())
}

#[test]
fn test_impl_from_document_name_for_document_id() -> Result<(), Error> {
    let document_name = DocumentName::from_str(
        "projects/my-project/databases/my-database/documents/chatrooms/chatroom1",
    )?;
    assert_eq!(
        DocumentId::from(document_name),
        DocumentId::from_str("chatroom1")?
    );
    Ok(())
}

#[test]
fn document_name_test_impl_from_str_and_impl_try_from_string() -> Result<(), Error> {
    let b = "projects/my-project/databases/my-database/documents";
    let c1 = "x".repeat(1500);
    let d1 = "x".repeat(1500);
    let c2 = "y".repeat(1500);
    let d2 = "y".repeat(1500);
    let c3 = "z".repeat(80);
    let d3_ok = "z".repeat(7);
    let d3_err = "z".repeat(7 + 1);
    let s1 = format!("{}/{}/{}/{}/{}/{}/{}", b, c1, d1, c2, d2, c3, d3_ok);
    assert_eq!(s1.len(), 6_144);
    let s2 = format!("{}/{}/{}/{}/{}/{}/{}", b, c1, d1, c2, d2, c3, d3_err);
    assert_eq!(s2.len(), 6_145);

    for (s, expected) in [
        ("projects/my-project/databases/my-database/documents", false),
        ("projects/my-project/databases/my-database/documents/c", false),
        ("projects/my-project/databases/my-database/documents/c/d", true),
        ("projects/my-project/databases/my-database/documents/c/d/c", false),
        ("projects/my-project/databases/my-database/documents/c/d/c/d", true),
        (s1.as_ref(), true),
        (s2.as_ref(), false),
    ] {
        assert_eq!(DocumentName::from_str(s).is_ok(), expected);
        assert_eq!(DocumentName::try_from(s).is_ok(), expected);
        assert_eq!(DocumentName::try_from(s.to_string()).is_ok(), expected);
        if expected {
            assert_eq!(DocumentName::from_str(s)?, DocumentName::try_from(s)?);
            assert_eq!(
                DocumentName::from_str(s)?,
                DocumentName::try_from(s.to_string())?
            );
            assert_eq!(DocumentName::from_str(s)?.to_string(), s);
        }
    }
    Ok(())
}

#[test]
fn document_name_test_parent() -> Result<(), Error> {
    let document_name = DocumentName::from_str(
        "projects/my-project/databases/my-database/documents/chatrooms/chatroom1",
    )?;
    assert_eq!(
        document_name.into_parent(),
        CollectionName::from_str("projects/my-project/databases/my-database/documents/chatrooms")?
    );
    Ok(())
}
