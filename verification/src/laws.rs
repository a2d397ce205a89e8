//! The laws this library guarantees, stated over the same spec functions
//! its contracts use: formatting a parsed value returns the exact string it
//! was parsed from, re-parsing a formatted value changes nothing, a
//! formatted well-formed value is always accepted by its parser, appending
//! a relative collection path below a document path preserves every
//! segment, and ascending from a document name visits the enclosing
//! collection and document identifiers in order.
use vstd::prelude::*;

use crate::id::database_id_ok;
use crate::id::is_project_char;
use crate::id::project_id_ok;
use crate::id::seg_ok;
use crate::name::DbView;
use crate::name::QualView;
use crate::name::collection_name_ok;
use crate::name::database_name_ok;
use crate::name::db_segs;
use crate::name::db_wf;
use crate::name::document_name_ok;
use crate::name::fmt_db;
use crate::name::fmt_qual;
use crate::name::fmt_root;
use crate::name::parsed_db;
use crate::name::parsed_qual;
use crate::name::root_name_ok;
use crate::name::root_segs;
use crate::path::col_segs_ok;
use crate::path::collection_path_ok;
use crate::path::doc_segs_ok;
use crate::path::document_path_ok;
use crate::text::all_slash_free;
use crate::text::byte_len;
use crate::text::join_segs;
use crate::text::lemma_byte_len_ge_len;
use crate::text::lemma_join_concat;
use crate::text::lemma_join_split;
use crate::text::lemma_split_join_inverse;
use crate::text::slash_free;
use crate::text::split_segs;

verus! {

/// A valid project identifier contains no slash.
proof fn lemma_project_id_slash_free(s: Seq<char>)
    requires
        project_id_ok(s),
    ensures
        slash_free(s),
{
    assert forall|i: int| 0 <= i < s.len() implies s[i] != '/' by {
        assert(is_project_char(s[i]));
    }
}

/// A valid database identifier contains no slash.
proof fn lemma_database_id_slash_free(s: Seq<char>)
    requires
        database_id_ok(s),
    ensures
        slash_free(s),
{
    if s == "(default)"@ {
        reveal_strlit("(default)");
        assert forall|i: int| 0 <= i < s.len() implies s[i] != '/' by {
            assert(s.len() == 9);
        }
    } else {
        assert forall|i: int| 0 <= i < s.len() implies s[i] != '/' by {
            assert(is_project_char(s[i]));
        }
    }
}

/// The fixed literal segments of a root prefix contain no slash.
proof fn lemma_root_literals_slash_free()
    ensures
        slash_free("projects"@),
        slash_free("databases"@),
        slash_free("documents"@),
{
    reveal_strlit("projects");
    reveal_strlit("databases");
    reveal_strlit("documents");
    assert forall|i: int| 0 <= i < "projects"@.len() implies "projects"@[i] != '/' by {
        assert("projects"@.len() == 8);
    }
    assert forall|i: int| 0 <= i < "databases"@.len() implies "databases"@[i] != '/' by {
        assert("databases"@.len() == 9);
    }
    assert forall|i: int| 0 <= i < "documents"@.len() implies "documents"@[i] != '/' by {
        assert("documents"@.len() == 9);
    }
}

/// The five segments of a well-formed root prefix contain no slash.
proof fn lemma_root_segs_slash_free(v: DbView)
    requires
        db_wf(v),
    ensures
        all_slash_free(root_segs(v)),
{
    lemma_root_literals_slash_free();
    lemma_project_id_slash_free(v.project);
    lemma_database_id_slash_free(v.database);
    assert forall|i: int| 0 <= i < root_segs(v).len() implies slash_free(
        #[trigger] root_segs(v)[i],
    ) by {
        assert(root_segs(v).len() == 5);
    }
}

/// Valid identifier segments contain no slash.
proof fn lemma_segs_slash_free(segs: Seq<Seq<char>>)
    requires
        crate::id::segs_ok(segs),
    ensures
        all_slash_free(segs),
{
    assert forall|i: int| 0 <= i < segs.len() implies slash_free(#[trigger] segs[i]) by {
        assert(seg_ok(segs[i]));
    }
}

/// Round trip for collection paths: formatting the parsed segments of any
/// accepted string gives back that string, so re-parsing the formatted
/// value parses to the same segments.
pub proof fn collection_path_round_trip(s: Seq<char>)
    requires
        collection_path_ok(s),
    ensures
        join_segs(split_segs(s)) == s,
        collection_path_ok(join_segs(split_segs(s))),
        split_segs(join_segs(split_segs(s))) == split_segs(s),
{
    lemma_join_split(s);
}

/// Round trip for document paths.
pub proof fn document_path_round_trip(s: Seq<char>)
    requires
        document_path_ok(s),
    ensures
        join_segs(split_segs(s)) == s,
        document_path_ok(join_segs(split_segs(s))),
        split_segs(join_segs(split_segs(s))) == split_segs(s),
{
    lemma_join_split(s);
}

/// Round trip for database names.
pub proof fn database_name_round_trip(s: Seq<char>)
    requires
        database_name_ok(s),
    ensures
        fmt_db(parsed_db(s)) == s,
        database_name_ok(fmt_db(parsed_db(s))),
        parsed_db(fmt_db(parsed_db(s))) == parsed_db(s),
{
    assert(db_segs(parsed_db(s)) =~~= split_segs(s));
    lemma_join_split(s);
}

/// Round trip for root document names.
pub proof fn root_document_name_round_trip(s: Seq<char>)
    requires
        root_name_ok(s),
    ensures
        fmt_root(parsed_db(s)) == s,
        root_name_ok(fmt_root(parsed_db(s))),
        parsed_db(fmt_root(parsed_db(s))) == parsed_db(s),
{
    assert(root_segs(parsed_db(s)) =~~= split_segs(s));
    lemma_join_split(s);
}

/// Round trip for fully-qualified collection names.
pub proof fn collection_name_round_trip(s: Seq<char>)
    requires
        collection_name_ok(s),
    ensures
        fmt_qual(parsed_qual(s)) == s,
        collection_name_ok(fmt_qual(parsed_qual(s))),
        parsed_qual(fmt_qual(parsed_qual(s))) == parsed_qual(s),
{
    assert(root_segs(parsed_db(s)) + split_segs(s).skip(5) =~~= split_segs(s));
    lemma_join_split(s);
}

/// Round trip for fully-qualified document names.
pub proof fn document_name_round_trip(s: Seq<char>)
    requires
        document_name_ok(s),
    ensures
        fmt_qual(parsed_qual(s)) == s,
        document_name_ok(fmt_qual(parsed_qual(s))),
        parsed_qual(fmt_qual(parsed_qual(s))) == parsed_qual(s),
{
    assert(root_segs(parsed_db(s)) + split_segs(s).skip(5) =~~= split_segs(s));
    lemma_join_split(s);
}

/// Formatting any well-formed collection path yields a string its parser
/// accepts, and parsing it recovers exactly the original segments.
pub proof fn collection_path_format_then_parse(segs: Seq<Seq<char>>)
    requires
        col_segs_ok(segs),
    ensures
        collection_path_ok(join_segs(segs)),
        split_segs(join_segs(segs)) == segs,
{
    lemma_segs_slash_free(segs);
    lemma_split_join_inverse(segs);
}

/// Formatting any well-formed document path yields a string its parser
/// accepts, and parsing it recovers exactly the original segments.
pub proof fn document_path_format_then_parse(segs: Seq<Seq<char>>)
    requires
        doc_segs_ok(segs),
    ensures
        document_path_ok(join_segs(segs)),
        split_segs(join_segs(segs)) == segs,
{
    lemma_segs_slash_free(segs);
    lemma_split_join_inverse(segs);
}

/// Formatting any well-formed collection name no longer than the name
/// length limit yields a string its parser accepts, and parsing it
/// recovers exactly the original view.
pub proof fn collection_name_format_then_parse(v: QualView)
    requires
        db_wf(v.db),
        col_segs_ok(v.segs),
        byte_len(fmt_qual(v)) <= 6144,
    ensures
        collection_name_ok(fmt_qual(v)),
        parsed_qual(fmt_qual(v)) == v,
{
    let all = root_segs(v.db) + v.segs;
    lemma_root_segs_slash_free(v.db);
    lemma_segs_slash_free(v.segs);
    assert(all_slash_free(all)) by {
        assert forall|i: int| 0 <= i < all.len() implies slash_free(#[trigger] all[i]) by {
            if i < 5 {
                assert(all[i] == root_segs(v.db)[i]);
            } else {
                assert(all[i] == v.segs[i - 5]);
            }
        }
    }
    lemma_split_join_inverse(all);
    lemma_join_concat(root_segs(v.db), v.segs);
    lemma_byte_len_ge_len(fmt_qual(v));
    assert(split_segs(fmt_qual(v)).skip(5) =~~= v.segs);
    assert(parsed_qual(fmt_qual(v)) == v);
}

/// Formatting any well-formed document name no longer than the name length
/// limit yields a string its parser accepts, and parsing it recovers
/// exactly the original view.
pub proof fn document_name_format_then_parse(v: QualView)
    requires
        db_wf(v.db),
        doc_segs_ok(v.segs),
        byte_len(fmt_qual(v)) <= 6144,
    ensures
        document_name_ok(fmt_qual(v)),
        parsed_qual(fmt_qual(v)) == v,
{
    let all = root_segs(v.db) + v.segs;
    lemma_root_segs_slash_free(v.db);
    lemma_segs_slash_free(v.segs);
    assert(all_slash_free(all)) by {
        assert forall|i: int| 0 <= i < all.len() implies slash_free(#[trigger] all[i]) by {
            if i < 5 {
                assert(all[i] == root_segs(v.db)[i]);
            } else {
                assert(all[i] == v.segs[i - 5]);
            }
        }
    }
    lemma_split_join_inverse(all);
    lemma_join_concat(root_segs(v.db), v.segs);
    lemma_byte_len_ge_len(fmt_qual(v));
    assert(split_segs(fmt_qual(v)).skip(5) =~~= v.segs);
    assert(parsed_qual(fmt_qual(v)) == v);
}

/// Re-rooting: appending well-formed collection-path segments below
/// well-formed document-path segments yields exactly the segments of the
/// concatenated string, with every identifier preserved. Together with the
/// contract of the document-path descend operation, whose result view is
/// the concatenation of the two segment lists, appending a parsed relative
/// collection path equals parsing the slash-joined concatenation.
pub proof fn re_rooting_appends_segments(below: Seq<Seq<char>>, rel: Seq<Seq<char>>)
    requires
        doc_segs_ok(below),
        col_segs_ok(rel),
    ensures
        col_segs_ok(below + rel),
        split_segs(join_segs(below) + seq!['/'] + join_segs(rel)) == below + rel,
        join_segs(below + rel) == join_segs(below) + seq!['/'] + join_segs(rel),
{
    lemma_segs_slash_free(below);
    lemma_segs_slash_free(rel);
    assert forall|i: int|
        0 <= i < (below + rel).len() implies slash_free(#[trigger] (below + rel)[i]) by {
        if i < below.len() {
            assert((below + rel)[i] == below[i]);
        } else {
            assert((below + rel)[i] == rel[i - below.len()]);
        }
    }
    assert forall|i: int| 0 <= i < (below + rel).len() implies seg_ok(#[trigger] (below + rel)[i]) by {
        if i < below.len() {
            assert((below + rel)[i] == below[i]);
        } else {
            assert((below + rel)[i] == rel[i - below.len()]);
        }
    }
    lemma_join_concat(below, rel);
    lemma_split_join_inverse(below + rel);
}

/// Navigation consistency: from the view of a document name, the parent
/// collection name's final identifier is the next-to-last segment, and the
/// grandparent document name, when the document is nested, ends in the
/// segment before that. The parent operations return views whose segments
/// drop the last segment, so this pins what their identifier accessors
/// return.
pub proof fn document_name_navigation(v: QualView)
    requires
        v.segs.len() >= 2,
    ensures
        v.segs.drop_last().last() == v.segs[v.segs.len() - 2],
        v.segs.len() > 2 ==> v.segs.drop_last().drop_last().last() == v.segs[v.segs.len() - 3],
{
}

} // verus!
