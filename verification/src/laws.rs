//! What holds of the registry as a whole: how creating, listing and deleting
//! go together on any table.

use vstd::prelude::*;
use crate::handlers::{create_reply, delete_reply, list_reply};
use crate::record::ServiceView;
use crate::status::StatusCode;
use crate::table::{lemma_delete_absent, lemma_delete_present, with_text, TableView};

verus! {

/// The empty table is a valid table, and both statements that change a table
/// keep it valid: at all times identifiers, names and links are unique.
pub proof fn table_stays_valid(table: TableView, name: Seq<char>, link: Seq<char>)
    requires
        table.wf(),
    ensures
        TableView::empty().wf(),
        table.insert(name, link).wf(),
        table.delete(name).wf(),
{
    if table.has_name(name) {
        let at = choose|i: int| 0 <= i < table.rows.len() && (#[trigger] table.rows[i]).name == name;
        lemma_delete_present(table.rows, name, at);
        let after = table.delete(name);
        assert forall|j: int| 0 <= j < after.rows.len() implies #[trigger] after.rows[j]
            == table.rows[if j < at { j } else { j + 1 }] by {}
    } else {
        lemma_delete_absent(table.rows, name);
    }
}

/// Creating a record whose name and link no record has yet succeeds while an
/// identifier is left. The reply is the new record, under an identifier that
/// was never given out before. A list taken afterwards holds every earlier
/// record where it was and the new record, once, at the end.
pub proof fn create_then_list(table: TableView, name: Seq<char>, link: Seq<char>)
    requires
        table.wf(),
        !table.has_name(name),
        !table.has_link(link),
        table.last_id < i32::MAX,
    ensures
        ({
            let created = table.next_row(name, link);
            let listed = list_reply(Ok::<Seq<ServiceView>, Seq<char>>(table.insert(name, link).rows));
            &&& create_reply(with_text(table.insert_result(name, link))) == Ok::<
                ServiceView,
                (StatusCode, Seq<char>),
            >(created)
            &&& created.name == name
            &&& created.link == link
            &&& created.id > table.last_id
            &&& forall|i: int| 0 <= i < table.rows.len() ==> (#[trigger] table.rows[i]).id != created.id
            &&& listed.len() == table.rows.len() + 1
            &&& forall|i: int| 0 <= i < table.rows.len() ==> #[trigger] listed[i] == table.rows[i]
            &&& listed[listed.len() - 1] == created
            &&& forall|k: int|
                0 <= k < listed.len() && (#[trigger] listed[k]).name == name && listed[k].link == link
                    ==> k == listed.len() - 1
        }),
{
}

/// Creating a record whose name or link a record already has is refused with
/// a bad request, and the table stays as it was.
pub proof fn duplicate_is_refused(table: TableView, name: Seq<char>, link: Seq<char>)
    requires
        table.has_name(name) || table.has_link(link),
    ensures
        create_reply(with_text(table.insert_result(name, link))) matches Err((status, _))
            && status == StatusCode::BadRequest,
        table.insert(name, link) == table,
{
}

/// Deleting by a name that a record has is confirmed with a message that
/// names it and removes that record and no other. Deleting by the same name
/// again finds nothing and changes nothing.
pub proof fn delete_then_delete(table: TableView, name: Seq<char>)
    requires
        table.wf(),
        table.has_name(name),
    ensures
        ({
            let after = table.delete(name);
            &&& table.rows_matching(name) == 1
            &&& delete_reply(name, Ok(table.rows_matching(name) as u64)) == Ok::<
                Seq<char>,
                (StatusCode, Seq<char>),
            >("Deleted '"@ + name + "'"@)
            &&& after.rows.len() == table.rows.len() - 1
            &&& !after.has_name(name)
            &&& forall|i: int|
                0 <= i < table.rows.len() && (#[trigger] table.rows[i]).name != name
                    ==> after.rows.contains(table.rows[i])
            &&& forall|j: int|
                0 <= j < after.rows.len() ==> table.rows.contains(#[trigger] after.rows[j])
            &&& after.rows_matching(name) == 0
            &&& delete_reply(name, Ok(after.rows_matching(name) as u64)) == Err::<
                Seq<char>,
                (StatusCode, Seq<char>),
            >((StatusCode::NotFound, "Service not found"@))
            &&& after.delete(name) == after
        }),
{
    let at = choose|i: int| 0 <= i < table.rows.len() && (#[trigger] table.rows[i]).name == name;
    let after = table.delete(name);
    lemma_delete_present(table.rows, name, at);
    assert forall|j: int| 0 <= j < after.rows.len() implies (#[trigger] after.rows[j]).name
        != name && table.rows.contains(after.rows[j]) by {
        let from = if j < at { j } else { j + 1 };
        assert(after.rows[j] == table.rows[from]);
    }
    assert forall|i: int|
        0 <= i < table.rows.len() && (#[trigger] table.rows[i]).name
            != name implies after.rows.contains(table.rows[i]) by {
        let to = if i < at { i } else { i - 1 };
        assert(after.rows[to] == table.rows[i]);
    }
    lemma_delete_absent(after.rows, name);
}

/// Deleting by a name that no record has is answered with not found and
/// changes nothing.
pub proof fn delete_of_absent_name(table: TableView, name: Seq<char>)
    requires
        !table.has_name(name),
    ensures
        table.rows_matching(name) == 0,
        delete_reply(name, Ok(table.rows_matching(name) as u64)) == Err::<
            Seq<char>,
            (StatusCode, Seq<char>),
        >((StatusCode::NotFound, "Service not found"@)),
        table.delete(name) == table,
{
    lemma_delete_absent(table.rows, name);
}

/// A list of a table without rows is empty.
pub proof fn empty_table_lists_nothing(table: TableView)
    requires
        table.rows.len() == 0,
    ensures
        list_reply(Ok::<Seq<ServiceView>, Seq<char>>(table.rows)) == Seq::<ServiceView>::empty(),
        list_reply(Ok::<Seq<ServiceView>, Seq<char>>(TableView::empty().rows)) == Seq::<
            ServiceView,
        >::empty(),
{
}

/// An identifier is given out once: after any deletion, the record that is
/// created next gets an identifier that no record had before the deletion,
/// the deleted record included.
pub proof fn identifiers_are_not_reused(
    table: TableView,
    deleted: Seq<char>,
    name: Seq<char>,
    link: Seq<char>,
)
    requires
        table.wf(),
    ensures
        table.delete(deleted).last_id == table.last_id,
        forall|i: int|
            0 <= i < table.rows.len() ==> (#[trigger] table.rows[i]).id != table.delete(
                deleted,
            ).next_row(name, link).id,
{
}

} // verus!
