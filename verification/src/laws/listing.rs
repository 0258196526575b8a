//! What a listing holds: its range, its records and its page.
use vstd::prelude::*;
use vstd::utf8::*;

use crate::codec;
use crate::json;
use crate::json::Json;
use crate::laws;
use crate::laws::basics;
use crate::policy;
use crate::policy::ListArgs;
use crate::screening;
use crate::screening::{AuditScan, ValidListing};

verus! {

/// The records of two stretches of rows are those of the first and then those of
/// the second.
proof fn lemma_records_join(a: Seq<(Vec<u8>, Vec<u8>)>, b: Seq<(Vec<u8>, Vec<u8>)>)
    ensures
        screening::records(a + b) == screening::records(a) + screening::records(b),
    decreases b.len(),
{
    if b.len() == 0 {
        assert(a + b =~= a);
        assert(screening::records(a) + screening::records(b) =~= screening::records(a));
    } else {
        assert((a + b).drop_last() =~= a + b.drop_last());
        lemma_records_join(a, b.drop_last());
        assert(screening::records(a + b) =~= screening::records(a) + screening::records(b));
    }
}

/// The record of a row is its document, if it holds one.
proof fn lemma_record_of_one_row(rows: Seq<(Vec<u8>, Vec<u8>)>)
    requires
        rows.len() == 1,
    ensures
        match json::json_document(rows[0].1@) {
            Ok(tree) => screening::records(rows) == seq![tree],
            Err(_) => screening::records(rows) == Seq::<json::JsonView>::empty(),
        },
{
    assert(rows.drop_last() =~= Seq::<(Vec<u8>, Vec<u8>)>::empty());
    assert(screening::records(rows.drop_last()) =~= Seq::<json::JsonView>::empty());
}

/// The records of some rows followed by others are the records of the former
/// followed by those of the latter: none is lost, added or moved.
pub proof fn law_records_follow_the_rows(
    a: &Vec<(Vec<u8>, Vec<u8>)>,
    b: &Vec<(Vec<u8>, Vec<u8>)>,
    c: &Vec<(Vec<u8>, Vec<u8>)>,
    of_a: Vec<Json>,
    of_b: Vec<Json>,
    of_c: Vec<Json>,
    i: int,
)
    requires
        call_ensures(screening::read_records, (a,), of_a),
        call_ensures(screening::read_records, (b,), of_b),
        call_ensures(screening::read_records, (c,), of_c),
        c@ == a@ + b@,
    ensures
        of_c@.len() == of_a@.len() + of_b@.len(),
        0 <= i < of_a@.len() ==> of_c@[i]@ == of_a@[i]@,
        0 <= i < of_b@.len() ==> of_c@[of_a@.len() + i]@ == of_b@[i]@,
{
    lemma_records_join(a@, b@);
    basics::lemma_items_view_index(of_a@);
    basics::lemma_items_view_index(of_b@);
    basics::lemma_items_view_index(of_c@);
    if 0 <= i < of_a@.len() {
        assert(json::items_view(of_c@)[i] == json::items_view(of_a@)[i]);
    }
    if 0 <= i < of_b@.len() {
        assert(json::items_view(of_c@)[of_a@.len() + i] == json::items_view(of_b@)[i]);
    }
}

/// A single row gives its document where its value is one, and else nothing.
pub proof fn law_row_gives_its_document(rows: &Vec<(Vec<u8>, Vec<u8>)>, r: Vec<Json>)
    requires
        call_ensures(screening::read_records, (rows,), r),
        rows@.len() == 1,
    ensures
        match json::json_document(rows@[0].1@) {
            Ok(tree) => r@.len() == 1 && r@[0]@ == tree,
            Err(_) => r@.len() == 0,
        },
{
    lemma_record_of_one_row(rows@);
    basics::lemma_items_view_index(r@);
    if r@.len() > 0 {
        assert(json::items_view(r@)[0] == r@[0]@);
    }
}

/// Where every value is a document there is a record for each row, at the row's
/// place.
proof fn lemma_all_records(rows: Seq<(Vec<u8>, Vec<u8>)>)
    requires
        forall|i: int|
            0 <= i < rows.len() ==> json::json_document((#[trigger] rows[i]).1@) is Ok,
    ensures
        screening::records(rows).len() == rows.len(),
        forall|i: int|
            0 <= i < rows.len() ==> json::json_document(rows[i].1@) == Ok::<
                json::JsonView,
                Seq<char>,
            >(#[trigger] screening::records(rows)[i]),
    decreases rows.len(),
{
    if rows.len() > 0 {
        let init = rows.drop_last();
        assert forall|i: int| 0 <= i < init.len() implies json::json_document(
            (#[trigger] init[i]).1@,
        ) is Ok by {
            assert(init[i] == rows[i]);
        }
        lemma_all_records(init);
        assert(json::json_document(rows[rows.len() - 1].1@) is Ok);
        assert forall|i: int| 0 <= i < rows.len() implies json::json_document(rows[i].1@) == Ok::<
            json::JsonView,
            Seq<char>,
        >(#[trigger] screening::records(rows)[i]) by {
            if i < init.len() {
                assert(screening::records(rows)[i] == screening::records(init)[i]);
                assert(init[i] == rows[i]);
            }
        }
    }
}

/// Where the value of every row is a document there are as many records as rows,
/// and each is the document of the row at its place.
pub proof fn law_every_record_is_listed(rows: &Vec<(Vec<u8>, Vec<u8>)>, r: Vec<Json>, i: int)
    requires
        call_ensures(screening::read_records, (rows,), r),
        forall|k: int|
            0 <= k < rows@.len() ==> json::json_document((#[trigger] rows@[k]).1@) is Ok,
    ensures
        r@.len() == rows@.len(),
        0 <= i < rows@.len() ==> json::json_document(rows@[i].1@) == Ok::<
            json::JsonView,
            Seq<char>,
        >(r@[i]@),
{
    lemma_all_records(rows@);
    basics::lemma_items_view_index(r@);
    if 0 <= i < rows@.len() {
        assert(json::items_view(r@)[i] == r@[i]@);
    }
}

/// No document is lost among rows that hold none: the document of any row is among
/// the records.
pub proof fn law_no_document_is_lost(rows: &Vec<(Vec<u8>, Vec<u8>)>, r: Vec<Json>, at: int) -> (i:
    int)
    requires
        call_ensures(screening::read_records, (rows,), r),
        0 <= at < rows@.len(),
        json::json_document(rows@[at].1@) is Ok,
    ensures
        0 <= i < r@.len(),
        json::json_document(rows@[at].1@) == Ok::<json::JsonView, Seq<char>>(r@[i]@),
{
    let before = rows@.take(at);
    let one = seq![rows@[at]];
    let after = rows@.skip(at + 1);
    assert(rows@ =~= before + one + after);
    lemma_records_join(before + one, after);
    lemma_records_join(before, one);
    lemma_record_of_one_row(one);
    basics::lemma_items_view_index(r@);
    let i = screening::records(before).len() as int;
    assert(screening::records(rows@)[i] == screening::records(one)[0]);
    assert(json::items_view(r@)[i] == r@[i]@);
    i
}

/// The names of the members of a page differ.
proof fn lemma_page_names()
    ensures
        "records"@.len() == 7,
        "count"@.len() == 5,
        "truncated"@.len() == 9,
        "next-start"@.len() == 10,
{
    reveal_strlit("records");
    reveal_strlit("count");
    reveal_strlit("truncated");
    reveal_strlit("next-start");
}

/// A page holds the records in order, their number, whether it is truncated, and
/// the key to resume from or null.
pub proof fn law_page_holds_the_records(
    records: Vec<Json>,
    truncated: bool,
    next_start: Option<String>,
    r: Json,
    i: int,
)
    requires
        call_ensures(screening::list_page, (records, truncated, next_start), r),
    ensures
        r@ is Object,
        r@->Object_0.dom() == set!["records"@, "count"@, "truncated"@, "next-start"@],
        r@->Object_0["records"@] is Array,
        r@->Object_0["records"@]->Array_0.len() == records@.len(),
        0 <= i < records@.len() ==> r@->Object_0["records"@]->Array_0[i] == records@[i]@,
        r@->Object_0["count"@] == json::JsonView::Integer(records@.len() as int),
        r@->Object_0["truncated"@] == json::JsonView::Bool(truncated),
        next_start is None ==> r@->Object_0["next-start"@] == json::JsonView::Null,
        next_start is Some ==> r@->Object_0["next-start"@] == json::JsonView::Text(
            next_start->Some_0@,
        ),
{
    lemma_page_names();
    basics::lemma_items_view_index(records@);
}

/// A page is truncated iff as many rows came back as were asked for at most; it then
/// names the key of the last row, and else none. What it holds are the records it is
/// given.
pub proof fn law_full_page_says_so(
    scan: &AuditScan,
    rows: &Vec<(Vec<u8>, Vec<u8>)>,
    records: Vec<Json>,
    r: Json,
    i: int,
)
    requires
        call_ensures(AuditScan::page, (scan, rows, records), r),
    ensures
        r@ is Object,
        r@->Object_0.dom() == set!["records"@, "count"@, "truncated"@, "next-start"@],
        r@->Object_0["records"@] is Array,
        r@->Object_0["records"@]->Array_0.len() == records@.len(),
        0 <= i < records@.len() ==> r@->Object_0["records"@]->Array_0[i] == records@[i]@,
        r@->Object_0["count"@] == json::JsonView::Integer(records@.len() as int),
        rows@.len() == scan.limit ==> r@->Object_0["truncated"@] == json::JsonView::Bool(true),
        rows@.len() != scan.limit ==> r@->Object_0["truncated"@] == json::JsonView::Bool(false),
        rows@.len() != scan.limit || rows@.len() == 0 ==> r@->Object_0["next-start"@]
            == json::JsonView::Null,
        rows@.len() == scan.limit && rows@.len() > 0 && valid_utf8(rows@.last().0@)
            ==> r@->Object_0["next-start"@] == json::JsonView::Text(decode_utf8(rows@.last().0@)),
        rows@.len() == scan.limit && rows@.len() > 0 && !valid_utf8(rows@.last().0@)
            ==> r@->Object_0["next-start"@] == json::JsonView::Text(
            codec::lossy_text(rows@.last().0@),
        ),
{
    lemma_page_names();
    basics::lemma_items_view_index(records@);
}

/// The reply of a listing is the page of the rows that were found, with the records
/// among them; a failed scan is an error that names the map.
pub proof fn law_listing_replies_with_the_page(
    scan: AuditScan,
    found: Result<Vec<(Vec<u8>, Vec<u8>)>, String>,
    records: Vec<Json>,
    page: Json,
    r: Result<Vec<u8>, String>,
)
    requires
        call_ensures(AuditScan::reply, (scan, found), r),
        found matches Ok(rows) ==> call_ensures(screening::read_records, (&rows,), records)
            && call_ensures(AuditScan::page, (&scan, &rows, records), page),
    ensures
        found is Ok ==> r is Ok && r->Ok_0@ == json::json_bytes(page@),
        found is Err ==> r is Err && r->Err_0@ == "kv scan on "@ + scan.map@ + ": "@
            + found->Err_0@,
{
}

/// The bounds of a scan are the bytes of the keys that are asked for; without a
/// start it is empty, and without an end eight bytes 0xff.
pub proof fn law_bounds_are_the_keys_asked_for(args: &ListArgs, r: (Vec<u8>, Vec<u8>), i: int)
    requires
        call_ensures(policy::scan_bounds, (args,), r),
    ensures
        args.start is Some ==> r.0@ == encode_utf8(args.start->Some_0@),
        args.start is None ==> r.0@.len() == 0,
        args.end is Some ==> r.1@ == encode_utf8(args.end->Some_0@),
        args.end is None ==> r.1@.len() == 8 && (0 <= i < 8 ==> r.1@[i] == 0xff),
{
}

/// The keys in bounds are exactly those from the start, where there is one, to
/// before the end, where there is one.
pub proof fn law_scan_comes_upon_the_range_alone(
    args: &ListArgs,
    r: (Vec<u8>, Vec<u8>),
    key: Seq<char>,
)
    requires
        call_ensures(policy::scan_bounds, (args,), r),
    ensures
        !laws::key_before(encode_utf8(key), r.0@) <==> (args.start is Some ==> !laws::key_before(
            encode_utf8(key),
            encode_utf8(args.start->Some_0@),
        )),
        laws::key_before(encode_utf8(key), r.1@) <==> (args.end is Some ==> laws::key_before(
            encode_utf8(key),
            encode_utf8(args.end->Some_0@),
        )),
        laws::in_bounds(encode_utf8(key), r.0@, r.1@) <==> (args.start is Some
            ==> !laws::key_before(encode_utf8(key), encode_utf8(args.start->Some_0@))) && (
        args.end is Some ==> laws::key_before(
            encode_utf8(key),
            encode_utf8(args.end->Some_0@),
        )),
{
    laws::law_scan_without_bounds_covers_the_map(key);
    assert(r.0@ == policy::scan_start(args.start));
    assert(r.1@ == policy::scan_end(args.end));
}

/// A listing takes the bounds and the limit of its arguments; without arguments it
/// asks for the first 100 rows of everything.
pub proof fn law_listing_takes_its_range(
    args: Option<Result<ListArgs, String>>,
    bounds: (Vec<u8>, Vec<u8>),
    limit: u32,
    r: Result<ValidListing, String>,
    i: int,
)
    requires
        call_ensures(screening::list_checks, (args,), r),
        args matches Some(Ok(given)) ==> call_ensures(policy::scan_bounds, (&given,), bounds)
            && call_ensures(policy::normalise_limit, (given.limit,), limit),
    ensures
        args matches Some(Ok(given)) ==> r is Ok && r->Ok_0.start@ == bounds.0@ && r->Ok_0.end@
            == bounds.1@ && r->Ok_0.limit == limit,
        args is None ==> r is Ok && r->Ok_0.start@.len() == 0 && r->Ok_0.end@.len() == 8 && (0 <= i
            < 8 ==> r->Ok_0.end@[i] == 0xff) && r->Ok_0.limit == 100,
        args matches Some(Err(reason)) ==> r is Err && r->Err_0@
            == "list-checks: bad input JSON: "@ + reason@,
{
    reveal_strlit("list-checks");
    reveal_strlit(": bad input JSON: ");
    reveal_strlit("list-checks: bad input JSON: ");
    assert("list-checks"@ + ": bad input JSON: "@ =~= "list-checks: bad input JSON: "@);
}

/// The scan of a listing goes over the tenant's audit map, with the listing's range.
pub proof fn law_scan_goes_over_the_audit_map(
    listing: ValidListing,
    did: &[u8],
    tail: &str,
    map: String,
    r: AuditScan,
)
    requires
        call_ensures(ValidListing::for_tenant, (listing, did), r),
        tail@ == "onboarding-audit"@,
        call_ensures(policy::qualified_map_name, (did, tail), map),
    ensures
        r.map@ == map@,
        r.start@ == listing.start@,
        r.end@ == listing.end@,
        r.limit == listing.limit,
{
}

} // verus!
