//! What holds of the contract as a whole.
//!
//! The laws here span several operations. Those in the modules below speak of the
//! operations one by one: [`basics`] of texts, keys and documents, [`rules`] of the
//! rules, [`stages`] of the stages and [`listing`] of listings. They are stated of
//! what a call is given and what it gives back.
use vstd::prelude::*;
use vstd::utf8::*;

use crate::codec;
use crate::json;
use crate::marker;
use crate::marker::MARKER;
use crate::policy;
use crate::policy::{
    CheckType, RunCheckArgs, AUDIT_MAP, BIRTH_YEAR, DEFAULT_LIST_LIMIT, MAX_LIST_LIMIT, ONE,
    PROVIDER_URL, SEARCH_TERM, SECRETS_MAP,
};
use crate::screening;
use crate::screening::{
    AuditRead, AuditScan, AuditWrite, HttpError, HttpResponse, PendingCheck, PreparedCheck,
    RecordedCheck, ScreenedCheck, ValidCheck, ValidLookup,
};
use crate::text;

pub mod basics;
pub mod listing;
pub mod rules;
pub mod stages;

verus! {

/// The names of the members of a search body differ.
proof fn lemma_body_names()
    ensures
        "search_term"@.len() == 11,
        "client_ref"@.len() == 10,
        "score_threshold"@.len() == 15,
        "fuzziness"@.len() == 9,
        "share_url"@.len() == 9,
        "filters"@.len() == 7,
        "fuzziness"@ != "share_url"@,
{
    reveal_strlit("search_term");
    reveal_strlit("client_ref");
    reveal_strlit("score_threshold");
    reveal_strlit("fuzziness");
    reveal_strlit("share_url");
    reveal_strlit("filters");
    assert("fuzziness"@[0] != "share_url"@[0]);
}

/// `BIRTH_YEAR` is a template.
proof fn lemma_birth_year_template()
    ensures
        marker::template(BIRTH_YEAR@),
{
    reveal_strlit("{{profile.date_of_birth}}");
    reveal_strlit("{{profile.");
    reveal_strlit("}}");
    let s = BIRTH_YEAR@;
    assert(s.subrange(0, 10) =~= MARKER@);
    assert(text::occurs_at(s, MARKER@, 0));
    assert(s.subrange(23, 25) =~= "}}"@);
    assert(marker::marker_at(s, 0, 25));
    assert forall|i: int| 0 <= i < s.len() implies #[trigger] marker::in_marker(s, i) by {}
}

/// `SEARCH_TERM` is a template.
proof fn lemma_search_term_template()
    ensures
        marker::template(SEARCH_TERM@),
{
    reveal_strlit("{{profile.first_name}} {{profile.last_name}}");
    reveal_strlit("{{profile.");
    reveal_strlit("}}");
    let s = SEARCH_TERM@;
    assert(s.subrange(0, 10) =~= MARKER@);
    assert(text::occurs_at(s, MARKER@, 0));
    assert(s.subrange(20, 22) =~= "}}"@);
    assert(marker::marker_at(s, 0, 22));
    assert(s.subrange(23, 33) =~= MARKER@);
    assert(s.subrange(42, 44) =~= "}}"@);
    assert(marker::marker_at(s, 23, 44));
    assert forall|i: int| 0 <= i < s.len() implies text::white_space(s[i])
        || #[trigger] marker::in_marker(s, i) by {
        assert(i < 22 || i == 22 || i > 22);
    }
}

/// Every search body that is built passes the guard before dispatch.
pub proof fn law_search_body_is_templated(
    subject_ref: Seq<char>,
    check_type: CheckType,
    threshold: u64,
)
    ensures
        policy::templated(policy::search_body(subject_ref, check_type, threshold)),
{
    lemma_search_term_template();
    lemma_birth_year_template();
    lemma_body_names();
    reveal_strlit("types");
    reveal_strlit("birth_year");
    assert("types"@.len() != "birth_year"@.len());
}

/// No request leaves with a literal in a field that is templated, whatever body a
/// check holds and whatever token was read.
pub proof fn law_literal_is_never_dispatched(
    check: PreparedCheck,
    read: Result<Option<Vec<u8>>, String>,
)
    requires
        !policy::templated(check.body@),
    ensures
        check.dispatch_refusal(read) == Some(policy::literal_refusal(check.body@)),
{
}

/// A field that is a template holds no word of its own: what is neither white space
/// nor part of a marker makes it none, wherever in the field it stands.
pub proof fn law_literal_beside_a_marker_is_refused(body: json::JsonView, s: Seq<char>, i: int)
    requires
        policy::search_term(body) == Some(json::JsonView::Text(s)) || policy::birth_year(body)
            == Some(json::JsonView::Text(s)),
        0 <= i < s.len(),
        !text::white_space(s[i]),
        !marker::in_marker(s, i),
    ensures
        !policy::templated(body),
{
}

/// A literal in place of a marker is refused: a field that is templated and holds no
/// opening brace, be it the search term or the birth year.
pub proof fn law_literal_for_a_marker_is_refused(body: json::JsonView, s: Seq<char>)
    requires
        policy::search_term(body) == Some(json::JsonView::Text(s)) || policy::birth_year(body)
            == Some(json::JsonView::Text(s)),
        forall|i: int| 0 <= i < s.len() ==> #[trigger] s[i] != '{',
    ensures
        !policy::templated(body),
{
    reveal_strlit("{{profile.");
    assert forall|at: int| !text::occurs_at(s, MARKER@, at) by {
        if text::occurs_at(s, MARKER@, at) {
            assert(s.subrange(at, at + MARKER@.len())[0] == s[at]);
        }
    }
}

/// Of all members of a search body, `client_ref` alone depends on the caller's
/// reference, and it is the reference.
pub proof fn law_reference_stands_in_client_ref_alone(
    a: Seq<char>,
    b: Seq<char>,
    check_type: CheckType,
    threshold: u64,
    name: Seq<char>,
)
    ensures
        json::member_of(policy::search_body(a, check_type, threshold), "client_ref"@) == Some(
            json::JsonView::Text(a),
        ),
        name != "client_ref"@ ==> json::member_of(
            policy::search_body(a, check_type, threshold),
            name,
        ) == json::member_of(policy::search_body(b, check_type, threshold), name),
{
    lemma_body_names();
}

/// A reference that is accepted is opaque: it holds only ASCII letters, digits
/// and four punctuation marks, so no `@` and no white space, and no marker that
/// the host would fill in. It has as many characters as bytes, 3 to 64.
pub proof fn law_accepted_reference_is_opaque(s: Seq<char>)
    requires
        policy::ref_refusal(s) is None,
    ensures
        policy::valid_ref(s),
        !policy::personal(s),
        is_ascii_chars(s),
        3 <= s.len() <= 64,
        s.len() == encode_utf8(s).len(),
        !text::has_text(s, MARKER@),
{
    assert(is_ascii_chars(s)) by {
        assert forall|i: int| 0 <= i < s.len() implies '\0' <= #[trigger] s[i] <= '\u{7f}' by {
            assert(policy::ref_char(s[i]));
        }
    }
    is_ascii_chars_encode_utf8(s);
    reveal_strlit("{{profile.");
    assert forall|at: int| !text::occurs_at(s, MARKER@, at) by {
        if text::occurs_at(s, MARKER@, at) {
            let window = s.subrange(at, at + MARKER@.len());
            assert(window[0] == s[at]);
            assert(policy::ref_char(s[at]));
        }
    }
}

/// Stripping white space twice is stripping it once.
proof fn lemma_trimmed_twice(s: Seq<char>)
    ensures
        text::trimmed(text::trimmed(s)) == text::trimmed(s),
    decreases s.len(),
{
    if s.len() > 0 && text::white_space(s.first()) {
        lemma_trimmed_twice(s.drop_first());
    } else if s.len() > 0 && text::white_space(s.last()) {
        lemma_trimmed_twice(s.drop_last());
    }
}

/// The reference that a check was run under is accepted as it stands, and names
/// the same counterparty.
pub proof fn law_accepted_reference_is_accepted_again(raw: Seq<char>)
    ensures
        text::trimmed(text::trimmed(raw)) == text::trimmed(raw),
        policy::ref_refusal(text::trimmed(text::trimmed(raw))) == policy::ref_refusal(
            text::trimmed(raw),
        ),
{
    lemma_trimmed_twice(raw);
}

/// Stripping white space keeps every other character.
proof fn lemma_trimmed_keeps(s: Seq<char>, c: char)
    requires
        s.contains(c),
        !text::white_space(c),
    ensures
        text::trimmed(s).contains(c),
    decreases s.len(),
{
    let i = choose|i: int| 0 <= i < s.len() && s[i] == c;
    if s.len() > 0 && text::white_space(s.first()) {
        assert(s.drop_first()[i - 1] == c);
        lemma_trimmed_keeps(s.drop_first(), c);
    } else if s.len() > 0 && text::white_space(s.last()) {
        assert(s.drop_last()[i] == c);
        lemma_trimmed_keeps(s.drop_last(), c);
    }
}

/// A reference with an `@` anywhere in it is refused.
pub proof fn law_email_is_refused(raw: Seq<char>)
    requires
        raw.contains('@'),
    ensures
        policy::ref_refusal(text::trimmed(raw)) is Some,
{
    lemma_trimmed_keeps(raw, '@');
    let s = text::trimmed(raw);
    let i = choose|i: int| 0 <= i < s.len() && s[i] == '@';
    assert(policy::personal(s));
}

/// A reference of two or more words is refused: one with white space between two
/// other characters.
pub proof fn law_name_is_refused(raw: Seq<char>, i: int, j: int, k: int)
    requires
        0 <= i < j < k < raw.len(),
        !text::white_space(raw[i]),
        text::white_space(raw[j]),
        !text::white_space(raw[k]),
    ensures
        policy::ref_refusal(text::trimmed(raw)) is Some,
{
    lemma_trimmed_keeps_between(raw, i, j, k);
}

/// Stripping white space keeps what stands between two other characters.
proof fn lemma_trimmed_keeps_between(s: Seq<char>, i: int, j: int, k: int)
    requires
        0 <= i < j < k < s.len(),
        !text::white_space(s[i]),
        text::white_space(s[j]),
        !text::white_space(s[k]),
    ensures
        policy::personal(text::trimmed(s)),
    decreases s.len(),
{
    if text::white_space(s.first()) {
        lemma_trimmed_keeps_between(s.drop_first(), i - 1, j - 1, k - 1);
    } else if text::white_space(s.last()) {
        lemma_trimmed_keeps_between(s.drop_last(), i, j, k);
    } else {
        assert(s[j] == '@' || text::white_space(s[j]));
    }
}

/// A threshold is between zero and one whatever was asked for, and one that
/// already is stays as it is.
pub proof fn law_threshold_is_clamped(raw: Option<u64>)
    ensures
        policy::finite(policy::normal_threshold(raw)),
        0 <= policy::rank(policy::normal_threshold(raw)) <= policy::rank(ONE),
        policy::normal_threshold(Some(policy::normal_threshold(raw))) == policy::normal_threshold(
            raw,
        ),
        raw matches Some(bits) ==> policy::finite(bits) && 0 <= policy::rank(bits) <= policy::rank(
            ONE,
        ) ==> policy::normal_threshold(raw) == bits,
{
}

/// Clamping keeps the order of the thresholds that are asked for.
pub proof fn law_threshold_keeps_order(a: u64, b: u64)
    requires
        policy::finite(a),
        policy::finite(b),
        policy::rank(a) <= policy::rank(b),
    ensures
        policy::rank(policy::normal_threshold(Some(a))) <= policy::rank(
            policy::normal_threshold(Some(b)),
        ),
{
}

/// The threshold in the body of a check is a number between zero and one whatever
/// was asked for, and the number that was asked for where that is one.
pub proof fn law_sent_threshold_is_clamped(args: RunCheckArgs, check: ValidCheck)
    requires
        screening::validated(args, check),
    ensures
        json::member_of(check.body@, "score_threshold"@) matches Some(json::JsonView::Float(bits))
            && policy::finite(bits) && 0 <= policy::rank(bits) <= policy::rank(ONE),
        args.score_threshold matches Some(t) ==> policy::finite(t@) && 0 <= policy::rank(t@)
            <= policy::rank(ONE) ==> json::member_of(check.body@, "score_threshold"@) == Some(
            json::JsonView::Float(t@),
        ),
{
    lemma_body_names();
    law_threshold_is_clamped(policy::asked_bits(args.score_threshold));
}

/// A limit reaches the host neither as zero nor above the ceiling, and one in
/// between reaches it as it is.
pub proof fn law_limit_is_bounded(raw: Option<u32>)
    ensures
        1 <= policy::list_limit(raw) <= MAX_LIST_LIMIT,
        raw matches Some(v) ==> 1 <= v <= MAX_LIST_LIMIT ==> policy::list_limit(raw) == v,
        raw is None ==> policy::list_limit(raw) == DEFAULT_LIST_LIMIT,
{
}

/// A counterparty is cleared on no hits at all and on nothing else. Any other
/// number of hits goes to review: there is no third decision.
pub proof fn law_only_zero_hits_clear(hits: nat)
    ensures
        policy::decision(hits) == "clear"@ <==> hits == 0,
        policy::decision(hits) == "review"@ <==> hits > 0,
{
    reveal_strlit("clear");
    reveal_strlit("review");
    assert("clear"@.len() != "review"@.len());
}

/// The name of a check type names it, and no two have one name.
pub proof fn law_check_type_names(t: CheckType, u: CheckType)
    ensures
        policy::check_type_named(t.name()) == Some(t),
        t.name() == u.name() ==> t == u,
{
    reveal_strlit("sanctions");
    reveal_strlit("adverse-media");
    reveal_strlit("pep");
    assert("sanctions"@.len() == 9 && "adverse-media"@.len() == 13 && "pep"@.len() == 3);
}

/// Whether every profile marker in `s` names one field: small letters and
/// underscores up to the closing braces, with no dot among them.
pub open spec fn markers_flat(s: Seq<char>) -> bool {
    forall|at: int| #[trigger]
        text::occurs_at(s, MARKER@, at) ==> exists|end: int|
            at + MARKER@.len() <= end && #[trigger] text::occurs_at(s, "}}"@, end) && forall|k: int|
                at + MARKER@.len() <= k < end ==> 'a' <= #[trigger] s[k] <= 'z' || s[k] == '_'
}

/// A text without an opening brace holds no marker.
proof fn lemma_no_braces_no_marker(s: Seq<char>)
    requires
        forall|k: int| 0 <= k < s.len() ==> #[trigger] s[k] != '{',
    ensures
        markers_flat(s),
{
    reveal_strlit("{{profile.");
    assert forall|at: int| #[trigger] text::occurs_at(s, MARKER@, at) implies false by {
        assert(s.subrange(at, at + MARKER@.len())[0] == s[at]);
    }
}

/// The marker in `BIRTH_YEAR` is flat.
proof fn lemma_birth_year_flat()
    ensures
        markers_flat(BIRTH_YEAR@),
{
    reveal_strlit("{{profile.date_of_birth}}");
    reveal_strlit("{{profile.");
    reveal_strlit("}}");
    let s = BIRTH_YEAR@;
    assert(s.subrange(23, 25) =~= "}}"@);
    assert(text::occurs_at(s, "}}"@, 23));
    assert forall|at: int| #[trigger] text::occurs_at(s, MARKER@, at) implies at == 0 by {
        assert(s.subrange(at, at + MARKER@.len())[0] == s[at]);
        assert(s.subrange(at, at + MARKER@.len())[1] == s[at + 1]);
    }
}

/// The markers in `SEARCH_TERM` are flat.
proof fn lemma_search_term_flat()
    ensures
        markers_flat(SEARCH_TERM@),
{
    reveal_strlit("{{profile.first_name}} {{profile.last_name}}");
    reveal_strlit("{{profile.");
    reveal_strlit("}}");
    let s = SEARCH_TERM@;
    assert(s.subrange(20, 22) =~= "}}"@);
    assert(text::occurs_at(s, "}}"@, 20));
    assert(s.subrange(42, 44) =~= "}}"@);
    assert(text::occurs_at(s, "}}"@, 42));
    assert forall|at: int| #[trigger] text::occurs_at(s, MARKER@, at) implies at == 0 || at
        == 23 by {
        assert(s.subrange(at, at + MARKER@.len())[0] == s[at]);
        assert(s.subrange(at, at + MARKER@.len())[1] == s[at + 1]);
    }
}

/// Whether the string `s` stands in `tree`, at most `depth` levels down.
pub open spec fn holds_string(tree: json::JsonView, s: Seq<char>, depth: nat) -> bool
    decreases depth,
{
    match tree {
        json::JsonView::Text(t) => t == s,
        json::JsonView::Array(items) => depth > 0 && exists|i: int|
            0 <= i < items.len() && holds_string(#[trigger] items[i], s, (depth - 1) as nat),
        json::JsonView::Object(members) => depth > 0 && exists|name: Seq<char>| #[trigger]
            members.contains_key(name) && holds_string(members[name], s, (depth - 1) as nat),
        _ => false,
    }
}

/// Every marker in the body of a search for an accepted reference is flat and in
/// snake case, wherever in the body it stands: the host refuses others.
pub proof fn law_markers_are_flat_and_snake_case(
    subject_ref: Seq<char>,
    check_type: CheckType,
    threshold: u64,
    s: Seq<char>,
    depth: nat,
)
    requires
        policy::ref_refusal(subject_ref) is None,
        holds_string(policy::search_body(subject_ref, check_type, threshold), s, depth),
    ensures
        markers_flat(s),
{
    let body = policy::search_body(subject_ref, check_type, threshold);
    let members = body->Object_0;
    let name = choose|name: Seq<char>| #[trigger]
        members.contains_key(name) && holds_string(members[name], s, (depth - 1) as nat);
    lemma_body_names();
    lemma_search_term_flat();
    lemma_birth_year_flat();
    if name == "client_ref"@ {
        assert forall|k: int| 0 <= k < s.len() implies #[trigger] s[k] != '{' by {
            assert(policy::ref_char(s[k]));
        }
        lemma_no_braces_no_marker(s);
    } else if name == "filters"@ {
        let filters = members[name]->Object_0;
        let inner = choose|inner: Seq<char>| #[trigger]
            filters.contains_key(inner) && holds_string(filters[inner], s, (depth - 2) as nat);
        reveal_strlit("types");
        reveal_strlit("birth_year");
        assert("types"@.len() != "birth_year"@.len());
        if inner == "types"@ {
            let items = filters[inner]->Array_0;
            let i = choose|i: int|
                0 <= i < items.len() && holds_string(#[trigger] items[i], s, (depth - 3) as nat);
            assert(s == check_type.filter());
            reveal_strlit("sanction");
            reveal_strlit("adverse-media");
            reveal_strlit("pep");
            assert forall|k: int| 0 <= k < s.len() implies #[trigger] s[k] != '{' by {}
            lemma_no_braces_no_marker(s);
        }
    }
}

/// The hexadecimal digits of a byte give the byte back.
proof fn lemma_hex_digits(a: u8, b: u8)
    requires
        codec::hex_digit(a as int / 16) == codec::hex_digit(b as int / 16),
        codec::hex_digit(a as int % 16) == codec::hex_digit(b as int % 16),
    ensures
        a == b,
{
}

/// Two tenants share no map, and a tenant's maps with different tails differ: the
/// full name tells both the DID and the tail.
pub proof fn law_map_name_tells_tenant_and_tail(
    did_a: Seq<u8>,
    tail_a: Seq<char>,
    did_b: Seq<u8>,
    tail_b: Seq<char>,
)
    requires
        policy::map_name(did_a, tail_a) == policy::map_name(did_b, tail_b),
    ensures
        did_a == did_b,
        tail_a == tail_b,
{
    reveal_strlit("z:");
    reveal_strlit(":");
    let a = policy::map_name(did_a, tail_a);
    let b = policy::map_name(did_b, tail_b);
    let hex_a = codec::hex_of(did_a);
    let hex_b = codec::hex_of(did_b);
    assert(a[2int + hex_a.len()] == ':' && b[2int + hex_b.len()] == ':');
    if hex_a.len() < hex_b.len() {
        assert(b[2int + hex_a.len()] == hex_b[hex_a.len() as int]);
    } else if hex_b.len() < hex_a.len() {
        assert(a[2int + hex_b.len()] == hex_a[hex_b.len() as int]);
    }
    assert forall|i: int| 0 <= i < did_a.len() implies did_a[i] == did_b[i] by {
        assert(a[2 + 2 * i] == hex_a[2 * i] && b[2 + 2 * i] == hex_b[2 * i]);
        assert(a[3 + 2 * i] == hex_a[2 * i + 1] && b[3 + 2 * i] == hex_b[2 * i + 1]);
        lemma_hex_digits(did_a[i], did_b[i]);
    }
    assert(did_a =~= did_b);
    assert(tail_a =~= a.skip(3int + hex_a.len()));
    assert(tail_b =~= b.skip(3int + hex_b.len()));
}

/// The token is kept apart from the records, for every tenant.
pub proof fn law_secrets_and_audit_maps_differ(did_a: Seq<u8>, did_b: Seq<u8>)
    ensures
        policy::map_name(did_a, SECRETS_MAP@) != policy::map_name(did_b, AUDIT_MAP@),
{
    reveal_strlit("secrets");
    reveal_strlit("onboarding-audit");
    if policy::map_name(did_a, SECRETS_MAP@) == policy::map_name(did_b, AUDIT_MAP@) {
        law_map_name_tells_tenant_and_tail(did_a, SECRETS_MAP@, did_b, AUDIT_MAP@);
        assert(SECRETS_MAP@.len() != AUDIT_MAP@.len());
    }
}

/// Whether the key `a` comes before the key `b`, byte by byte.
pub open spec fn key_before(a: Seq<u8>, b: Seq<u8>) -> bool {
    exists|i: int|
        {
            &&& 0 <= i <= a.len()
            &&& i < b.len()
            &&& #[trigger] a.take(i) == b.take(i)
            &&& i < a.len() ==> a[i] < b[i]
        }
}

/// Whether a scan from `start` to before `end` comes upon `key`.
pub open spec fn in_bounds(key: Seq<u8>, start: Seq<u8>, end: Seq<u8>) -> bool {
    !key_before(key, start) && key_before(key, end)
}

/// A scan without bounds comes upon every key that is text, so upon every record.
pub proof fn law_scan_without_bounds_covers_the_map(key: Seq<char>)
    ensures
        in_bounds(encode_utf8(key), policy::scan_start(None), policy::scan_end(None)),
{
    let bytes = encode_utf8(key);
    let end = policy::scan_end(None);
    assert(bytes.take(0) =~= end.take(0));
    if key.len() > 0 {
        encode_utf8_first_scalar(key);
        assert(bytes[0] < 0xff);
    }
    assert(key_before(bytes, end));
}

/// A page that is not marked as truncated leaves nothing out, and one that is
/// names the key of its last row, if the host answers with the first rows in
/// bounds, `limit` of them at most.
pub proof fn law_untruncated_page_is_complete(
    scan: AuditScan,
    raw_limit: Option<u32>,
    matching: Seq<(Vec<u8>, Vec<u8>)>,
    rows: Seq<(Vec<u8>, Vec<u8>)>,
)
    requires
        scan.limit == policy::list_limit(raw_limit),
        rows == first_rows(matching, scan.limit),
    ensures
        !screening::page_full(rows.len(), scan.limit) ==> rows == matching,
        !screening::page_full(rows.len(), scan.limit) ==> screening::resume_key(rows, scan.limit)
            is None,
        screening::page_full(rows.len(), scan.limit) ==> screening::resume_key(rows, scan.limit)
            == Some(codec::key_text(rows.last().0@)),
{
    assert(matching.take(matching.len() as int) =~= matching);
}

/// The first `limit` of some rows, or all where there are fewer.
pub open spec fn first_rows(rows: Seq<(Vec<u8>, Vec<u8>)>, limit: u32) -> Seq<(Vec<u8>, Vec<u8>)> {
    rows.take(
        if rows.len() < limit {
            rows.len() as int
        } else {
            limit as int
        },
    )
}

/// Whether rows are in the order of their keys, with no key twice.
pub open spec fn in_key_order(rows: Seq<(Vec<u8>, Vec<u8>)>) -> bool {
    forall|i: int, j: int| 0 <= i < j < rows.len() ==> key_before(rows[i].0@, rows[j].0@)
}

/// Of two keys at most one comes before the other.
proof fn lemma_key_order(a: Seq<u8>, b: Seq<u8>)
    requires
        key_before(a, b),
    ensures
        !key_before(b, a),
{
    if key_before(b, a) {
        let i = choose|i: int|
            0 <= i <= a.len() && i < b.len() && #[trigger] a.take(i) == b.take(i) && (i < a.len()
                ==> a[i] < b[i]);
        let j = choose|j: int|
            0 <= j <= b.len() && j < a.len() && #[trigger] b.take(j) == a.take(j) && (j < b.len()
                ==> b[j] < a[j]);
        if i < j {
            assert(a.take(j)[i] == a[i] && b.take(j)[i] == b[i]);
        } else if j < i {
            assert(a.take(i)[j] == a[j] && b.take(i)[j] == b[j]);
        }
    }
}

/// No row between two pages is lost. Where the host's rows come in the order of
/// their keys and a page holds the first of them, the key that a full page names is
/// the key of its last row, and every row of the scan is on the page or in the
/// bounds of the scan that resumes from that key. The last row of the page is in
/// both.
pub proof fn law_listing_resumes_at_the_last_row(
    scan: AuditScan,
    matching: Seq<(Vec<u8>, Vec<u8>)>,
    rows: Seq<(Vec<u8>, Vec<u8>)>,
    start: String,
    at: int,
)
    requires
        in_key_order(matching),
        forall|i: int|
            0 <= i < matching.len() ==> in_bounds(
                #[trigger] matching[i].0@,
                scan.start@,
                scan.end@,
            ),
        rows == first_rows(matching, scan.limit),
        screening::resume_key(rows, scan.limit) == Some(start@),
        valid_utf8(rows.last().0@),
        0 <= at < matching.len(),
    ensures
        policy::scan_start(Some(start)) == rows.last().0@,
        at < rows.len() ==> matching[at] == rows[at],
        at >= rows.len() - 1 ==> in_bounds(
            matching[at].0@,
            policy::scan_start(Some(start)),
            scan.end@,
        ),
{
    decode_utf8_encode_utf8(rows.last().0@);
    let last = rows.len() - 1;
    assert(rows.last() == matching[last]);
    assert(in_bounds(matching[at].0@, scan.start@, scan.end@));
    let key = matching[at].0@;
    if at > last {
        assert(key_before(matching[last].0@, key));
        lemma_key_order(matching[last].0@, key);
    } else if at == last && key_before(key, key) {
        lemma_key_order(key, key);
    }
}

/// A response without a hit count is an error, never a clear.
pub proof fn law_missing_hit_count_is_an_error(response: json::JsonView)
    requires
        policy::response_data(response) matches Some(data) ==> policy::total_hits(data) is None,
    ensures
        policy::finding(response) is Err,
{
}

/// What is said of a response whose status is not accepted does not depend on
/// its body.
pub proof fn law_refused_response_is_withheld(a: HttpResponse, b: HttpResponse)
    requires
        a.code == b.code,
        !screening::accepted(a.code),
    ensures
        screening::screened(Ok(a)) == screening::screened(Ok(b)),
        screening::screened(Ok(a)) is Err,
{
}

/// A record says "clear" only where the provider accepted the search and counted
/// no hits, and then it does; in every other record it says "review".
pub proof fn law_record_clears_on_zero_hits_alone(
    pending: PendingCheck,
    reply: Result<HttpResponse, HttpError>,
    screened: ScreenedCheck,
    checked_at: u64,
    seq_no: u64,
    recorded: RecordedCheck,
)
    requires
        screening::screened(reply) matches Ok(found) && pending.received(found, screened),
        screened.recorded(checked_at, seq_no, recorded),
    ensures
        reply is Ok,
        screening::accepted(reply->Ok_0.code),
        policy::payload_finding(reply->Ok_0.payload@) matches Ok(found) && found.0
            == recorded.record.hit_count,
        recorded.record.decision@ == "clear"@ <==> recorded.record.hit_count == 0,
        recorded.record.decision@ == "review"@ <==> recorded.record.hit_count > 0,
{
    law_only_zero_hits_clear(screened.hit_count as nat);
}

/// A decision that is read back is the one that was stored. The reading looks
/// where the check wrote, in the tenant's audit map under the counterparty's key,
/// so that a store which keeps what is put into it holds the record's bytes
/// there. White space around the reference makes no difference, and another
/// reference leads elsewhere.
pub proof fn law_get_check_reads_what_run_check_stored(
    args: RunCheckArgs,
    valid: ValidCheck,
    tenant_did: Seq<u8>,
    prepared: PreparedCheck,
    token: Result<Option<Vec<u8>>, String>,
    pending: PendingCheck,
    found: (u64, Seq<char>),
    screened: ScreenedCheck,
    checked_at: u64,
    seq_no: u64,
    recorded: RecordedCheck,
    value: Seq<u8>,
    write: AuditWrite,
    store: Map<(Seq<char>, Seq<u8>), Seq<u8>>,
    wanted: Seq<char>,
    lookup: ValidLookup,
    read: AuditRead,
)
    requires
        screening::validated(args, valid),
        valid.prepared(tenant_did, prepared),
        prepared.dispatched(token, pending),
        pending.received(found, screened),
        screened.recorded(checked_at, seq_no, recorded),
        recorded.written(value, write),
        lookup.subject_ref@ == text::trimmed(wanted),
        lookup.looked_up(tenant_did, read),
    ensures
        read.map@ == write.map@,
        read.key@ == write.key@ <==> text::trimmed(wanted) == text::trimmed(args.subject_ref@),
        read.key@ == write.key@ ==> store.insert((write.map@, write.key@), write.value@)[(
            read.map@,
            read.key@,
        )] == value,
{
    encode_utf8_decode_utf8(read.subject_ref@);
    encode_utf8_decode_utf8(recorded.record.subject_ref@);
}

/// A record speaks of the counterparty, the check type and the contract that the
/// check was for, and it goes to the audit map of the tenant that asked.
pub proof fn law_record_is_about_the_check(
    args: RunCheckArgs,
    valid: ValidCheck,
    tenant_did: Seq<u8>,
    prepared: PreparedCheck,
    token: Result<Option<Vec<u8>>, String>,
    pending: PendingCheck,
    found: (u64, Seq<char>),
    screened: ScreenedCheck,
    checked_at: u64,
    seq_no: u64,
    recorded: RecordedCheck,
)
    requires
        screening::run_refusal(Ok(args)) is None,
        screening::validated(args, valid),
        valid.prepared(tenant_did, prepared),
        prepared.dispatched(token, pending),
        pending.received(found, screened),
        screened.recorded(checked_at, seq_no, recorded),
    ensures
        recorded.record.subject_ref@ == text::trimmed(args.subject_ref@),
        !policy::personal(recorded.record.subject_ref@),
        policy::check_type_named(recorded.record.check_type@) == screening::asked_check_type(
            args.check_type,
        ),
        recorded.record.contract_version@ == crate::CONTRACT_VERSION@,
        recorded.audit_map@ == policy::map_name(tenant_did, AUDIT_MAP@),
{
    law_check_type_names(prepared.check_type, prepared.check_type);
    law_accepted_reference_is_opaque(text::trimmed(args.subject_ref@));
}

/// What is logged of a search tells the reference and the check type alone: not
/// the token, not the threshold, not the body.
pub proof fn law_log_tells_reference_and_check_type_alone(
    a: PreparedCheck,
    token_a: Result<Option<Vec<u8>>, String>,
    pending_a: PendingCheck,
    b: PreparedCheck,
    token_b: Result<Option<Vec<u8>>, String>,
    pending_b: PendingCheck,
)
    requires
        a.dispatched(token_a, pending_a),
        b.dispatched(token_b, pending_b),
        a.subject_ref@ == b.subject_ref@,
        a.check_type == b.check_type,
    ensures
        pending_a.log@ == pending_b.log@,
{
}

/// What goes to the provider is the search body for the caller's reference, check
/// type and threshold, with its markers unfilled, and it goes to the provider.
pub proof fn law_request_carries_the_search_body(
    args: RunCheckArgs,
    valid: ValidCheck,
    tenant_did: Seq<u8>,
    prepared: PreparedCheck,
    token: Result<Option<Vec<u8>>, String>,
    pending: PendingCheck,
)
    requires
        screening::validated(args, valid),
        valid.prepared(tenant_did, prepared),
        prepared.dispatched(token, pending),
    ensures
        policy::templated(prepared.body@),
        pending.request.payload@ == json::json_bytes(
            policy::search_body(
                text::trimmed(args.subject_ref@),
                screening::asked_check_type(args.check_type)->Some_0,
                policy::normal_threshold(policy::asked_bits(args.score_threshold)),
            ),
        ),
        pending.request.url@ == PROVIDER_URL@,
{
    law_search_body_is_templated(
        prepared.subject_ref@,
        prepared.check_type,
        policy::normal_threshold(policy::asked_bits(args.score_threshold)),
    );
}

} // verus!
