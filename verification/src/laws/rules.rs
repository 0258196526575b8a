//! What each rule gives back, in terms of what goes in.
use vstd::prelude::*;
use vstd::utf8::*;

use crate::codec;
use crate::json;
use crate::json::Json;
use crate::laws;
use crate::laws::basics;
use crate::marker;
use crate::policy;
use crate::policy::{CheckType, Threshold};
use crate::screening;
use crate::text;

verus! {

/// Whether `s` is an opaque id: 3 to 64 ASCII letters, digits, `-`, `_`, `.` or
/// `:`.
pub open spec fn opaque_id(s: Seq<char>) -> bool {
    &&& 3 <= s.len() <= 64
    &&& forall|i: int|
        0 <= i < s.len() ==> ('a' <= #[trigger] s[i] <= 'z' || 'A' <= s[i] <= 'Z' || '0' <= s[i]
            <= '9' || s[i] == '-' || s[i] == '_' || s[i] == '.' || s[i] == ':')
}

/// A reference is refused for no reason iff it is an opaque id.
pub proof fn law_reference_is_unobjectionable_iff_opaque(s: Seq<char>)
    ensures
        policy::ref_refusal(s) is None <==> opaque_id(s),
{
    if policy::ref_refusal(s) is None {
        laws::law_accepted_reference_is_opaque(s);
        assert forall|i: int| 0 <= i < s.len() implies ('a' <= #[trigger] s[i] <= 'z' || 'A'
            <= s[i] <= 'Z' || '0' <= s[i] <= '9' || s[i] == '-' || s[i] == '_' || s[i] == '.'
            || s[i] == ':') by {
            assert(policy::ref_char(s[i]));
        }
    }
    if opaque_id(s) {
        assert forall|i: int| 0 <= i < s.len() implies '\0' <= #[trigger] s[i] <= '\u{7f}' by {}
        assert(is_ascii_chars(s));
        is_ascii_chars_encode_utf8(s);
        assert forall|i: int| 0 <= i < s.len() implies policy::ref_char(#[trigger] s[i]) by {}
        assert(!policy::personal(s));
    }
}

/// A reference is accepted iff it is an opaque id with white space around it, and
/// what is accepted is the id without the white space.
pub proof fn law_reference_is_accepted_iff_opaque(
    raw: &str,
    before: Seq<char>,
    core: Seq<char>,
    after: Seq<char>,
    r: Result<&str, String>,
)
    requires
        call_ensures(policy::validate_subject_ref, (raw,), r),
        raw@ == before + core + after,
        basics::blank(before),
        basics::blank(after),
        basics::tight(core),
    ensures
        r is Ok <==> opaque_id(core),
        r is Ok ==> r->Ok_0@ == core,
{
    basics::lemma_trimmed_core(before, core, after);
    law_reference_is_unobjectionable_iff_opaque(core);
}

/// Whatever is accepted is an opaque id that stands in the input between white
/// space.
pub proof fn law_accepted_reference_stands_in_the_input(raw: &str, r: Result<&str, String>) -> (parts:
    (Seq<char>, Seq<char>))
    requires
        call_ensures(policy::validate_subject_ref, (raw,), r),
        r is Ok,
    ensures
        opaque_id(r->Ok_0@),
        raw@ == parts.0 + r->Ok_0@ + parts.1,
        basics::blank(parts.0),
        basics::blank(parts.1),
{
    let parts = basics::lemma_trimmed_parts(raw@);
    law_reference_is_unobjectionable_iff_opaque(text::trimmed(raw@));
    parts
}

/// The refusal of a reference tells the first thing that is wrong with it: its
/// size in bytes, then what gives away an email or a name, then a foreign
/// character.
pub proof fn law_refusal_tells_the_first_fault(
    raw: &str,
    before: Seq<char>,
    core: Seq<char>,
    after: Seq<char>,
    size: u64,
    numeral: String,
    r: Result<&str, String>,
)
    requires
        call_ensures(policy::validate_subject_ref, (raw,), r),
        raw@ == before + core + after,
        basics::blank(before),
        basics::blank(after),
        basics::tight(core),
        size == encode_utf8(core).len(),
        call_ensures(text::decimal_text, (size,), numeral),
    ensures
        !(3 <= size <= 64) ==> r is Err && r->Err_0@
            == "subject-ref must be 3-64 characters, got "@ + numeral@,
        3 <= size <= 64 && (exists|i: int|
            0 <= i < core.len() && (#[trigger] core[i] == '@' || text::white_space(core[i]))) ==> r
            is Err && r->Err_0@ == policy::PERSONAL_DATA@,
        3 <= size <= 64 && !opaque_id(core) && (forall|i: int|
            0 <= i < core.len() ==> #[trigger] core[i] != '@' && !text::white_space(core[i])) ==> r
            is Err && r->Err_0@ == policy::FOREIGN_CHARACTER@,
{
    basics::lemma_trimmed_core(before, core, after);
    law_reference_is_unobjectionable_iff_opaque(core);
    reveal_strlit("subject-ref must be ");
    reveal_strlit("-");
    reveal_strlit(" characters, got ");
    reveal_strlit("subject-ref must be 3-64 characters, got ");
    reveal_with_fuel(text::decimal, 3);
    assert(text::decimal(3) =~= seq!['3']);
    assert(text::decimal(64) =~= seq!['6', '4']);
    assert("subject-ref must be "@ + text::decimal(3) + "-"@ + text::decimal(64)
        + " characters, got "@ =~= "subject-ref must be 3-64 characters, got "@);
}

/// A check type is read from its name and from no other text; no name at all asks
/// for sanctions. An unknown name is quoted in the refusal.
pub proof fn law_check_type_is_read_from_its_name(name: &str, r: Result<CheckType, String>)
    requires
        call_ensures(CheckType::parse, (Some(name),), r),
    ensures
        name@ == "sanctions"@ <==> r == Ok::<CheckType, String>(CheckType::Sanctions),
        name@ == "adverse-media"@ <==> r == Ok::<CheckType, String>(CheckType::AdverseMedia),
        name@ == "pep"@ <==> r == Ok::<CheckType, String>(CheckType::Pep),
        r is Err ==> r->Err_0@ == "unknown check-type "@ + codec::quoted_text(name@)
            + " - expected \"sanctions\", \"adverse-media\" or \"pep\""@,
{
    laws::law_check_type_names(CheckType::Sanctions, CheckType::Pep);
    laws::law_check_type_names(CheckType::AdverseMedia, CheckType::Pep);
    laws::law_check_type_names(CheckType::Pep, CheckType::Pep);
}

/// No name at all asks for sanctions.
pub proof fn law_no_check_type_means_sanctions(r: Result<CheckType, String>)
    requires
        call_ensures(CheckType::parse, (None::<&str>,), r),
    ensures
        r == Ok::<CheckType, String>(CheckType::Sanctions),
{
}

/// Callers and the provider have a name for each check type.
pub proof fn law_check_types_have_their_names(t: CheckType, name: &'static str, filter: &'static str)
    requires
        call_ensures(CheckType::as_str, (t,), name),
        call_ensures(CheckType::provider_filter, (t,), filter),
    ensures
        t == CheckType::Sanctions ==> name@ == "sanctions"@ && filter@ == "sanction"@,
        t == CheckType::AdverseMedia ==> name@ == "adverse-media"@ && filter@ == "adverse-media"@,
        t == CheckType::Pep ==> name@ == "pep"@ && filter@ == "pep"@,
{
}

/// What is read back of a threshold are the bits that it was made with.
pub proof fn law_threshold_keeps_its_bits(bits: u64, text: &str, t: Threshold, b: u64)
    requires
        call_ensures(Threshold::new, (bits, text), Some(t)),
        call_ensures(Threshold::bits, (&t,), b),
    ensures
        b == bits,
        bits % 0x8000_0000_0000_0000 < 0x7ff0_0000_0000_0000 ==> json::double_bits(text@) == Some(
            bits,
        ),
{
}

/// A threshold is made of bits and of a text that denotes them, and only so.
pub proof fn law_threshold_is_made_of_one_double(bits: u64, text: &str, r: Option<Threshold>)
    requires
        call_ensures(Threshold::new, (bits, text), r),
    ensures
        bits % 0x8000_0000_0000_0000 < 0x7ff0_0000_0000_0000 ==> (r is Some <==> json::double_bits(
            text@,
        ) == Some(bits)),
        bits % 0x8000_0000_0000_0000 >= 0x7ff0_0000_0000_0000 ==> (r is Some
            <==> json::double_bits(text@) is None),
{
}

/// A threshold from 0 to 1 is kept to the bit, a lower one becomes 0 and a higher
/// one 1; 0.85 stands for infinities, for what is no number, and for none at all.
pub proof fn law_threshold_is_clamped_bit_by_bit(raw: Option<Threshold>, asked: u64, r: Threshold, b:
    u64)
    requires
        call_ensures(policy::normalise_threshold, (raw,), r),
        call_ensures(Threshold::bits, (&r,), b),
        raw matches Some(t) ==> call_ensures(Threshold::bits, (&t,), asked),
    ensures
        raw is None ==> b == 0x3feb_3333_3333_3333,
        raw is Some && asked <= 0x3ff0_0000_0000_0000 ==> b == asked,
        raw is Some && 0x3ff0_0000_0000_0000 < asked < 0x7ff0_0000_0000_0000 ==> b
            == 0x3ff0_0000_0000_0000,
        raw is Some && 0x7ff0_0000_0000_0000 <= asked < 0x8000_0000_0000_0000 ==> b
            == 0x3feb_3333_3333_3333,
        raw is Some && asked == 0x8000_0000_0000_0000 ==> b == asked,
        raw is Some && 0x8000_0000_0000_0000 < asked < 0xfff0_0000_0000_0000 ==> b == 0,
        raw is Some && 0xfff0_0000_0000_0000 <= asked ==> b == 0x3feb_3333_3333_3333,
{
}

/// A limit from 1 to 1000 is kept, a higher one becomes 1000, and 100 stands for
/// zero and for none.
pub proof fn law_limit_is_kept_or_replaced(raw: Option<u32>, r: u32)
    requires
        call_ensures(policy::normalise_limit, (raw,), r),
    ensures
        raw is None || raw->Some_0 == 0 ==> r == 100,
        raw is Some && 1 <= raw->Some_0 <= 1000 ==> r == raw->Some_0,
        raw is Some && raw->Some_0 > 1000 ==> r == 1000,
{
}

/// No hits clear, and any number of hits goes to review.
pub proof fn law_hits_are_decided_on(hits: u64, r: &'static str)
    requires
        call_ensures(policy::decide, (hits,), r),
    ensures
        hits == 0 ==> r@ == "clear"@,
        hits > 0 ==> r@ == "review"@,
{
}

/// A search body has six members, the filters among them two, and each is what the
/// search is asked with: the two templates, the reference, the threshold, the
/// provider's one name for the check type, and fixed values for the rest.
pub proof fn law_search_body_asks_for_the_check(
    subject_ref: &str,
    t: CheckType,
    threshold: Threshold,
    bits: u64,
    r: Json,
)
    requires
        call_ensures(policy::build_search_body, (subject_ref, t, threshold), r),
        call_ensures(Threshold::bits, (&threshold,), bits),
    ensures
        r@ is Object,
        r@->Object_0["search_term"@] == json::JsonView::Text(
            "{{profile.first_name}} {{profile.last_name}}"@,
        ),
        r@->Object_0["client_ref"@] == json::JsonView::Text(subject_ref@),
        bits % 0x8000_0000_0000_0000 < 0x7ff0_0000_0000_0000 ==> r@->Object_0["score_threshold"@]
            == json::JsonView::Float(bits),
        bits % 0x8000_0000_0000_0000 >= 0x7ff0_0000_0000_0000 ==> r@->Object_0["score_threshold"@]
            == json::JsonView::Null,
        r@->Object_0["fuzziness"@] == json::JsonView::Float(0x3fe3_3333_3333_3333),
        r@->Object_0["share_url"@] == json::JsonView::Bool(false),
        r@->Object_0["filters"@] is Object,
        r@->Object_0["filters"@]->Object_0["birth_year"@] == json::JsonView::Text(
            "{{profile.date_of_birth}}"@,
        ),
        t == CheckType::Sanctions ==> r@->Object_0["filters"@]->Object_0["types"@]
            == json::JsonView::Array(seq![json::JsonView::Text("sanction"@)]),
        t == CheckType::AdverseMedia ==> r@->Object_0["filters"@]->Object_0["types"@]
            == json::JsonView::Array(seq![json::JsonView::Text("adverse-media"@)]),
        t == CheckType::Pep ==> r@->Object_0["filters"@]->Object_0["types"@]
            == json::JsonView::Array(seq![json::JsonView::Text("pep"@)]),
        r@->Object_0.dom() == set![
            "search_term"@,
            "client_ref"@,
            "score_threshold"@,
            "fuzziness"@,
            "share_url"@,
            "filters"@,
        ],
        r@->Object_0["filters"@]->Object_0.dom() == set!["types"@, "birth_year"@],
{
    laws::lemma_body_names();
    reveal_strlit("types");
    reveal_strlit("birth_year");
    assert("types"@.len() != "birth_year"@.len());
}

/// Search bodies for two check types differ in `filters.types` and in nothing else.
pub proof fn law_check_types_are_searched_apart(
    subject_ref: &str,
    t: CheckType,
    u: CheckType,
    threshold: Threshold,
    a: Json,
    b: Json,
    name: Seq<char>,
)
    requires
        call_ensures(policy::build_search_body, (subject_ref, t, threshold), a),
        call_ensures(policy::build_search_body, (subject_ref, u, threshold), b),
    ensures
        a@->Object_0.dom() == b@->Object_0.dom(),
        name != "filters"@ ==> a@->Object_0[name] == b@->Object_0[name],
        a@->Object_0["filters"@]->Object_0.dom() == b@->Object_0["filters"@]->Object_0.dom(),
        name != "types"@ ==> a@->Object_0["filters"@]->Object_0[name]
            == b@->Object_0["filters"@]->Object_0[name],
        t != u ==> a@->Object_0["filters"@]->Object_0["types"@]
            != b@->Object_0["filters"@]->Object_0["types"@],
{
    laws::lemma_body_names();
    reveal_strlit("types");
    reveal_strlit("birth_year");
    assert("types"@.len() != "birth_year"@.len());
    reveal_strlit("sanction");
    reveal_strlit("adverse-media");
    reveal_strlit("pep");
    assert("sanction"@.len() == 8 && "adverse-media"@.len() == 13 && "pep"@.len() == 3);
    if t != u {
        let x = a@->Object_0["filters"@]->Object_0["types"@]->Array_0;
        let y = b@->Object_0["filters"@]->Object_0["types"@]->Array_0;
        assert(x[0]->Text_0.len() != y[0]->Text_0.len());
    }
}

/// The hit count is the integer that the provider sent under
/// `content.data.total_hits`, whatever else it sent, and the search id is what it
/// sent under `content.data.id`.
pub proof fn law_hit_count_is_what_the_provider_sent(
    response: &Json,
    top: Map<Seq<char>, json::JsonView>,
    content: Map<Seq<char>, json::JsonView>,
    data: Map<Seq<char>, json::JsonView>,
    hits: int,
    r: Result<(u64, String), String>,
)
    requires
        call_ensures(policy::read_provider_response, (response,), r),
        response@ == json::JsonView::Object(top),
        top.contains_key("content"@),
        top["content"@] == json::JsonView::Object(content),
        content.contains_key("data"@),
        content["data"@] == json::JsonView::Object(data),
        data.contains_key("total_hits"@),
        data["total_hits"@] == json::JsonView::Integer(hits),
        0 <= hits <= 0xffff_ffff_ffff_ffff,
    ensures
        r is Ok,
        r->Ok_0.0 == hits,
        !data.contains_key("id"@) ==> r->Ok_0.1@ == "unknown"@,
        data.contains_key("id"@) && data["id"@] is Text ==> r->Ok_0.1@ == data["id"@]->Text_0,
        data.contains_key("id"@) && !(data["id"@] is Text) ==> r->Ok_0.1@ == json::json_text(
            data["id"@],
        ),
{
}

/// A response is relied on only where its count is there: `Ok` means that an
/// integer stood under `content.data.total_hits`, and it is the hit count.
pub proof fn law_no_finding_without_a_count(response: &Json, r: Result<(u64, String), String>)
    requires
        call_ensures(policy::read_provider_response, (response,), r),
    ensures
        r is Ok ==> {
            &&& response@ is Object
            &&& response@->Object_0.contains_key("content"@)
            &&& response@->Object_0["content"@] is Object
            &&& response@->Object_0["content"@]->Object_0.contains_key("data"@)
            &&& response@->Object_0["content"@]->Object_0["data"@] is Object
            &&& response@->Object_0["content"@]->Object_0["data"@]->Object_0.contains_key(
                "total_hits"@,
            )
            &&& response@->Object_0["content"@]->Object_0["data"@]->Object_0["total_hits"@]
                == json::JsonView::Integer(r->Ok_0.0 as int)
        },
{
}

/// A response without `content.data` is refused for that, and one whose data has no
/// count that fits is refused for its count.
pub proof fn law_response_refusal_tells_what_is_missing(
    response: &Json,
    r: Result<(u64, String), String>,
)
    requires
        call_ensures(policy::read_provider_response, (response,), r),
        r is Err,
    ensures
        response@ is Object && response@->Object_0.contains_key("content"@)
            && response@->Object_0["content"@] is Object
            && response@->Object_0["content"@]->Object_0.contains_key("data"@) ==> r->Err_0@
            == policy::MISSING_HITS@,
        !(response@ is Object && response@->Object_0.contains_key("content"@)
            && response@->Object_0["content"@] is Object
            && response@->Object_0["content"@]->Object_0.contains_key("data"@)) ==> r->Err_0@
            == policy::MISSING_DATA@,
{
}

/// The bytes of a response are read as the document that they hold; where they hold
/// none the reader's reason is passed on.
pub proof fn law_response_bytes_are_read_as_their_document(
    body: &[u8],
    parsed: Result<Json, String>,
    q: Result<(u64, String), String>,
    r: Result<(u64, String), String>,
)
    requires
        call_ensures(policy::parse_provider_response, (body,), r),
        call_ensures(Json::parse, (body,), parsed),
        parsed matches Ok(doc) ==> call_ensures(policy::read_provider_response, (&doc,), q),
    ensures
        parsed is Ok ==> (r is Ok <==> q is Ok),
        parsed is Ok && r is Ok ==> r->Ok_0.0 == q->Ok_0.0 && r->Ok_0.1@ == q->Ok_0.1@,
        parsed is Ok && r is Err ==> r->Err_0@ == q->Err_0@,
        parsed is Err ==> r is Err && r->Err_0@ == "provider response was not JSON: "@
            + parsed->Err_0@,
{
}

/// The guard passes a body iff its search term is a template and its birth year,
/// where it has one, is one too.
pub proof fn law_guard_passes_templates_alone(
    body: &Json,
    members: Map<Seq<char>, json::JsonView>,
    r: Result<(), String>,
)
    requires
        call_ensures(policy::assert_no_literal_pii, (body,), r),
    ensures
        !(body@ is Object) ==> r is Err,
        body@ == json::JsonView::Object(members) ==> (r is Ok <==> {
            &&& members.contains_key("search_term"@)
            &&& members["search_term"@] is Text
            &&& marker::template(members["search_term"@]->Text_0)
            &&& members.contains_key("filters"@) && members["filters"@] is Object
                && members["filters"@]->Object_0.contains_key("birth_year"@)
                ==> members["filters"@]->Object_0["birth_year"@] is Text && marker::template(
                members["filters"@]->Object_0["birth_year"@]->Text_0,
            )
        }),
{
}

/// The guard's refusal tells the field that is at fault: the search term first, by
/// whether it holds a marker at all, then the birth year.
pub proof fn law_guard_tells_the_field(
    body: &Json,
    members: Map<Seq<char>, json::JsonView>,
    r: Result<(), String>,
)
    requires
        call_ensures(policy::assert_no_literal_pii, (body,), r),
        r is Err,
    ensures
        !(body@ is Object) ==> r->Err_0@ == policy::LITERAL_PII@,
        body@ == json::JsonView::Object(members) && !(members.contains_key("search_term"@)
            && members["search_term"@] is Text && text::has_text(
            members["search_term"@]->Text_0,
            "{{profile."@,
        )) ==> r->Err_0@ == policy::LITERAL_PII@,
        body@ == json::JsonView::Object(members) && members.contains_key("search_term"@)
            && members["search_term"@] is Text && text::has_text(
            members["search_term"@]->Text_0,
            "{{profile."@,
        ) && !marker::template(members["search_term"@]->Text_0) ==> r->Err_0@
            == policy::LITERAL_BESIDE_MARKER@,
        body@ == json::JsonView::Object(members) && members.contains_key("search_term"@)
            && members["search_term"@] is Text && marker::template(
            members["search_term"@]->Text_0,
        ) ==> r->Err_0@ == policy::LITERAL_BIRTH_YEAR@,
{
}

/// The full name of a map is `z:`, the DID in hexadecimal, `:` and the tail, place
/// by place.
pub proof fn law_map_name_place_by_place(did: &[u8], tail: &str, r: String, i: int)
    requires
        call_ensures(policy::qualified_map_name, (did, tail), r),
    ensures
        r@.len() == 3 + 2 * did@.len() + tail@.len(),
        r@[0] == 'z',
        r@[1] == ':',
        0 <= i < did@.len() ==> r@[2 + 2 * i] == "0123456789abcdef"@[did@[i] as int / 16],
        0 <= i < did@.len() ==> r@[3 + 2 * i] == "0123456789abcdef"@[did@[i] as int % 16],
        r@[2int + 2 * did@.len()] == ':',
        r@.skip(3int + 2 * did@.len()) == tail@,
{
    reveal_strlit("z:");
    reveal_strlit(":");
    if 0 <= i < did@.len() {
        basics::law_hex_is_two_digits_a_byte(did@, i);
        let hex = codec::hex_of(did@);
        assert(r@[2 + 2 * i] == hex[2 * i] && r@[3 + 2 * i] == hex[2 * i + 1]);
    }
    assert(r@.skip(3int + 2 * did@.len()) =~= tail@);
}

/// A tenant's map has the full name.
pub proof fn law_tenant_map_has_the_full_name(did: &[u8], tail: &str, a: String, b: String)
    requires
        call_ensures(policy::qualified_map_name, (did, tail), a),
        call_ensures(screening::tenant_map, (did, tail), b),
    ensures
        a@ == b@,
{
}

} // verus!
