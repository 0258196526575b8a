//! What each stage of an export hands on, in terms of what it was given.
use vstd::prelude::*;
use vstd::utf8::*;

use crate::json;
use crate::json::Json;
use crate::laws;
use crate::policy;
use crate::policy::{CheckType, RunCheckArgs, SubjectRefArgs, Threshold};
use crate::screening;
use crate::screening::{
    AuditRead, AuditWrite, CheckReply, Export, HttpError, HttpResponse, PendingCheck, PreparedCheck,
    RecordedCheck, ScreenedCheck, ScreeningFailure, ValidCheck, ValidLookup, Verb,
};
use crate::text;

verus! {

/// The exports have their names, by which their errors begin.
pub proof fn law_exports_have_their_names(
    export: Export,
    name: &'static str,
    reason: &str,
    e: String,
)
    requires
        call_ensures(Export::as_str, (export,), name),
        call_ensures(Export::bad_input, (export, reason), e),
    ensures
        export == Export::RunCheck ==> name@ == "run-check"@,
        export == Export::GetCheck ==> name@ == "get-check"@,
        export == Export::ListChecks ==> name@ == "list-checks"@,
        e@ == name@ + ": bad input JSON: "@ + reason@,
{
}

/// Input that is given is taken as it is; missing input is an error.
pub proof fn law_input_is_taken_as_it_is(
    export: Export,
    name: &'static str,
    input: Option<Vec<u8>>,
    r: Result<Vec<u8>, String>,
)
    requires
        call_ensures(Export::as_str, (export,), name),
        call_ensures(Export::required_input, (export, input), r),
    ensures
        input is Some ==> r is Ok && r->Ok_0@ == input->Some_0@,
        input is None ==> r is Err && r->Err_0@ == name@ + ": missing input"@,
{
}

/// A listing reads the input that is given unless it is empty.
pub proof fn law_listing_reads_what_is_given(input: Option<Vec<u8>>, r: Option<Vec<u8>>)
    requires
        call_ensures(screening::list_input, (input,), r),
    ensures
        r is Some <==> input is Some && input->Some_0@.len() > 0,
        r is Some ==> r->Some_0@ == input->Some_0@,
{
}

/// Each failure of the host is explained by its own sentence, around what the host
/// named.
pub proof fn law_failures_are_told_apart(e: HttpError, r: String)
    requires
        call_ensures(screening::describe, (e,), r),
    ensures
        e matches HttpError::EgressDenied(host) ==> r@ == "egress denied for "@ + host@
            + " - add "@ + "api.complyadvantage.com"@
            + " to the contract's http allow-list and re-grant"@,
        e matches HttpError::PlaceholderDenied(m) ==> r@ == "placeholder not permitted: "@ + m@
            + " (markers must be flat and snake_case)"@,
        e matches HttpError::PlaceholderUnknown(field) ==> r@
            == "the calling user's profile has no "@ + field@
            + " - screening cannot run without it"@,
        e is PlaceholderNoUserContext ==> r@ == screening::NO_USER_CONTEXT@,
        e matches HttpError::UpstreamError(reason) ==> r@ == "screening provider unreachable: "@
            + reason@,
{
}

/// The token is the text that the host read; otherwise the error says why there is
/// none.
pub proof fn law_token_is_the_text_that_was_read(
    map: &str,
    read: Result<Option<Vec<u8>>, String>,
    r: Result<String, String>,
)
    requires
        call_ensures(screening::api_token, (map, read), r),
    ensures
        read matches Ok(Some(bytes)) ==> (r is Ok <==> valid_utf8(bytes@)),
        read matches Ok(Some(bytes)) ==> r is Ok ==> encode_utf8(r->Ok_0@) == bytes@,
        read matches Ok(Some(bytes)) ==> r is Err ==> r->Err_0@ == screening::TOKEN_NOT_UTF8@,
        read matches Ok(None) ==> r is Err && r->Err_0@ == "onboarding_api_key"@
            + " not found in "@ + map@
            + " - seed it with the tenant SDK before invoking this contract"@,
        read matches Err(reason) ==> r is Err && r->Err_0@ == "kv read on "@ + map@ + ": "@
            + reason@,
{
    match read {
        Ok(Some(bytes)) => {
            if valid_utf8(bytes@) {
                decode_utf8_encode_utf8(bytes@);
            }
        },
        _ => {},
    }
}

/// `run-check` accepts what the rules accept, and refuses by the first rule that
/// refuses: the reference, then the check type. The check is for the accepted
/// reference and type, and its body asks for them with the clamped threshold.
pub proof fn law_run_check_goes_by_the_rules(
    args: RunCheckArgs,
    raw: &str,
    reference: Result<&str, String>,
    name: Option<&str>,
    check_type: Result<CheckType, String>,
    threshold: Threshold,
    body: Json,
    r: Result<ValidCheck, String>,
)
    requires
        call_ensures(screening::run_check, (Ok(args),), r),
        raw@ == args.subject_ref@,
        call_ensures(policy::validate_subject_ref, (raw,), reference),
        args.check_type is Some <==> name is Some,
        name is Some ==> name->Some_0@ == args.check_type->Some_0@,
        call_ensures(CheckType::parse, (name,), check_type),
        call_ensures(policy::normalise_threshold, (args.score_threshold,), threshold),
        reference is Ok && check_type is Ok ==> call_ensures(
            policy::build_search_body,
            (reference->Ok_0, check_type->Ok_0, threshold),
            body,
        ),
    ensures
        r is Ok <==> reference is Ok && check_type is Ok,
        reference is Err ==> r->Err_0@ == reference->Err_0@,
        reference is Ok && check_type is Err ==> r->Err_0@ == check_type->Err_0@,
        r is Ok ==> r->Ok_0.subject_ref@ == reference->Ok_0@,
        r is Ok ==> r->Ok_0.check_type == check_type->Ok_0,
        r is Ok ==> r->Ok_0.body@ == body@,
{
}

/// Input that does not hold the arguments is refused with the reader's reason.
pub proof fn law_unreadable_input_is_refused(
    reason: String,
    run: Result<ValidCheck, String>,
    get: Result<ValidLookup, String>,
)
    requires
        call_ensures(screening::run_check, (Err(reason),), run),
        call_ensures(screening::get_check, (Err(reason),), get),
    ensures
        run is Err && run->Err_0@ == "run-check"@ + ": bad input JSON: "@ + reason@,
        get is Err && get->Err_0@ == "get-check"@ + ": bad input JSON: "@ + reason@,
{
}

/// A check for a tenant is the same check, and its token is in the tenant's secrets
/// map.
pub proof fn law_tenant_keeps_the_check(
    check: ValidCheck,
    did: &[u8],
    tail: &str,
    map: String,
    r: PreparedCheck,
)
    requires
        call_ensures(ValidCheck::for_tenant, (check, did), r),
        tail@ == "secrets"@,
        call_ensures(policy::qualified_map_name, (did, tail), map),
    ensures
        r.tenant_did@ == did@,
        r.secrets_map@ == map@,
        r.subject_ref@ == check.subject_ref@,
        r.check_type == check.check_type,
        r.body@ == check.body@,
{
}

/// A request posts the payload to the provider under the token, and what is logged
/// names the reference and the check type.
pub proof fn law_request_posts_the_payload(
    check: PreparedCheck,
    token: &str,
    payload: Vec<u8>,
    name: &'static str,
    r: PendingCheck,
)
    requires
        call_ensures(PreparedCheck::request, (check, token, payload), r),
        call_ensures(CheckType::as_str, (check.check_type,), name),
    ensures
        r.tenant_did@ == check.tenant_did@,
        r.subject_ref@ == check.subject_ref@,
        r.check_type == check.check_type,
        r.request.method == Verb::Post,
        r.request.url@ == "https://api.complyadvantage.com/searches"@,
        r.request.headers@.len() == 2,
        r.request.headers@[0].0@ == "Content-Type"@,
        r.request.headers@[0].1@ == "application/json"@,
        r.request.headers@[1].0@ == "Authorization"@,
        r.request.headers@[1].1@ == "Token "@ + token@,
        r.request.payload@ == payload@,
        r.log@ == "screening "@ + check.subject_ref@ + " ("@ + name@ + ") via "@
            + "api.complyadvantage.com"@,
{
}

/// A check is dispatched iff the guard passes its body and there is a token, with
/// the refusal of the first that fails. What leaves is the body.
pub proof fn law_dispatch_sends_the_body(
    check: PreparedCheck,
    read: Result<Option<Vec<u8>>, String>,
    guard: Result<(), String>,
    map: &str,
    token: Result<String, String>,
    payload: Result<Vec<u8>, String>,
    name: &'static str,
    r: Result<PendingCheck, String>,
)
    requires
        call_ensures(PreparedCheck::dispatch, (check, read), r),
        call_ensures(policy::assert_no_literal_pii, (&check.body,), guard),
        map@ == check.secrets_map@,
        call_ensures(screening::api_token, (map, read), token),
        call_ensures(Json::to_bytes, (&check.body,), payload),
        call_ensures(CheckType::as_str, (check.check_type,), name),
    ensures
        r is Ok <==> guard is Ok && token is Ok,
        guard is Err ==> r->Err_0@ == guard->Err_0@,
        guard is Ok && token is Err ==> r->Err_0@ == token->Err_0@,
        r is Ok ==> r->Ok_0.tenant_did@ == check.tenant_did@,
        r is Ok ==> r->Ok_0.subject_ref@ == check.subject_ref@,
        r is Ok ==> r->Ok_0.check_type == check.check_type,
        r is Ok ==> r->Ok_0.request.method == Verb::Post,
        r is Ok ==> r->Ok_0.request.url@ == "https://api.complyadvantage.com/searches"@,
        r is Ok ==> r->Ok_0.request.headers@.len() == 2,
        r is Ok ==> r->Ok_0.request.headers@[0].0@ == "Content-Type"@,
        r is Ok ==> r->Ok_0.request.headers@[0].1@ == "application/json"@,
        r is Ok ==> r->Ok_0.request.headers@[1].0@ == "Authorization"@,
        r is Ok ==> r->Ok_0.request.headers@[1].1@ == "Token "@ + token->Ok_0@,
        r is Ok ==> payload is Ok && r->Ok_0.request.payload@ == payload->Ok_0@,
        r is Ok ==> r->Ok_0.log@ == "screening "@ + check.subject_ref@ + " ("@ + name@ + ") via "@
            + "api.complyadvantage.com"@,
{
}

/// A response is read iff its status is 200 or 201, as the rule reads its body. Any
/// other status is reported by itself, and a failure of the host by its explanation.
pub proof fn law_response_is_received_by_its_status(
    check: PendingCheck,
    reply: Result<HttpResponse, HttpError>,
    body: &[u8],
    found: Result<(u64, String), String>,
    numeral: String,
    explained: String,
    r: Result<ScreenedCheck, ScreeningFailure>,
)
    requires
        call_ensures(PendingCheck::receive, (check, reply), r),
        reply matches Ok(response) ==> body@ == response.payload@ && call_ensures(
            text::decimal_text,
            (response.code as u64,),
            numeral,
        ),
        call_ensures(policy::parse_provider_response, (body,), found),
        reply matches Err(e) ==> call_ensures(screening::describe, (e,), explained),
    ensures
        r is Ok <==> reply is Ok && (reply->Ok_0.code == 200 || reply->Ok_0.code == 201) && found
            is Ok,
        r is Ok ==> r->Ok_0.hit_count == found->Ok_0.0 && r->Ok_0.provider_ref@ == found->Ok_0.1@,
        r is Ok ==> r->Ok_0.tenant_did@ == check.tenant_did@,
        r is Ok ==> r->Ok_0.subject_ref@ == check.subject_ref@,
        r is Ok ==> r->Ok_0.check_type == check.check_type,
        reply is Err ==> r->Err_0.log is None && r->Err_0.error@ == explained@,
        reply is Ok && reply->Ok_0.code != 200 && reply->Ok_0.code != 201 ==> r->Err_0.log is Some
            && r->Err_0.log->Some_0@ == "provider returned HTTP "@ + numeral@,
        reply is Ok && reply->Ok_0.code != 200 && reply->Ok_0.code != 201 ==> r->Err_0.error@
            == "screening provider returned HTTP "@ + numeral@
            + " (response body withheld: it echoes the substituted search term)"@,
        reply is Ok && (reply->Ok_0.code == 200 || reply->Ok_0.code == 201) && found is Err
            ==> r->Err_0.log is None && r->Err_0.error@ == found->Err_0@,
{
}

/// A finding is taken over as it is.
pub proof fn law_finding_is_taken_over(
    check: PendingCheck,
    finding: Result<(u64, String), String>,
    r: Result<ScreenedCheck, ScreeningFailure>,
)
    requires
        call_ensures(PendingCheck::conclude, (check, finding), r),
    ensures
        r is Ok <==> finding is Ok,
        r is Ok ==> r->Ok_0.hit_count == finding->Ok_0.0 && r->Ok_0.provider_ref@
            == finding->Ok_0.1@,
        r is Ok ==> r->Ok_0.tenant_did@ == check.tenant_did@,
        r is Ok ==> r->Ok_0.subject_ref@ == check.subject_ref@,
        r is Ok ==> r->Ok_0.check_type == check.check_type,
        r is Err ==> r->Err_0.log is None && r->Err_0.error@ == finding->Err_0@,
{
}

/// A record tells the check, the finding, the decision on it, the host's time and
/// sequence number, and the contract's version; it is for the tenant's audit map.
pub proof fn law_record_tells_the_check(
    check: ScreenedCheck,
    checked_at: u64,
    seq_no: u64,
    name: &'static str,
    decision: &'static str,
    did: &[u8],
    tail: &str,
    map: String,
    r: RecordedCheck,
)
    requires
        call_ensures(ScreenedCheck::stamp, (check, checked_at, seq_no), r),
        call_ensures(CheckType::as_str, (check.check_type,), name),
        call_ensures(policy::decide, (check.hit_count,), decision),
        did@ == check.tenant_did@,
        tail@ == "onboarding-audit"@,
        call_ensures(policy::qualified_map_name, (did, tail), map),
    ensures
        r.audit_map@ == map@,
        r.record.subject_ref@ == check.subject_ref@,
        r.record.decision@ == decision@,
        r.record.check_type@ == name@,
        r.record.hit_count == check.hit_count,
        r.record.checked_at == checked_at,
        r.record.seq_no == seq_no,
        r.record.provider_ref@ == check.provider_ref@,
        r.record.contract_version@ == "0.1.0"@,
{
}

/// A record is written under its reference, with the bytes that were made of it.
pub proof fn law_record_is_written_under_its_reference(
    check: RecordedCheck,
    encoded: Result<Vec<u8>, String>,
    numeral: String,
    r: Result<AuditWrite, String>,
)
    requires
        call_ensures(RecordedCheck::encode, (check, encoded), r),
        call_ensures(text::decimal_text, (check.record.hit_count,), numeral),
    ensures
        r is Ok <==> encoded is Ok,
        r is Ok ==> r->Ok_0.map@ == check.audit_map@,
        r is Ok ==> r->Ok_0.key@ == encode_utf8(check.record.subject_ref@),
        r is Ok ==> r->Ok_0.value@ == encoded->Ok_0@,
        r is Ok ==> r->Ok_0.log@ == check.record.subject_ref@ + ": "@ + check.record.decision@
            + " ("@ + numeral@ + " hit(s))"@,
        r is Err ==> r->Err_0@ == encoded->Err_0@,
{
}

/// What `run-check` returns is what was written, once that is stored.
pub proof fn law_reply_is_what_was_written(
    write: AuditWrite,
    stored: Result<(), String>,
    r: Result<CheckReply, String>,
)
    requires
        call_ensures(AuditWrite::finish, (write, stored), r),
    ensures
        r is Ok <==> stored is Ok,
        r is Ok ==> r->Ok_0.output@ == write.value@ && r->Ok_0.log@ == write.log@,
        r is Err ==> r->Err_0@ == "kv write on "@ + write.map@ + ": "@ + stored->Err_0@,
{
}

/// A check that comes through with an integer under `content.data.total_hits` is
/// recorded with that integer, and it is recorded as clear iff the integer is zero.
pub proof fn law_record_clears_iff_the_provider_sent_zero(
    check: PendingCheck,
    response: HttpResponse,
    top: Map<Seq<char>, json::JsonView>,
    content: Map<Seq<char>, json::JsonView>,
    data: Map<Seq<char>, json::JsonView>,
    hits: int,
    screened: Result<ScreenedCheck, ScreeningFailure>,
    checked_at: u64,
    seq_no: u64,
    r: RecordedCheck,
)
    requires
        call_ensures(PendingCheck::receive, (check, Ok(response)), screened),
        response.code == 200 || response.code == 201,
        json::json_document(response.payload@) == Ok::<json::JsonView, Seq<char>>(
            json::JsonView::Object(top),
        ),
        top.contains_key("content"@),
        top["content"@] == json::JsonView::Object(content),
        content.contains_key("data"@),
        content["data"@] == json::JsonView::Object(data),
        data.contains_key("total_hits"@),
        data["total_hits"@] == json::JsonView::Integer(hits),
        0 <= hits <= 0xffff_ffff_ffff_ffff,
        screened is Ok ==> call_ensures(
            ScreenedCheck::stamp,
            (screened->Ok_0, checked_at, seq_no),
            r,
        ),
    ensures
        screened is Ok,
        r.record.hit_count == hits,
        r.record.decision@ == "clear"@ <==> hits == 0,
        r.record.decision@ == "review"@ <==> hits > 0,
{
    laws::law_only_zero_hits_clear(hits as nat);
}

/// No check comes through on a response that sent no count.
pub proof fn law_no_record_without_a_count(
    check: PendingCheck,
    response: HttpResponse,
    tree: json::JsonView,
    r: Result<ScreenedCheck, ScreeningFailure>,
)
    requires
        call_ensures(PendingCheck::receive, (check, Ok(response)), r),
        r is Ok,
    ensures
        json::json_document(response.payload@) is Ok,
        json::json_document(response.payload@) == Ok::<json::JsonView, Seq<char>>(tree)
            ==> tree->Object_0["content"@]->Object_0["data"@]->Object_0["total_hits"@]
            == json::JsonView::Integer(r->Ok_0.hit_count as int),
{
}

/// `get-check` accepts the references that the rule accepts, with its refusal.
pub proof fn law_get_check_goes_by_the_rule(
    args: SubjectRefArgs,
    raw: &str,
    reference: Result<&str, String>,
    r: Result<ValidLookup, String>,
)
    requires
        call_ensures(screening::get_check, (Ok(args),), r),
        raw@ == args.subject_ref@,
        call_ensures(policy::validate_subject_ref, (raw,), reference),
    ensures
        r is Ok <==> reference is Ok,
        r is Ok ==> r->Ok_0.subject_ref@ == reference->Ok_0@,
        r is Err ==> r->Err_0@ == reference->Err_0@,
{
}

/// A decision is read in the tenant's audit map, under the reference.
pub proof fn law_lookup_reads_the_audit_map(
    lookup: ValidLookup,
    did: &[u8],
    tail: &str,
    map: String,
    r: AuditRead,
)
    requires
        call_ensures(ValidLookup::for_tenant, (lookup, did), r),
        tail@ == "onboarding-audit"@,
        call_ensures(policy::qualified_map_name, (did, tail), map),
    ensures
        r.map@ == map@,
        r.key@ == encode_utf8(lookup.subject_ref@),
        r.subject_ref@ == lookup.subject_ref@,
{
}

/// What `get-check` returns are the bytes that the host read, as they are; otherwise
/// the error says that there are none or why the reading failed.
pub proof fn law_lookup_returns_what_was_read(
    lookup: AuditRead,
    read: Result<Option<Vec<u8>>, String>,
    r: Result<Vec<u8>, String>,
)
    requires
        call_ensures(AuditRead::reply, (lookup, read), r),
    ensures
        read matches Ok(Some(stored)) ==> r is Ok && r->Ok_0@ == stored@,
        read matches Ok(None) ==> r is Err && r->Err_0@ == "no screening on record for "@
            + lookup.subject_ref@,
        read matches Err(reason) ==> r is Err && r->Err_0@ == "kv read on "@ + lookup.map@ + ": "@
            + reason@,
{
}

} // verus!
