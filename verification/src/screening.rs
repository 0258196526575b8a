//! The three exports, as far as they can be decided without the host.
//!
//! Each export is a chain of stages. A stage says what the host is to do next;
//! what the host answers goes to the stage's own method, which gives the next
//! stage, the reply, or the error.
use vstd::prelude::*;
use vstd::string::*;
use vstd::utf8::*;

use crate::codec;
use crate::codec::{utf8_text, utf8_text_lossy};
use crate::json;
use crate::json::{add_item, add_member, Json};
use crate::policy;
use crate::policy::{
    assert_no_literal_pii, build_search_body, decide, normalise_limit, normalise_threshold,
    parse_provider_response, qualified_map_name, scan_bounds, validate_subject_ref, AuditRecord,
    CheckType, ListArgs, RunCheckArgs, SubjectRefArgs, AUDIT_MAP, PROVIDER_HOST, PROVIDER_URL,
    SECRETS_MAP, SECRET_KEY,
};
use crate::text;
use crate::text::decimal_text;
use crate::CONTRACT_VERSION;

verus! {

/// What the contract exports.
#[derive(Debug, Clone, Copy, PartialEq, Eq, Structural)]
pub enum Export {
    RunCheck,
    GetCheck,
    ListChecks,
}

impl Export {
    /// The export's name.
    pub open spec fn name(self) -> Seq<char> {
        match self {
            Export::RunCheck => "run-check"@,
            Export::GetCheck => "get-check"@,
            Export::ListChecks => "list-checks"@,
        }
    }

    /// The export's name.
    pub fn as_str(self) -> (r: &'static str)
        ensures
            r@ == self.name(),
    {
        match self {
            Export::RunCheck => "run-check",
            Export::GetCheck => "get-check",
            Export::ListChecks => "list-checks",
        }
    }

    /// The input of an export that cannot do without.
    pub fn required_input(self, input: Option<Vec<u8>>) -> (r: Result<Vec<u8>, String>)
        ensures
            match (input, r) {
                (Some(given), Ok(bytes)) => bytes == given,
                (None, Err(e)) => e@ == self.name() + ": missing input"@,
                _ => false,
            },
    {
        match input {
            Some(bytes) => Ok(bytes),
            None => {
                let mut e = self.as_str().to_owned();
                e.append(": missing input");
                Err(e)
            },
        }
    }

    /// The error on input that does not hold the export's arguments.
    pub open spec fn bad_input_text(self, reason: Seq<char>) -> Seq<char> {
        self.name() + ": bad input JSON: "@ + reason
    }

    /// The error on input that does not hold the export's arguments.
    pub fn bad_input(self, reason: &str) -> (r: String)
        ensures
            r@ == self.bad_input_text(reason@),
    {
        let mut e = self.as_str().to_owned();
        e.append(": bad input JSON: ");
        e.append(reason);
        e
    }
}

/// The input of `list-checks` that is to be read, if any: an absent or empty one
/// asks for everything from the start.
pub fn list_input(input: Option<Vec<u8>>) -> (r: Option<Vec<u8>>)
    ensures
        r == (match input {
            Some(bytes) => if bytes@.len() == 0 {
                None
            } else {
                Some(bytes)
            },
            None => None,
        }),
{
    match input {
        Some(bytes) => if bytes.len() == 0 {
            None
        } else {
            Some(bytes)
        },
        None => None,
    }
}

/// Why the host could not carry out a request.
#[derive(Debug)]
pub enum HttpError {
    EgressDenied(String),
    PlaceholderDenied(String),
    PlaceholderUnknown(String),
    PlaceholderNoUserContext,
    UpstreamError(String),
}

impl HttpError {
    /// The error as a caller reads it.
    pub open spec fn explanation(self) -> Seq<char> {
        match self {
            HttpError::EgressDenied(host) => "egress denied for "@ + host@ + " - add "@
                + PROVIDER_HOST@ + " to the contract's http allow-list and re-grant"@,
            HttpError::PlaceholderDenied(marker) => "placeholder not permitted: "@ + marker@
                + " (markers must be flat and snake_case)"@,
            HttpError::PlaceholderUnknown(field) => "the calling user's profile has no "@ + field@
                + " - screening cannot run without it"@,
            HttpError::PlaceholderNoUserContext => NO_USER_CONTEXT@,
            HttpError::UpstreamError(reason) => "screening provider unreachable: "@ + reason@,
        }
    }
}

/// The error where no user is bound to the call.
pub const NO_USER_CONTEXT: &'static str =
    "no user context bound: run-check must be invoked through the Session API by the user being screened, not via /api/dev/exec";

/// Explains why a request could not be carried out. A profile's missing field is
/// named; what a field holds never stands here.
pub fn describe(e: HttpError) -> (r: String)
    ensures
        r@ == e.explanation(),
{
    match e {
        HttpError::EgressDenied(host) => {
            let mut r = "egress denied for ".to_owned();
            r.append(host.as_str());
            r.append(" - add ");
            r.append(PROVIDER_HOST);
            r.append(" to the contract's http allow-list and re-grant");
            r
        },
        HttpError::PlaceholderDenied(marker) => {
            let mut r = "placeholder not permitted: ".to_owned();
            r.append(marker.as_str());
            r.append(" (markers must be flat and snake_case)");
            r
        },
        HttpError::PlaceholderUnknown(field) => {
            let mut r = "the calling user's profile has no ".to_owned();
            r.append(field.as_str());
            r.append(" - screening cannot run without it");
            r
        },
        HttpError::PlaceholderNoUserContext => NO_USER_CONTEXT.to_owned(),
        HttpError::UpstreamError(reason) => {
            let mut r = "screening provider unreachable: ".to_owned();
            r.append(reason.as_str());
            r
        },
    }
}

/// The full name of the tenant's map `tail`.
pub fn tenant_map(tenant_did: &[u8], tail: &str) -> (r: String)
    ensures
        r@ == policy::map_name(tenant_did@, tail@),
{
    qualified_map_name(tenant_did, tail)
}

/// The error on a failed access to a map.
pub open spec fn kv_error(access: Seq<char>, map: Seq<char>, reason: Seq<char>) -> Seq<char> {
    access + map + ": "@ + reason
}

/// Words the error on a failed access to a map.
fn kv_error_text(access: &str, map: &str, reason: &str) -> (r: String)
    ensures
        r@ == kv_error(access@, map@, reason@),
{
    let mut e = access.to_owned();
    e.append(map);
    e.append(": ");
    e.append(reason);
    e
}

/// The error where the token is no text.
pub const TOKEN_NOT_UTF8: &'static str = "provider token in secrets map is not valid UTF-8";

/// The provider's token by what the host read in the map `map`: the token, or
/// why there is none.
pub open spec fn token_read(
    map: Seq<char>,
    read: Result<Option<Vec<u8>>, String>,
) -> Result<Seq<char>, Seq<char>> {
    match read {
        Ok(Some(bytes)) => if valid_utf8(bytes@) {
            Ok(decode_utf8(bytes@))
        } else {
            Err(TOKEN_NOT_UTF8@)
        },
        Ok(None) => Err(
            SECRET_KEY@ + " not found in "@ + map
                + " - seed it with the tenant SDK before invoking this contract"@,
        ),
        Err(reason) => Err(kv_error("kv read on "@, map, reason@)),
    }
}

/// Takes the provider's token from what the host read under its key in the map
/// `map`.
pub fn api_token(map: &str, read: Result<Option<Vec<u8>>, String>) -> (r: Result<String, String>)
    ensures
        match r {
            Ok(token) => token_read(map@, read) == Ok::<Seq<char>, Seq<char>>(token@),
            Err(e) => token_read(map@, read) == Err::<Seq<char>, Seq<char>>(e@),
        },
{
    match read {
        Ok(Some(bytes)) => match utf8_text(bytes) {
            Some(token) => Ok(token),
            None => Err(TOKEN_NOT_UTF8.to_owned()),
        },
        Ok(None) => {
            let mut e = SECRET_KEY.to_owned();
            e.append(" not found in ");
            e.append(map);
            e.append(" - seed it with the tenant SDK before invoking this contract");
            Err(e)
        },
        Err(reason) => Err(kv_error_text("kv read on ", map, reason.as_str())),
    }
}

/// How a request is made.
#[derive(Debug, Clone, Copy, PartialEq, Eq, Structural)]
pub enum Verb {
    Post,
}

/// A request that the host dispatches, markers and all.
#[derive(Debug)]
pub struct HttpRequest {
    pub method: Verb,
    pub url: String,
    pub headers: Vec<(String, String)>,
    pub payload: Vec<u8>,
}

/// What came back to a request.
#[derive(Debug)]
pub struct HttpResponse {
    pub code: u16,
    pub payload: Vec<u8>,
}

/// A check whose arguments were accepted. The host is to tell the tenant.
#[derive(Debug)]
pub struct ValidCheck {
    pub subject_ref: String,
    pub check_type: CheckType,
    pub body: Json,
}

/// A check that awaits the provider's token. The host is to read `SECRET_KEY` in
/// the map `secrets_map`.
#[derive(Debug)]
pub struct PreparedCheck {
    pub tenant_did: Vec<u8>,
    pub secrets_map: String,
    pub subject_ref: String,
    pub check_type: CheckType,
    pub body: Json,
}

/// A check that awaits the provider's response. The host is to log `log` and to
/// dispatch `request`.
#[derive(Debug)]
pub struct PendingCheck {
    pub tenant_did: Vec<u8>,
    pub subject_ref: String,
    pub check_type: CheckType,
    pub log: String,
    pub request: HttpRequest,
}

/// Why a provider's response is of no use. The host is to log `log`, if any, as
/// an error.
#[derive(Debug)]
pub struct ScreeningFailure {
    pub log: Option<String>,
    pub error: String,
}

/// A check that awaits the time and the sequence number of its record.
#[derive(Debug)]
pub struct ScreenedCheck {
    pub tenant_did: Vec<u8>,
    pub subject_ref: String,
    pub check_type: CheckType,
    pub hit_count: u64,
    pub provider_ref: String,
}

/// A check that awaits the bytes of its record, which are to go to the map
/// `audit_map`.
#[derive(Debug)]
pub struct RecordedCheck {
    pub audit_map: String,
    pub record: AuditRecord,
}

/// A check that awaits its record's being stored. The host is to put `value`
/// under `key` in the map `map`, and to log `log` once that is done.
#[derive(Debug)]
pub struct AuditWrite {
    pub map: String,
    pub key: Vec<u8>,
    pub value: Vec<u8>,
    pub log: String,
}

/// The reply of `run-check`, and what the host is to log before it.
#[derive(Debug)]
pub struct CheckReply {
    pub log: String,
    pub output: Vec<u8>,
}

/// The check type that the arguments ask for, where they name one that exists.
pub open spec fn asked_check_type(raw: Option<String>) -> Option<CheckType> {
    match raw {
        Some(name) => policy::check_type_named(name@),
        None => Some(CheckType::Sanctions),
    }
}

/// Why `run-check` refuses its input, if it does.
pub open spec fn run_refusal(args: Result<RunCheckArgs, String>) -> Option<Seq<char>> {
    match args {
        Err(reason) => Some(Export::RunCheck.bad_input_text(reason@)),
        Ok(args) => match policy::ref_refusal(text::trimmed(args.subject_ref@)) {
            Some(e) => Some(e),
            None => match (asked_check_type(args.check_type), args.check_type) {
                (None, Some(name)) => Some(policy::unknown_check_type(name@)),
                _ => None,
            },
        },
    }
}

/// What `run-check` makes of arguments that it accepts.
pub open spec fn validated(args: RunCheckArgs, check: ValidCheck) -> bool {
    &&& check.subject_ref@ == text::trimmed(args.subject_ref@)
    &&& Some(check.check_type) == asked_check_type(args.check_type)
    &&& check.body@ == policy::search_body(
        check.subject_ref@,
        check.check_type,
        policy::normal_threshold(policy::asked_bits(args.score_threshold)),
    )
}

/// Begins a check for the caller's arguments, or for the reason why the input
/// does not hold them.
pub fn run_check(args: Result<RunCheckArgs, String>) -> (r: Result<ValidCheck, String>)
    ensures
        match r {
            Ok(check) => args is Ok && run_refusal(args) is None && validated(args->Ok_0, check),
            Err(e) => run_refusal(args) == Some(e@),
        },
{
    let args = match args {
        Ok(args) => args,
        Err(reason) => return Err(Export::RunCheck.bad_input(reason.as_str())),
    };
    let subject_ref = match validate_subject_ref(args.subject_ref.as_str()) {
        Ok(s) => s,
        Err(e) => return Err(e),
    };
    let raw_type: Option<&str> = match &args.check_type {
        Some(name) => Some(name.as_str()),
        None => None,
    };
    let check_type = match CheckType::parse(raw_type) {
        Ok(t) => t,
        Err(e) => return Err(e),
    };
    let threshold = normalise_threshold(args.score_threshold);
    let ghost bits = threshold@;
    let body = build_search_body(subject_ref, check_type, threshold);
    match assert_no_literal_pii(&body) {
        Ok(_) => {},
        Err(e) => {
            proof {
                crate::laws::law_search_body_is_templated(subject_ref@, check_type, bits);
            }
            return Err(e);
        },
    }
    Ok(ValidCheck { subject_ref: subject_ref.to_owned(), check_type, body })
}

impl ValidCheck {
    /// The check for a tenant.
    pub open spec fn prepared(self, tenant_did: Seq<u8>, next: PreparedCheck) -> bool {
        &&& next.tenant_did@ == tenant_did
        &&& next.secrets_map@ == policy::map_name(tenant_did, SECRETS_MAP@)
        &&& next.subject_ref == self.subject_ref
        &&& next.check_type == self.check_type
        &&& next.body == self.body
    }

    /// Takes the DID of the tenant.
    pub fn for_tenant(self, tenant_did: &[u8]) -> (r: PreparedCheck)
        ensures
            self.prepared(tenant_did@, r),
    {
        PreparedCheck {
            tenant_did: vstd::slice::slice_to_vec(tenant_did),
            secrets_map: tenant_map(tenant_did, SECRETS_MAP),
            subject_ref: self.subject_ref,
            check_type: self.check_type,
            body: self.body,
        }
    }
}

/// The request that searches with the body `payload` under the token `token`.
pub open spec fn search_request(
    request: HttpRequest,
    token: Seq<char>,
    payload: Seq<u8>,
) -> bool {
    &&& request.method == Verb::Post
    &&& request.url@ == PROVIDER_URL@
    &&& request.headers@.len() == 2
    &&& request.headers@[0].0@ == "Content-Type"@
    &&& request.headers@[0].1@ == "application/json"@
    &&& request.headers@[1].0@ == "Authorization"@
    &&& request.headers@[1].1@ == "Token "@ + token
    &&& request.payload@ == payload
}

impl PreparedCheck {
    /// Why no request can be made of the body and of what the host read, if none
    /// can.
    pub open spec fn dispatch_refusal(self, read: Result<Option<Vec<u8>>, String>) -> Option<
        Seq<char>,
    > {
        if !policy::templated(self.body@) {
            Some(policy::literal_refusal(self.body@))
        } else {
            match token_read(self.secrets_map@, read) {
                Err(e) => Some(e),
                Ok(_) => None,
            }
        }
    }

    /// The check with its request, under the token `token` and with the body
    /// `payload`.
    pub open spec fn requested(
        self,
        token: Seq<char>,
        payload: Seq<u8>,
        next: PendingCheck,
    ) -> bool {
        &&& next.tenant_did == self.tenant_did
        &&& next.subject_ref == self.subject_ref
        &&& next.check_type == self.check_type
        &&& next.log@ == "screening "@ + self.subject_ref@ + " ("@ + self.check_type.name()
            + ") via "@ + PROVIDER_HOST@
        &&& search_request(next.request, token, payload)
    }

    /// The check after the token was read.
    pub open spec fn dispatched(
        self,
        read: Result<Option<Vec<u8>>, String>,
        next: PendingCheck,
    ) -> bool {
        self.requested(
            token_read(self.secrets_map@, read)->Ok_0,
            json::json_bytes(self.body@),
            next,
        )
    }

    /// Makes the request, under the token `token` and with the body `payload`.
    pub fn request(self, token: &str, payload: Vec<u8>) -> (r: PendingCheck)
        ensures
            self.requested(token@, payload@, r),
    {
        let mut log = "screening ".to_owned();
        log.append(self.subject_ref.as_str());
        log.append(" (");
        log.append(self.check_type.as_str());
        log.append(") via ");
        log.append(PROVIDER_HOST);
        let mut authorization = "Token ".to_owned();
        authorization.append(token);
        let mut headers: Vec<(String, String)> = Vec::new();
        headers.push(("Content-Type".to_owned(), "application/json".to_owned()));
        headers.push(("Authorization".to_owned(), authorization));
        PendingCheck {
            tenant_did: self.tenant_did,
            subject_ref: self.subject_ref,
            check_type: self.check_type,
            log,
            request: HttpRequest {
                method: Verb::Post,
                url: PROVIDER_URL.to_owned(),
                headers,
                payload,
            },
        }
    }

    /// Makes the request, with the token that the host read. A body in which a
    /// literal stands where a marker belongs does not leave.
    pub fn dispatch(self, read: Result<Option<Vec<u8>>, String>) -> (r: Result<
        PendingCheck,
        String,
    >)
        ensures
            match r {
                Ok(next) => self.dispatch_refusal(read) is None && self.dispatched(read, next),
                Err(e) => self.dispatch_refusal(read) == Some(e@),
            },
    {
        match assert_no_literal_pii(&self.body) {
            Ok(_) => {},
            Err(e) => return Err(e),
        }
        let token = match api_token(self.secrets_map.as_str(), read) {
            Ok(token) => token,
            Err(e) => return Err(e),
        };
        let payload = match self.body.to_bytes() {
            Ok(payload) => payload,
            Err(e) => return Err(e),
        };
        Ok(self.request(token.as_str(), payload))
    }
}

/// Whether the provider did what it was asked for.
pub open spec fn accepted(code: u16) -> bool {
    code == 200 || code == 201
}

/// The log line on a response with a status other than the accepted ones.
pub open spec fn status_log(code: u16) -> Seq<char> {
    "provider returned HTTP "@ + text::decimal(code as nat)
}

/// The error on a response with a status other than the accepted ones.
pub open spec fn status_error(code: u16) -> Seq<char> {
    "screening provider returned HTTP "@ + text::decimal(code as nat)
        + " (response body withheld: it echoes the substituted search term)"@
}

/// What a reply of the host says of the counterparty: the finding, or the error
/// line to log, if any, and the error.
pub open spec fn screened(reply: Result<HttpResponse, HttpError>) -> Result<
    (u64, Seq<char>),
    (Option<Seq<char>>, Seq<char>),
> {
    match reply {
        Ok(response) => if !accepted(response.code) {
            Err((Some(status_log(response.code)), status_error(response.code)))
        } else {
            match policy::payload_finding(response.payload@) {
                Ok(finding) => Ok(finding),
                Err(e) => Err((None, e)),
            }
        },
        Err(e) => Err((None, e.explanation())),
    }
}

impl PendingCheck {
    /// The check after a response with the finding `found`.
    pub open spec fn received(self, found: (u64, Seq<char>), next: ScreenedCheck) -> bool {
        &&& next.tenant_did == self.tenant_did
        &&& next.subject_ref == self.subject_ref
        &&& next.check_type == self.check_type
        &&& next.hit_count == found.0
        &&& next.provider_ref@ == found.1
    }

    /// Reads the provider's response. A response with another status than 200 or
    /// 201 is reported by its status alone: its body echoes the search term with
    /// the personal fields filled in.
    pub fn receive(self, reply: Result<HttpResponse, HttpError>) -> (r: Result<
        ScreenedCheck,
        ScreeningFailure,
    >)
        ensures
            match (screened(reply), r) {
                (Ok(found), Ok(next)) => self.received(found, next),
                (Err((log, e)), Err(failure)) => {
                    &&& failure.error@ == e
                    &&& match (log, failure.log) {
                        (Some(expected), Some(line)) => line@ == expected,
                        (None, None) => true,
                        _ => false,
                    }
                },
                _ => false,
            },
    {
        let response = match reply {
            Ok(response) => response,
            Err(e) => return Err(ScreeningFailure { log: None, error: describe(e) }),
        };
        if response.code != 200 && response.code != 201 {
            let code = decimal_text(response.code as u64);
            let mut log = "provider returned HTTP ".to_owned();
            log.append(code.as_str());
            let mut error = "screening provider returned HTTP ".to_owned();
            error.append(code.as_str());
            error.append(" (response body withheld: it echoes the substituted search term)");
            return Err(ScreeningFailure { log: Some(log), error });
        }
        self.conclude(parse_provider_response(response.payload.as_slice()))
    }

    /// Takes over what the response says.
    pub fn conclude(self, finding: Result<(u64, String), String>) -> (r: Result<
        ScreenedCheck,
        ScreeningFailure,
    >)
        ensures
            match (finding, r) {
                (Ok(found), Ok(next)) => self.received((found.0, found.1@), next),
                (Err(e), Err(failure)) => failure.error == e && failure.log is None,
                _ => false,
            },
    {
        match finding {
            Ok((hit_count, provider_ref)) => Ok(
                ScreenedCheck {
                    tenant_did: self.tenant_did,
                    subject_ref: self.subject_ref,
                    check_type: self.check_type,
                    hit_count,
                    provider_ref,
                },
            ),
            Err(error) => Err(ScreeningFailure { log: None, error }),
        }
    }
}

impl ScreenedCheck {
    /// The check with its record.
    pub open spec fn recorded(self, checked_at: u64, seq_no: u64, next: RecordedCheck) -> bool {
        &&& next.audit_map@ == policy::map_name(self.tenant_did@, AUDIT_MAP@)
        &&& next.record.subject_ref@ == self.subject_ref@
        &&& next.record.decision@ == policy::decision(self.hit_count as nat)
        &&& next.record.check_type@ == self.check_type.name()
        &&& next.record.hit_count == self.hit_count
        &&& next.record.checked_at == checked_at
        &&& next.record.seq_no == seq_no
        &&& next.record.provider_ref@ == self.provider_ref@
        &&& next.record.contract_version@ == CONTRACT_VERSION@
    }

    /// Makes the record, with the host's time and sequence number.
    pub fn stamp(self, checked_at: u64, seq_no: u64) -> (r: RecordedCheck)
        ensures
            self.recorded(checked_at, seq_no, r),
    {
        RecordedCheck {
            audit_map: tenant_map(self.tenant_did.as_slice(), AUDIT_MAP),
            record: AuditRecord {
                subject_ref: self.subject_ref,
                decision: decide(self.hit_count).to_owned(),
                check_type: self.check_type.as_str().to_owned(),
                hit_count: self.hit_count,
                checked_at,
                seq_no,
                provider_ref: self.provider_ref,
                contract_version: CONTRACT_VERSION.to_owned(),
            },
        }
    }
}

impl RecordedCheck {
    /// The write of the record `value`.
    pub open spec fn written(self, value: Seq<u8>, next: AuditWrite) -> bool {
        &&& next.map == self.audit_map
        &&& next.key@ == encode_utf8(self.record.subject_ref@)
        &&& next.value@ == value
        &&& next.log@ == self.record.subject_ref@ + ": "@ + self.record.decision@ + " ("@
            + text::decimal(self.record.hit_count as nat) + " hit(s))"@
    }

    /// Takes the bytes of the record, or the reason why there are none.
    pub fn encode(self, encoded: Result<Vec<u8>, String>) -> (r: Result<AuditWrite, String>)
        ensures
            match (encoded, r) {
                (Ok(value), Ok(next)) => self.written(value@, next),
                (Err(reason), Err(e)) => e == reason,
                _ => false,
            },
    {
        let value = match encoded {
            Ok(value) => value,
            Err(reason) => return Err(reason),
        };
        let key = self.record.subject_ref.as_str().as_bytes_vec();
        let mut log = self.record.subject_ref;
        log.append(": ");
        log.append(self.record.decision.as_str());
        log.append(" (");
        log.append(decimal_text(self.record.hit_count).as_str());
        log.append(" hit(s))");
        Ok(AuditWrite { map: self.audit_map, key, value, log })
    }
}

impl AuditWrite {
    /// Ends the check, by what the host says of the write. The reply is what was
    /// stored.
    pub fn finish(self, stored: Result<(), String>) -> (r: Result<CheckReply, String>)
        ensures
            match (stored, r) {
                (Ok(_), Ok(reply)) => reply.output == self.value && reply.log == self.log,
                (Err(reason), Err(e)) => e@ == kv_error("kv write on "@, self.map@, reason@),
                _ => false,
            },
    {
        match stored {
            Ok(_) => Ok(CheckReply { log: self.log, output: self.value }),
            Err(reason) => Err(kv_error_text("kv write on ", self.map.as_str(), reason.as_str())),
        }
    }
}

/// A lookup whose arguments were accepted. The host is to tell the tenant.
#[derive(Debug)]
pub struct ValidLookup {
    pub subject_ref: String,
}

/// A recorded decision that is being read. The host is to get `key` in the map
/// `map`.
#[derive(Debug)]
pub struct AuditRead {
    pub map: String,
    pub key: Vec<u8>,
    pub subject_ref: String,
}

/// Why `get-check` refuses its input, if it does.
pub open spec fn get_refusal(args: Result<SubjectRefArgs, String>) -> Option<Seq<char>> {
    match args {
        Err(reason) => Some(Export::GetCheck.bad_input_text(reason@)),
        Ok(args) => policy::ref_refusal(text::trimmed(args.subject_ref@)),
    }
}

/// Begins to read a decision back, for the caller's arguments or for the reason
/// why the input does not hold them.
pub fn get_check(args: Result<SubjectRefArgs, String>) -> (r: Result<ValidLookup, String>)
    ensures
        match r {
            Ok(lookup) => args is Ok && get_refusal(args) is None && lookup.subject_ref@
                == text::trimmed(args->Ok_0.subject_ref@),
            Err(e) => get_refusal(args) == Some(e@),
        },
{
    let args = match args {
        Ok(args) => args,
        Err(reason) => return Err(Export::GetCheck.bad_input(reason.as_str())),
    };
    match validate_subject_ref(args.subject_ref.as_str()) {
        Ok(subject_ref) => Ok(ValidLookup { subject_ref: subject_ref.to_owned() }),
        Err(e) => Err(e),
    }
}

impl ValidLookup {
    /// Where a tenant's decision is read.
    pub open spec fn looked_up(self, tenant_did: Seq<u8>, read: AuditRead) -> bool {
        &&& read.map@ == policy::map_name(tenant_did, AUDIT_MAP@)
        &&& read.subject_ref == self.subject_ref
        &&& read.key@ == encode_utf8(self.subject_ref@)
    }

    /// Takes the DID of the tenant.
    pub fn for_tenant(self, tenant_did: &[u8]) -> (r: AuditRead)
        ensures
            self.looked_up(tenant_did@, r),
    {
        AuditRead {
            map: tenant_map(tenant_did, AUDIT_MAP),
            key: self.subject_ref.as_str().as_bytes_vec(),
            subject_ref: self.subject_ref,
        }
    }
}

impl AuditRead {
    /// The reply, by what the host read: the stored bytes as they are.
    pub fn reply(self, read: Result<Option<Vec<u8>>, String>) -> (r: Result<Vec<u8>, String>)
        ensures
            match (read, r) {
                (Ok(Some(stored)), Ok(bytes)) => bytes == stored,
                (Ok(None), Err(e)) => e@ == "no screening on record for "@ + self.subject_ref@,
                (Err(reason), Err(e)) => e@ == kv_error("kv read on "@, self.map@, reason@),
                _ => false,
            },
    {
        match read {
            Ok(Some(stored)) => Ok(stored),
            Ok(None) => {
                let mut e = "no screening on record for ".to_owned();
                e.append(self.subject_ref.as_str());
                Err(e)
            },
            Err(reason) => Err(kv_error_text("kv read on ", self.map.as_str(), reason.as_str())),
        }
    }
}

/// A listing whose arguments were accepted. The host is to tell the tenant.
#[derive(Debug)]
pub struct ValidListing {
    pub start: Vec<u8>,
    pub end: Vec<u8>,
    pub limit: u32,
}

/// A scan of the audit map. The host is to scan from `start` to before `end` in
/// the map `map`, for `limit` rows at most.
#[derive(Debug)]
pub struct AuditScan {
    pub map: String,
    pub start: Vec<u8>,
    pub end: Vec<u8>,
    pub limit: u32,
}

/// The listing that `list-checks` is asked for.
pub open spec fn listed(args: ListArgs, listing: ValidListing) -> bool {
    &&& listing.start@ == policy::scan_start(args.start)
    &&& listing.end@ == policy::scan_end(args.end)
    &&& listing.limit == policy::list_limit(args.limit)
}

/// Begins a listing: for the caller's arguments, for everything where there is
/// no input, or for the reason why the input does not hold arguments.
pub fn list_checks(args: Option<Result<ListArgs, String>>) -> (r: Result<ValidListing, String>)
    ensures
        match (args, r) {
            (None, Ok(listing)) => listed(
                (ListArgs { start: None, end: None, limit: None }),
                listing,
            ),
            (Some(Ok(args)), Ok(listing)) => listed(args, listing),
            (Some(Err(reason)), Err(e)) => e@ == Export::ListChecks.bad_input_text(reason@),
            _ => false,
        },
{
    let args = match args {
        None => ListArgs::default(),
        Some(Ok(args)) => args,
        Some(Err(reason)) => return Err(Export::ListChecks.bad_input(reason.as_str())),
    };
    let limit: u32 = normalise_limit(args.limit);
    let (start, end) = scan_bounds(&args);
    Ok(ValidListing { start, end, limit })
}

impl ValidListing {
    /// The scan of a tenant's audit map.
    pub open spec fn scanned(self, tenant_did: Seq<u8>, scan: AuditScan) -> bool {
        &&& scan.map@ == policy::map_name(tenant_did, AUDIT_MAP@)
        &&& scan.start == self.start
        &&& scan.end == self.end
        &&& scan.limit == self.limit
    }

    /// Takes the DID of the tenant.
    pub fn for_tenant(self, tenant_did: &[u8]) -> (r: AuditScan)
        ensures
            self.scanned(tenant_did@, r),
    {
        AuditScan {
            map: tenant_map(tenant_did, AUDIT_MAP),
            start: self.start,
            end: self.end,
            limit: self.limit,
        }
    }
}

/// The records among the values of some rows: those that are JSON.
pub open spec fn records(rows: Seq<(Vec<u8>, Vec<u8>)>) -> Seq<json::JsonView>
    decreases rows.len(),
{
    if rows.len() == 0 {
        Seq::empty()
    } else {
        match json::json_document(rows.last().1@) {
            Ok(record) => records(rows.drop_last()).push(record),
            Err(_) => records(rows.drop_last()),
        }
    }
}

/// Reads the records among the values of some rows. A value that is no JSON is
/// left out.
pub fn read_records(rows: &Vec<(Vec<u8>, Vec<u8>)>) -> (r: Vec<Json>)
    ensures
        json::items_view(r@) == records(rows@),
{
    let mut all: Vec<Json> = Vec::new();
    let mut i: usize = 0;
    assert(rows@.take(0) =~= Seq::empty());
    while i < rows.len()
        invariant
            i <= rows.len(),
            json::items_view(all@) == records(rows@.take(i as int)),
        decreases rows.len() - i,
    {
        assert(rows@.take(i + 1).drop_last() =~= rows@.take(i as int));
        match Json::parse(rows[i].1.as_slice()) {
            Ok(record) => add_item(&mut all, record),
            Err(_) => {},
        }
        i += 1;
    }
    assert(rows@.take(rows.len() as int) =~= rows@);
    all
}

/// Whether `count` rows fill a page of `limit`.
pub open spec fn page_full(count: nat, limit: u32) -> bool {
    count == limit
}

/// The key to resume a listing from.
pub open spec fn resume_key(rows: Seq<(Vec<u8>, Vec<u8>)>, limit: u32) -> Option<Seq<char>> {
    if page_full(rows.len(), limit) && rows.len() > 0 {
        Some(codec::key_text(rows.last().0@))
    } else {
        None
    }
}

/// A page of a listing.
pub open spec fn page(
    records: Seq<json::JsonView>,
    truncated: bool,
    next_start: Option<Seq<char>>,
) -> json::JsonView {
    json::JsonView::Object(
        map![
            "records"@ => json::JsonView::Array(records),
            "count"@ => json::JsonView::Integer(records.len() as int),
            "truncated"@ => json::JsonView::Bool(truncated),
            "next-start"@ => match next_start {
                Some(key) => json::JsonView::Text(key),
                None => json::JsonView::Null,
            },
        ],
    )
}

/// Makes a page of a listing out of its records. `next_start` is the key to
/// resume from.
pub fn list_page(records: Vec<Json>, truncated: bool, next_start: Option<String>) -> (r: Json)
    ensures
        r@ == page(
            json::items_view(records@),
            truncated,
            match next_start {
                Some(key) => Some(key@),
                None => None,
            },
        ),
{
    let count: usize = records.len();
    proof {
        json::lemma_items_view_len(records@);
    }
    let mut members: Vec<(String, Json)> = Vec::new();
    add_member(&mut members, "records", Json::Array(records));
    add_member(&mut members, "count", Json::Unsigned(count as u64));
    add_member(&mut members, "truncated", Json::Bool(truncated));
    let next = match next_start {
        Some(key) => Json::Text(key),
        None => Json::Null,
    };
    add_member(&mut members, "next-start", next);
    Json::Object(members)
}

impl AuditScan {
    /// The page for the rows that the host found.
    pub open spec fn page_of(self, rows: Seq<(Vec<u8>, Vec<u8>)>) -> json::JsonView {
        page(records(rows), page_full(rows.len(), self.limit), resume_key(rows, self.limit))
    }

    /// Makes the page for the rows that the host found, out of the records among
    /// them.
    pub fn page(&self, rows: &Vec<(Vec<u8>, Vec<u8>)>, records: Vec<Json>) -> (r: Json)
        ensures
            r@ == page(
                json::items_view(records@),
                page_full(rows@.len(), self.limit),
                resume_key(rows@, self.limit),
            ),
    {
        let truncated = rows.len() as u64 == self.limit as u64;
        let next_start: Option<String> = if truncated && rows.len() > 0 {
            Some(utf8_text_lossy(rows[rows.len() - 1].0.as_slice()))
        } else {
            None
        };
        list_page(records, truncated, next_start)
    }

    /// The reply, by what the host found. A page that came back full says so and
    /// names the key to resume from: the host's scan keeps no cursor.
    pub fn reply(self, found: Result<Vec<(Vec<u8>, Vec<u8>)>, String>) -> (r: Result<
        Vec<u8>,
        String,
    >)
        ensures
            match (found, r) {
                (Err(reason), Err(e)) => e@ == kv_error("kv scan on "@, self.map@, reason@),
                (Ok(rows), Ok(bytes)) => bytes@ == json::json_bytes(self.page_of(rows@)),
                _ => false,
            },
    {
        let rows = match found {
            Ok(rows) => rows,
            Err(reason) => {
                return Err(kv_error_text("kv scan on ", self.map.as_str(), reason.as_str()));
            },
        };
        self.page(&rows, read_records(&rows)).to_bytes()
    }
}

} // verus!
