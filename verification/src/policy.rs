//! The rules that decide whether a counterparty is cleared. None of them needs
//! a host.
use vstd::prelude::*;
use vstd::string::*;
use vstd::utf8::*;

use crate::codec;
use crate::codec::{hex_encode, quote};
use crate::json;
use crate::json::{add_item, add_member, Json, JsonFloat};
use crate::marker;
use crate::marker::{holds_markers_only, MARKER};
use crate::text;
use crate::text::{chars_of, contains_text, decimal_text, is_white_space, same_text, trim};

verus! {

/// The longest `subject-ref` that is accepted, in bytes. References become keys
/// of a map, and an unbounded key would weigh on every scan of it.
pub const MAX_SUBJECT_REF: usize = 64;

/// The shortest `subject-ref` that is accepted, in bytes.
pub const MIN_SUBJECT_REF: usize = 3;

/// The limit of `list-checks` where the caller gives none. The host refuses a
/// limit of zero.
pub const DEFAULT_LIST_LIMIT: u32 = 100;

/// The ceiling for the limit of `list-checks`.
pub const MAX_LIST_LIMIT: u32 = 1000;

/// The screening provider's host name.
pub const PROVIDER_HOST: &'static str = "api.complyadvantage.com";

/// Where searches are posted.
pub const PROVIDER_URL: &'static str = "https://api.complyadvantage.com/searches";

/// The key of the provider's token in the tenant's secrets map.
pub const SECRET_KEY: &'static str = "onboarding_api_key";

/// The tail of the secrets map's name.
pub const SECRETS_MAP: &'static str = "secrets";

/// The tail of the audit map's name.
pub const AUDIT_MAP: &'static str = "onboarding-audit";

/// What a counterparty is screened for.
#[derive(Debug, Clone, Copy, PartialEq, Eq, Structural)]
pub enum CheckType {
    Sanctions,
    AdverseMedia,
    Pep,
}

/// The check type that a caller names `name`.
pub open spec fn check_type_named(name: Seq<char>) -> Option<CheckType> {
    if name == "sanctions"@ {
        Some(CheckType::Sanctions)
    } else if name == "adverse-media"@ {
        Some(CheckType::AdverseMedia)
    } else if name == "pep"@ {
        Some(CheckType::Pep)
    } else {
        None
    }
}

/// The refusal of a check type that no one knows.
pub open spec fn unknown_check_type(name: Seq<char>) -> Seq<char> {
    "unknown check-type "@ + codec::quoted_text(name)
        + " - expected \"sanctions\", \"adverse-media\" or \"pep\""@
}

impl CheckType {
    /// The name by which a caller asks for the check.
    pub open spec fn name(self) -> Seq<char> {
        match self {
            CheckType::Sanctions => "sanctions"@,
            CheckType::AdverseMedia => "adverse-media"@,
            CheckType::Pep => "pep"@,
        }
    }

    /// The provider's name for the filter.
    pub open spec fn filter(self) -> Seq<char> {
        match self {
            CheckType::Sanctions => "sanction"@,
            CheckType::AdverseMedia => "adverse-media"@,
            CheckType::Pep => "pep"@,
        }
    }

    /// Reads a caller's check type; none means sanctions. An unknown one is an
    /// error, not a fallback: running a narrower check than was asked for is
    /// the worst way to fail here.
    pub fn parse(raw: Option<&str>) -> (r: Result<CheckType, String>)
        ensures
            match raw {
                None => r == Ok::<CheckType, String>(CheckType::Sanctions),
                Some(name) => match (check_type_named(name@), r) {
                    (Some(expected), Ok(t)) => t == expected,
                    (None, Err(e)) => e@ == unknown_check_type(name@),
                    _ => false,
                },
            },
    {
        match raw {
            None => Ok(CheckType::Sanctions),
            Some(name) => {
                if same_text(name, "sanctions") {
                    Ok(CheckType::Sanctions)
                } else if same_text(name, "adverse-media") {
                    Ok(CheckType::AdverseMedia)
                } else if same_text(name, "pep") {
                    Ok(CheckType::Pep)
                } else {
                    let mut e = "unknown check-type ".to_owned();
                    e.append(quote(name).as_str());
                    e.append(" - expected \"sanctions\", \"adverse-media\" or \"pep\"");
                    Err(e)
                }
            },
        }
    }

    /// The provider's name for the filter.
    pub fn provider_filter(self) -> (r: &'static str)
        ensures
            r@ == self.filter(),
    {
        match self {
            CheckType::Sanctions => "sanction",
            CheckType::AdverseMedia => "adverse-media",
            CheckType::Pep => "pep",
        }
    }

    /// The name by which a caller asks for the check.
    pub fn as_str(self) -> (r: &'static str)
        ensures
            r@ == self.name(),
    {
        match self {
            CheckType::Sanctions => "sanctions",
            CheckType::AdverseMedia => "adverse-media",
            CheckType::Pep => "pep",
        }
    }
}

/// The characters of a `subject-ref`.
pub open spec fn ref_char(c: char) -> bool {
    ||| 'a' <= c <= 'z'
    ||| 'A' <= c <= 'Z'
    ||| '0' <= c <= '9'
    ||| c == '-'
    ||| c == '_'
    ||| c == '.'
    ||| c == ':'
}

/// Whether `c` may stand in a `subject-ref`.
fn is_ref_char(c: char) -> (r: bool)
    ensures
        r == ref_char(c),
{
    ('a' <= c && c <= 'z') || ('A' <= c && c <= 'Z') || ('0' <= c && c <= '9') || c == '-' || c
        == '_' || c == '.' || c == ':'
}

/// Whether `s` holds what gives away an email address or a person's name.
pub open spec fn personal(s: Seq<char>) -> bool {
    exists|i: int| 0 <= i < s.len() && (#[trigger] s[i] == '@' || text::white_space(s[i]))
}

/// Whether `s` is as long as a `subject-ref` may be.
pub open spec fn ref_sized(s: Seq<char>) -> bool {
    MIN_SUBJECT_REF <= encode_utf8(s).len() <= MAX_SUBJECT_REF
}

/// Whether `s` is an opaque reference.
pub open spec fn valid_ref(s: Seq<char>) -> bool {
    &&& ref_sized(s)
    &&& forall|i: int| 0 <= i < s.len() ==> ref_char(#[trigger] s[i])
}

/// Why `s`, stripped of the white space around it, is no `subject-ref`, if it
/// is none. The first of the rules that it breaks counts.
pub open spec fn ref_refusal(s: Seq<char>) -> Option<Seq<char>> {
    if !ref_sized(s) {
        Some(
            "subject-ref must be "@ + text::decimal(MIN_SUBJECT_REF as nat) + "-"@ + text::decimal(
                MAX_SUBJECT_REF as nat,
            ) + " characters, got "@ + text::decimal(encode_utf8(s).len()),
        )
    } else if personal(s) {
        Some(PERSONAL_DATA@)
    } else if !valid_ref(s) {
        Some(FOREIGN_CHARACTER@)
    } else {
        None
    }
}

/// The refusal of a reference that looks like an email address or a name.
pub const PERSONAL_DATA: &'static str =
    "subject-ref looks like personal data - pass your own opaque id (e.g. \"vendor-8812\"), not an email or a name";

/// The refusal of a reference with a character outside the allowed ones.
pub const FOREIGN_CHARACTER: &'static str =
    "subject-ref may contain only ASCII letters, digits, '-', '_', '.' and ':'";

/// Accepts a caller's opaque handle for a counterparty, without the white space
/// around it.
///
/// The reference is a key of the audit map and goes to the provider, so it must
/// not be personal data: an `@` or white space within is refused, which stops
/// raw emails and human names without guessing.
pub fn validate_subject_ref(raw: &str) -> (r: Result<&str, String>)
    ensures
        match r {
            Ok(s) => s@ == text::trimmed(raw@) && ref_refusal(text::trimmed(raw@)) is None,
            Err(e) => ref_refusal(text::trimmed(raw@)) == Some(e@),
        },
{
    let s = trim(raw);
    let size: usize = s.as_bytes().len();
    if size < MIN_SUBJECT_REF || size > MAX_SUBJECT_REF {
        let mut e = "subject-ref must be ".to_owned();
        e.append(decimal_text(MIN_SUBJECT_REF as u64).as_str());
        e.append("-");
        e.append(decimal_text(MAX_SUBJECT_REF as u64).as_str());
        e.append(" characters, got ");
        e.append(decimal_text(size as u64).as_str());
        return Err(e);
    }
    let chars = chars_of(s);
    let mut i: usize = 0;
    while i < chars.len()
        invariant
            chars@ == s@,
            s@ == text::trimmed(raw@),
            ref_sized(s@),
            i <= chars.len(),
            forall|k: int| 0 <= k < i ==> s@[k] != '@' && !text::white_space(#[trigger] s@[k]),
        decreases chars.len() - i,
    {
        if chars[i] == '@' || is_white_space(chars[i]) {
            assert(s@[i as int] == '@' || text::white_space(s@[i as int]));
            return Err(PERSONAL_DATA.to_owned());
        }
        i += 1;
    }
    i = 0;
    while i < chars.len()
        invariant
            chars@ == s@,
            s@ == text::trimmed(raw@),
            ref_sized(s@),
            !personal(s@),
            i <= chars.len(),
            forall|k: int| 0 <= k < i ==> ref_char(#[trigger] s@[k]),
        decreases chars.len() - i,
    {
        if !is_ref_char(chars[i]) {
            assert(!ref_char(s@[i as int]));
            return Err(FOREIGN_CHARACTER.to_owned());
        }
        i += 1;
    }
    Ok(s)
}

/// The bits of the double zero with its sign set.
pub const SIGN: u64 = 0x8000_0000_0000_0000;

/// The bits of positive infinity.
pub const INFINITY: u64 = 0x7ff0_0000_0000_0000;

/// The bits of the double one.
pub const ONE: u64 = 0x3ff0_0000_0000_0000;

/// The bits of the double that is nearest to `0.85`.
pub const DEFAULT_THRESHOLD: u64 = 0x3feb_3333_3333_3333;

/// The bits of the double that is nearest to `0.6`.
pub const FUZZINESS: u64 = 0x3fe3_3333_3333_3333;

/// The place of a double among the doubles, by its bits: it grows with the
/// number, and both zeros are at zero.
pub open spec fn rank(bits: u64) -> int {
    if bits < SIGN {
        bits as int
    } else {
        SIGN - bits
    }
}

/// Whether the bits are those of a finite double, no infinity and no NaN.
pub open spec fn finite(bits: u64) -> bool {
    -INFINITY < rank(bits) < INFINITY
}

/// The bits without the sign.
fn magnitude(bits: u64) -> (r: u64)
    ensures
        r == (if bits < SIGN {
            bits as int
        } else {
            bits - SIGN
        }),
{
    if bits >= SIGN {
        bits - SIGN
    } else {
        bits
    }
}

/// Whether `text` denotes the double with the bits `bits`; where that is not
/// finite, whether `text` denotes no finite double either.
pub open spec fn denotes(text: Seq<char>, bits: u64) -> bool {
    json::double_bits(text) == (if finite(bits) {
        Some(bits)
    } else {
        None
    })
}

/// A match score threshold, which is a double: its IEEE 754 bits, by which it is
/// compared, and the number that is written for it, if it is finite.
#[derive(Debug)]
pub struct Threshold {
    bits: u64,
    number: Option<JsonFloat>,
}

impl View for Threshold {
    type V = u64;

    /// The bits of the double.
    closed spec fn view(&self) -> u64 {
        self.bits
    }
}

impl Threshold {
    #[verifier::type_invariant]
    spec fn one_double(self) -> bool {
        match self.number {
            Some(x) => finite(self.bits) && x@ == self.bits,
            None => !finite(self.bits),
        }
    }

    /// The double with the bits `bits`, which `text` is to denote. Without that
    /// there is none.
    pub fn new(bits: u64, text: &str) -> (r: Option<Threshold>)
        ensures
            match r {
                Some(t) => t@ == bits && denotes(text@, bits),
                None => !denotes(text@, bits),
            },
    {
        let finite = magnitude(bits) < INFINITY;
        match JsonFloat::parse(text) {
            Some(x) => if finite && x.bits() == bits {
                Some(Threshold { bits, number: Some(x) })
            } else {
                None
            },
            None => if finite {
                None
            } else {
                Some(Threshold { bits, number: None })
            },
        }
    }

    /// The bits of the double.
    pub fn bits(&self) -> (r: u64)
        ensures
            r == self@,
    {
        self.bits
    }
}

/// The threshold that stands for `raw`: held between zero and one where it is
/// finite, the default where it is not or where there is none.
pub open spec fn normal_threshold(raw: Option<u64>) -> u64 {
    match raw {
        Some(bits) => if !finite(bits) {
            DEFAULT_THRESHOLD
        } else if rank(bits) < 0 {
            0
        } else if rank(bits) > rank(ONE) {
            ONE
        } else {
            bits
        },
        None => DEFAULT_THRESHOLD,
    }
}

/// The bits of the double that a caller asks for, if any.
pub open spec fn asked_bits(raw: Option<Threshold>) -> Option<u64> {
    match raw {
        Some(t) => Some(t@),
        None => None,
    }
}

/// The match score above which a hit is worth a human's time. It is clamped and
/// not refused: a caller that passes 1.4 means "be strict".
pub fn normalise_threshold(raw: Option<Threshold>) -> (r: Threshold)
    ensures
        r@ == normal_threshold(asked_bits(raw)),
{
    match raw {
        Some(t) => {
            let size: u64 = magnitude(t.bits);
            if size >= INFINITY {
                Threshold { bits: DEFAULT_THRESHOLD, number: JsonFloat::parse("0.85") }
            } else if t.bits > SIGN {
                Threshold { bits: 0, number: JsonFloat::parse("0") }
            } else if size > ONE {
                Threshold { bits: ONE, number: JsonFloat::parse("1") }
            } else {
                t
            }
        },
        None => Threshold { bits: DEFAULT_THRESHOLD, number: JsonFloat::parse("0.85") },
    }
}

/// The limit that stands for `raw`.
pub open spec fn list_limit(raw: Option<u32>) -> u32 {
    match raw {
        None => DEFAULT_LIST_LIMIT,
        Some(v) => if v == 0 {
            DEFAULT_LIST_LIMIT
        } else if v > MAX_LIST_LIMIT {
            MAX_LIST_LIMIT
        } else {
            v
        },
    }
}

/// The limit of `list-checks`, never zero and never above the ceiling.
pub fn normalise_limit(raw: Option<u32>) -> (r: u32)
    ensures
        r == list_limit(raw),
{
    match raw {
        None => DEFAULT_LIST_LIMIT,
        Some(v) => if v == 0 {
            DEFAULT_LIST_LIMIT
        } else if v > MAX_LIST_LIMIT {
            MAX_LIST_LIMIT
        } else {
            v
        },
    }
}

/// The decision on `hits` matches.
pub open spec fn decision(hits: nat) -> Seq<char> {
    if hits == 0 {
        "clear"@
    } else {
        "review"@
    }
}

/// Decides on a number of matches. Only none at all clears; anything else goes
/// to a human, and nothing is ever rejected here.
pub fn decide(hit_count: u64) -> (r: &'static str)
    ensures
        r@ == decision(hit_count as nat),
{
    if hit_count == 0 {
        "clear"
    } else {
        "review"
    }
}

/// The template of the search term.
pub const SEARCH_TERM: &'static str = "{{profile.first_name}} {{profile.last_name}}";

/// The template of the birth year.
pub const BIRTH_YEAR: &'static str = "{{profile.date_of_birth}}";

/// The JSON number of a double; there is none of one that is not finite.
pub open spec fn double_view(bits: u64) -> json::JsonView {
    if finite(bits) {
        json::JsonView::Float(bits)
    } else {
        json::JsonView::Null
    }
}

/// The body of a search for `subject_ref`, with the threshold by its bits.
pub open spec fn search_body(
    subject_ref: Seq<char>,
    check_type: CheckType,
    threshold: u64,
) -> json::JsonView {
    json::JsonView::Object(
        map![
            "search_term"@ => json::JsonView::Text(SEARCH_TERM@),
            "client_ref"@ => json::JsonView::Text(subject_ref),
            "score_threshold"@ => double_view(threshold),
            "fuzziness"@ => json::JsonView::Float(FUZZINESS),
            "share_url"@ => json::JsonView::Bool(false),
            "filters"@ => json::JsonView::Object(map![
                "types"@ => json::JsonView::Array(seq![json::JsonView::Text(check_type.filter())]),
                "birth_year"@ => json::JsonView::Text(BIRTH_YEAR@),
            ]),
        ],
    )
}

/// Builds the body of a search.
///
/// The personal fields are `{{profile.<field>}}` markers and not values: nothing
/// here could obtain the values. The host puts them in when it dispatches the
/// request. The markers are flat and in snake case, for the host refuses others.
pub fn build_search_body(subject_ref: &str, check_type: CheckType, threshold: Threshold) -> (r:
    Json)
    ensures
        r@ == search_body(subject_ref@, check_type, threshold@),
{
    proof {
        use_type_invariant(&threshold);
    }
    let score = match threshold.number {
        Some(x) => Json::Float(x),
        None => Json::Null,
    };
    let fuzziness = JsonFloat::parse("0.6").unwrap();
    let mut types: Vec<Json> = Vec::new();
    add_item(&mut types, Json::Text(check_type.provider_filter().to_owned()));
    assert(json::items_view(types@) =~= seq![json::JsonView::Text(check_type.filter())]);
    let mut filters: Vec<(String, Json)> = Vec::new();
    add_member(&mut filters, "types", Json::Array(types));
    add_member(&mut filters, "birth_year", Json::Text(BIRTH_YEAR.to_owned()));
    let mut body: Vec<(String, Json)> = Vec::new();
    add_member(&mut body, "search_term", Json::Text(SEARCH_TERM.to_owned()));
    add_member(&mut body, "client_ref", Json::Text(subject_ref.to_owned()));
    add_member(&mut body, "score_threshold", score);
    add_member(&mut body, "fuzziness", Json::Float(fuzziness));
    add_member(&mut body, "share_url", Json::Bool(false));
    add_member(&mut body, "filters", Json::Object(filters));
    Json::Object(body)
}

/// What begins the refusal of a provider response that is no JSON.
pub const NOT_JSON: &'static str = "provider response was not JSON: ";

/// The refusal of a provider response without its data.
pub const MISSING_DATA: &'static str = "provider response missing content.data";

/// The refusal of a provider response without a hit count.
pub const MISSING_HITS: &'static str =
    "provider response missing content.data.total_hits - refusing to assume zero";

/// The member `content.data` of a provider response.
pub open spec fn response_data(response: json::JsonView) -> Option<json::JsonView> {
    match json::member_of(response, "content"@) {
        Some(content) => json::member_of(content, "data"@),
        None => None,
    }
}

/// The hit count in the data of a provider response.
pub open spec fn total_hits(data: json::JsonView) -> Option<u64> {
    match json::member_of(data, "total_hits"@) {
        Some(hits) => json::unsigned_of(hits),
        None => None,
    }
}

/// The provider's search id in the data of its response: a string as it is,
/// anything else as JSON prints it.
pub open spec fn search_id(data: json::JsonView) -> Seq<char> {
    match json::member_of(data, "id"@) {
        Some(id) => match json::text_of(id) {
            Some(s) => s,
            None => json::json_text(id),
        },
        None => "unknown"@,
    }
}

/// What a provider response says: the hit count and the search id, or why it
/// cannot be relied on.
pub open spec fn finding(response: json::JsonView) -> Result<(u64, Seq<char>), Seq<char>> {
    match response_data(response) {
        Some(data) => match total_hits(data) {
            Some(hits) => Ok((hits, search_id(data))),
            None => Err(MISSING_HITS@),
        },
        None => Err(MISSING_DATA@),
    }
}

/// What the bytes of a provider response say.
pub open spec fn payload_finding(body: Seq<u8>) -> Result<(u64, Seq<char>), Seq<char>> {
    match json::json_document(body) {
        Ok(response) => finding(response),
        Err(e) => Err(NOT_JSON@ + e),
    }
}

/// A finding with its texts as characters.
pub open spec fn finding_view(r: Result<(u64, String), String>) -> Result<
    (u64, Seq<char>),
    Seq<char>,
> {
    match r {
        Ok((hits, id)) => Ok((hits, id@)),
        Err(e) => Err(e@),
    }
}

/// Reads the hit count and the search id out of a provider response.
///
/// A missing hit count is an error and not a zero: taking an unexpected response
/// for "no hits" would clear a counterparty on a provider outage.
pub fn read_provider_response(response: &Json) -> (r: Result<(u64, String), String>)
    ensures
        finding_view(r) == finding(response@),
{
    let content = match response.get("content") {
        Some(content) => content,
        None => return Err(MISSING_DATA.to_owned()),
    };
    let data = match content.get("data") {
        Some(data) => data,
        None => return Err(MISSING_DATA.to_owned()),
    };
    let hits = match data.get("total_hits") {
        Some(hits) => hits.as_u64(),
        None => None,
    };
    let hit_count: u64 = match hits {
        Some(n) => n,
        None => return Err(MISSING_HITS.to_owned()),
    };
    let provider_ref = match data.get("id") {
        Some(id) => match id.as_str() {
            Some(s) => s.to_owned(),
            None => id.to_text(),
        },
        None => "unknown".to_owned(),
    };
    Ok((hit_count, provider_ref))
}

/// Reads the hit count and the search id out of the bytes of a provider
/// response.
pub fn parse_provider_response(body: &[u8]) -> (r: Result<(u64, String), String>)
    ensures
        finding_view(r) == payload_finding(body@),
{
    match Json::parse(body) {
        Ok(response) => read_provider_response(&response),
        Err(reason) => {
            let mut e = NOT_JSON.to_owned();
            e.append(reason.as_str());
            Err(e)
        },
    }
}

/// The refusal of a body whose search term holds no marker.
pub const LITERAL_PII: &'static str =
    "refusing to dispatch: search_term does not contain a profile placeholder, which would mean subject PII was assembled inside WASM";

/// The refusal of a body whose search term holds more than markers.
pub const LITERAL_BESIDE_MARKER: &'static str =
    "refusing to dispatch: search_term contains a literal beside its profile placeholders, which would mean subject PII was assembled inside WASM";

/// The refusal of a body whose birth year is no template.
pub const LITERAL_BIRTH_YEAR: &'static str =
    "refusing to dispatch: filters.birth_year is not made of profile placeholders, which would mean subject PII was assembled inside WASM";

/// The member `search_term` of a search body.
pub open spec fn search_term(body: json::JsonView) -> Option<json::JsonView> {
    json::member_of(body, "search_term"@)
}

/// The member `filters.birth_year` of a search body.
pub open spec fn birth_year(body: json::JsonView) -> Option<json::JsonView> {
    match json::member_of(body, "filters"@) {
        Some(filters) => json::member_of(filters, "birth_year"@),
        None => None,
    }
}

/// Whether `field` is a string with a profile marker in it.
pub open spec fn marked(field: json::JsonView) -> bool {
    match json::text_of(field) {
        Some(s) => text::has_text(s, MARKER@),
        None => false,
    }
}

/// Whether `field` is a string with a profile marker in it, and with nothing but
/// markers and white space.
pub open spec fn template_field(field: json::JsonView) -> bool {
    match json::text_of(field) {
        Some(s) => marker::template(s),
        None => false,
    }
}

/// Whether no literal stands in a field of `body` that is templated: the search
/// term is there and is a template, and so is the birth year where there is one.
pub open spec fn templated(body: json::JsonView) -> bool {
    &&& search_term(body) matches Some(term) && template_field(term)
    &&& birth_year(body) matches Some(year) ==> template_field(year)
}

/// Why a body that is not templated is refused.
pub open spec fn literal_refusal(body: json::JsonView) -> Seq<char> {
    match search_term(body) {
        Some(term) => if !marked(term) {
            LITERAL_PII@
        } else if !template_field(term) {
            LITERAL_BESIDE_MARKER@
        } else {
            LITERAL_BIRTH_YEAR@
        },
        None => LITERAL_PII@,
    }
}

/// Whether a field is marked, and whether it is a template.
fn inspect_field(field: &Json) -> (r: (bool, bool))
    ensures
        r.0 == marked(field@),
        r.1 == template_field(field@),
{
    match field.as_str() {
        Some(s) => {
            let has_marker = contains_text(s, MARKER);
            (has_marker, has_marker && holds_markers_only(s))
        },
        None => (false, false),
    }
}

/// Refuses a body in which a literal stands in a field that is templated: in the
/// search term or, where there is one, in the birth year. Markers and white space
/// may stand there and nothing else.
///
/// Called right before dispatch: it fails closed. The refusal does not tell what
/// the field holds.
pub fn assert_no_literal_pii(body: &Json) -> (r: Result<(), String>)
    ensures
        match r {
            Ok(_) => templated(body@),
            Err(e) => !templated(body@) && e@ == literal_refusal(body@),
        },
{
    let (has_marker, is_template) = match body.get("search_term") {
        Some(term) => inspect_field(term),
        None => (false, false),
    };
    if !has_marker {
        return Err(LITERAL_PII.to_owned());
    }
    if !is_template {
        return Err(LITERAL_BESIDE_MARKER.to_owned());
    }
    let year = match body.get("filters") {
        Some(filters) => filters.get("birth_year"),
        None => None,
    };
    match year {
        Some(field) => {
            let (_, is_template) = inspect_field(field);
            if is_template {
                Ok(())
            } else {
                Err(LITERAL_BIRTH_YEAR.to_owned())
            }
        },
        None => Ok(()),
    }
}

/// The full name `z:<tenant>:<tail>` of a tenant's map, with the tenant's DID in
/// hexadecimal.
pub open spec fn map_name(tenant_did: Seq<u8>, tail: Seq<char>) -> Seq<char> {
    "z:"@ + codec::hex_of(tenant_did) + ":"@ + tail
}

/// The full name of a tenant's map. The DID comes as raw bytes and stands in the
/// name in hexadecimal.
pub fn qualified_map_name(tenant_did: &[u8], tail: &str) -> (r: String)
    ensures
        r@ == map_name(tenant_did@, tail@),
{
    let mut name = "z:".to_owned();
    name.append(hex_encode(tenant_did).as_str());
    name.append(":");
    name.append(tail);
    name
}

/// The arguments of `run-check`.
#[derive(Debug)]
pub struct RunCheckArgs {
    pub subject_ref: String,
    pub check_type: Option<String>,
    pub score_threshold: Option<Threshold>,
}

/// The arguments of `get-check`.
#[derive(Debug)]
pub struct SubjectRefArgs {
    pub subject_ref: String,
}

/// The arguments of `list-checks`.
#[derive(Debug)]
pub struct ListArgs {
    pub start: Option<String>,
    pub end: Option<String>,
    pub limit: Option<u32>,
}

impl Default for ListArgs {
    /// From the start, to the end, with the usual limit.
    fn default() -> (r: ListArgs)
        ensures
            r.start is None,
            r.end is None,
            r.limit is None,
    {
        ListArgs { start: None, end: None, limit: None }
    }
}

/// What is written to the audit map and handed back to the caller: opaque ids,
/// counts and timestamps, so that a decision can go to an auditor as it is.
#[derive(Debug, Clone, PartialEq)]
pub struct AuditRecord {
    pub subject_ref: String,
    pub decision: String,
    pub check_type: String,
    pub hit_count: u64,
    pub checked_at: u64,
    pub seq_no: u64,
    /// The provider's own search id, by which an auditor finds the matches with
    /// the provider.
    pub provider_ref: String,
    pub contract_version: String,
}

/// The first key of a scan.
pub open spec fn scan_start(start: Option<String>) -> Seq<u8> {
    match start {
        Some(s) => encode_utf8(s@),
        None => Seq::empty(),
    }
}

/// The key before which a scan ends; without one, eight bytes that no key of
/// text reaches.
pub open spec fn scan_end(end: Option<String>) -> Seq<u8> {
    match end {
        Some(s) => encode_utf8(s@),
        None => Seq::new(8, |i: int| 0xffu8),
    }
}

/// The half-open bounds of a scan of the audit map.
pub fn scan_bounds(args: &ListArgs) -> (r: (Vec<u8>, Vec<u8>))
    ensures
        r.0@ == scan_start(args.start),
        r.1@ == scan_end(args.end),
{
    let start = match &args.start {
        Some(s) => s.as_str().as_bytes_vec(),
        None => Vec::new(),
    };
    let end = match &args.end {
        Some(s) => s.as_str().as_bytes_vec(),
        None => vec![0xffu8; 8],
    };
    (start, end)
}

} // verus!
