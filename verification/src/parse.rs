use vstd::prelude::*;
use vstd::string::StringSliceAdditionalSpecFns;
use crate::canonical::bytes_eq;
use crate::canonical::copy_range;
use crate::interaction::opt_bytes_view;
use crate::interaction::Interaction;
use crate::interaction::InteractionModel;
use crate::interaction::ParseError;

verus! {

// The interaction record travels as one JSON object whose members are
// exactly the record's fields. The grammar accepted here is that object
// form: the known keys in any order, each at most once, string values taken
// verbatim between their quotes (a string holding a quote, a backslash or a
// control byte is not accepted), numbers as plain decimal digits without a
// leading zero, and `null` for an absent optional field. Anything else is a
// malformed shape and parsing rejects it.

/// JSON insignificant whitespace.
pub open spec fn is_ws(b: u8) -> bool {
    b == 32 || b == 9 || b == 10 || b == 13
}

/// An ASCII decimal digit.
pub open spec fn is_digit(b: u8) -> bool {
    48 <= b <= 57
}

/// The first position at or after `i` holding a non-whitespace byte, or the
/// end of the input.
pub open spec fn skip_ws(s: Seq<u8>, i: int) -> int
    decreases s.len() - i,
{
    if i < s.len() && is_ws(s[i]) {
        skip_ws(s, i + 1)
    } else {
        i
    }
}

proof fn lemma_skip_ws_bounds(s: Seq<u8>, i: int)
    requires
        0 <= i <= s.len(),
    ensures
        i <= skip_ws(s, i) <= s.len(),
    decreases s.len() - i,
{
    if i < s.len() && is_ws(s[i]) {
        lemma_skip_ws_bounds(s, i + 1);
    }
}

/// The first position at or after `i` where a string body ends: a quote, a
/// backslash or a control byte, or the end of the input.
pub open spec fn string_end(s: Seq<u8>, i: int) -> int
    decreases s.len() - i,
{
    if i < s.len() && s[i] != 34 && s[i] != 92 && s[i] >= 32 {
        string_end(s, i + 1)
    } else {
        i
    }
}

proof fn lemma_string_end_bounds(s: Seq<u8>, i: int)
    requires
        0 <= i <= s.len(),
    ensures
        i <= string_end(s, i) <= s.len(),
    decreases s.len() - i,
{
    if i < s.len() && s[i] != 34 && s[i] != 92 && s[i] >= 32 {
        lemma_string_end_bounds(s, i + 1);
    }
}

/// A JSON string at position `i`: an opening quote, a body free of quotes,
/// backslashes and control bytes, and a closing quote. Yields the body and
/// the position after the closing quote.
pub open spec fn parse_string(s: Seq<u8>, i: int) -> Option<(Seq<u8>, int)> {
    if 0 <= i < s.len() && s[i] == 34 {
        let j = string_end(s, i + 1);
        if j < s.len() && s[j] == 34 {
            Some((s.subrange(i + 1, j), j + 1))
        } else {
            None
        }
    } else {
        None
    }
}

/// The first position at or after `i` holding a non-digit byte, or the end
/// of the input.
pub open spec fn digits_end(s: Seq<u8>, i: int) -> int
    decreases s.len() - i,
{
    if i < s.len() && is_digit(s[i]) {
        digits_end(s, i + 1)
    } else {
        i
    }
}

proof fn lemma_digits_end_bounds(s: Seq<u8>, i: int)
    requires
        0 <= i <= s.len(),
    ensures
        i <= digits_end(s, i) <= s.len(),
        forall|k: int| i <= k < digits_end(s, i) ==> is_digit(#[trigger] s[k]),
    decreases s.len() - i,
{
    if i < s.len() && is_digit(s[i]) {
        lemma_digits_end_bounds(s, i + 1);
    }
}

/// The value of the decimal digits `s[i..j]`, most significant first.
pub open spec fn digits_value(s: Seq<u8>, i: int, j: int) -> int
    decreases j - i,
{
    if i < j {
        digits_value(s, i, j - 1) * 10 + (s[j - 1] - 48)
    } else {
        0
    }
}

proof fn lemma_digits_value_lower(s: Seq<u8>, i: int, j: int)
    requires
        0 <= i < j <= s.len(),
        forall|k: int| i <= k < j ==> is_digit(#[trigger] s[k]),
        s[i] != 48,
    ensures
        digits_value(s, i, j) >= 1,
        j - i >= 2 ==> digits_value(s, i, j) >= 10,
        j - i >= 3 ==> digits_value(s, i, j) >= 100,
        j - i >= 4 ==> digits_value(s, i, j) >= 1000,
    decreases j - i,
{
    if i < j - 1 {
        lemma_digits_value_lower(s, i, j - 1);
    } else {
        assert(digits_value(s, i, i) == 0);
        assert(digits_value(s, i, j) == s[i] - 48);
    }
}

/// A JSON integer at position `i` that fits in a byte: one to three decimal
/// digits, no sign, no leading zero. Yields the value and the position after
/// the digits.
pub open spec fn parse_u8(s: Seq<u8>, i: int) -> Option<(u8, int)> {
    let j = digits_end(s, i);
    if !(0 <= i < s.len()) || j == i {
        None
    } else if s[i] == 48 && j > i + 1 {
        None
    } else if digits_value(s, i, j) > 255 {
        None
    } else {
        Some((digits_value(s, i, j) as u8, j))
    }
}

/// Whether the four bytes of `null` stand at position `i`.
pub open spec fn is_null_at(s: Seq<u8>, i: int) -> bool {
    0 <= i && i + 4 <= s.len() && s[i] == 110 && s[i + 1] == 117 && s[i + 2] == 108 && s[i + 3]
        == 108
}

/// An optional string value: `null` for an absent value, else a JSON string.
pub open spec fn parse_opt_string(s: Seq<u8>, i: int) -> Option<(Option<Seq<u8>>, int)> {
    if is_null_at(s, i) {
        Some((None, i + 4))
    } else {
        match parse_string(s, i) {
            Some(r) => Some((Some(r.0), r.1)),
            None => None,
        }
    }
}

/// The record's fields while the object is being read: each is present or
/// not yet seen; an optional field that was seen may still hold `null`.
pub struct PartialModel {
    pub id: Option<Seq<u8>>,
    pub application_id: Option<Seq<u8>>,
    pub command_type: Option<u8>,
    pub guild_id: Option<Option<Seq<u8>>>,
    pub channel_id: Option<Option<Seq<u8>>>,
    pub token: Option<Seq<u8>>,
    pub version: Option<u8>,
    pub message: Option<Option<Seq<u8>>>,
}

/// How many fields are not yet seen.
pub open spec fn unset_count(m: PartialModel) -> int {
    (if m.id is None { 1int } else { 0 }) + (if m.application_id is None { 1int } else { 0 }) + (
    if m.command_type is None { 1int } else { 0 }) + (if m.guild_id is None { 1int } else { 0 })
        + (if m.channel_id is None { 1int } else { 0 }) + (if m.token is None { 1int } else { 0 })
        + (if m.version is None { 1int } else { 0 }) + (if m.message is None { 1int } else { 0 })
}

/// No field seen yet.
pub open spec fn empty_partial() -> PartialModel {
    PartialModel {
        id: None,
        application_id: None,
        command_type: None,
        guild_id: None,
        channel_id: None,
        token: None,
        version: None,
        message: None,
    }
}

/// One member's value, at position `i`, under the member's key: a known key
/// not seen before, with the value form that the field asks for. A key
/// already seen, an unknown key, or a value of the wrong form rejects the
/// body.
pub open spec fn parse_member_value(s: Seq<u8>, i: int, m: PartialModel, key: Seq<u8>) -> Option<
    (PartialModel, int),
> {
    if key == ("id").spec_bytes() {
        if m.id is None {
            match parse_string(s, i) {
                Some(r) => Some((PartialModel { id: Some(r.0), ..m }, r.1)),
                None => None,
            }
        } else {
            None
        }
    } else if key == ("application_id").spec_bytes() {
        if m.application_id is None {
            match parse_string(s, i) {
                Some(r) => Some((PartialModel { application_id: Some(r.0), ..m }, r.1)),
                None => None,
            }
        } else {
            None
        }
    } else if key == ("type").spec_bytes() {
        if m.command_type is None {
            match parse_u8(s, i) {
                Some(r) => Some((PartialModel { command_type: Some(r.0), ..m }, r.1)),
                None => None,
            }
        } else {
            None
        }
    } else if key == ("guild_id").spec_bytes() {
        if m.guild_id is None {
            match parse_opt_string(s, i) {
                Some(r) => Some((PartialModel { guild_id: Some(r.0), ..m }, r.1)),
                None => None,
            }
        } else {
            None
        }
    } else if key == ("channel_id").spec_bytes() {
        if m.channel_id is None {
            match parse_opt_string(s, i) {
                Some(r) => Some((PartialModel { channel_id: Some(r.0), ..m }, r.1)),
                None => None,
            }
        } else {
            None
        }
    } else if key == ("token").spec_bytes() {
        if m.token is None {
            match parse_string(s, i) {
                Some(r) => Some((PartialModel { token: Some(r.0), ..m }, r.1)),
                None => None,
            }
        } else {
            None
        }
    } else if key == ("version").spec_bytes() {
        if m.version is None {
            match parse_u8(s, i) {
                Some(r) => Some((PartialModel { version: Some(r.0), ..m }, r.1)),
                None => None,
            }
        } else {
            None
        }
    } else if key == ("message").spec_bytes() {
        if m.message is None {
            match parse_opt_string(s, i) {
                Some(r) => Some((PartialModel { message: Some(r.0), ..m }, r.1)),
                None => None,
            }
        } else {
            None
        }
    } else {
        None
    }
}

/// The members of the object from position `i` to its closing brace. On the
/// first member the object may instead close at once. Yields the fields and
/// the position after the brace.
pub open spec fn parse_members(s: Seq<u8>, i: int, m: PartialModel, first: bool) -> Option<
    (PartialModel, int),
>
    decreases unset_count(m),
{
    let j = skip_ws(s, i);
    if first && j < s.len() && s[j] == 125 {  // '}'
        Some((m, j + 1))
    } else {
        match parse_string(s, j) {
            Some(kr) => {
                let q = skip_ws(s, kr.1);
                if q < s.len() && s[q] == 58 {  // ':'
                    let r = skip_ws(s, q + 1);
                    match parse_member_value(s, r, m, kr.0) {
                        Some(vr) => {
                            let t = skip_ws(s, vr.1);
                            if t < s.len() && s[t] == 125 {
                                Some((vr.0, t + 1))
                            } else if t < s.len() && s[t] == 44 {  // ','
                                parse_members(s, t + 1, vr.0, false)
                            } else {
                                None
                            }
                        },
                        None => None,
                    }
                } else {
                    None
                }
            },
            None => None,
        }
    }
}

/// The finished record, once every required field has been seen; an optional
/// field that was never seen, or was `null`, is absent.
pub open spec fn finalize(m: PartialModel) -> Option<InteractionModel> {
    if m.id is Some && m.application_id is Some && m.command_type is Some && m.token is Some
        && m.version is Some {
        Some(
            InteractionModel {
                id: m.id.unwrap(),
                application_id: m.application_id.unwrap(),
                command_type: m.command_type.unwrap(),
                guild_id: match m.guild_id {
                    Some(g) => g,
                    None => None,
                },
                channel_id: match m.channel_id {
                    Some(c) => c,
                    None => None,
                },
                token: m.token.unwrap(),
                version: m.version.unwrap(),
                message: match m.message {
                    Some(x) => x,
                    None => None,
                },
            },
        )
    } else {
        None
    }
}

/// What decoding a request body yields: the interaction record its object
/// form describes, or nothing when the body has any other shape. The whole
/// input must be consumed, up to trailing whitespace.
pub open spec fn parse_interaction(s: Seq<u8>) -> Option<InteractionModel> {
    let i = skip_ws(s, 0);
    if i < s.len() && s[i] == 123 {  // '{'
        match parse_members(s, i + 1, empty_partial(), true) {
            Some(mr) => if skip_ws(s, mr.1) == s.len() {
                finalize(mr.0)
            } else {
                None
            },
            None => None,
        }
    } else {
        None
    }
}

/// JSON insignificant whitespace.
fn is_ws_byte(b: u8) -> (r: bool)
    ensures
        r == is_ws(b),
{
    b == 32 || b == 9 || b == 10 || b == 13
}

/// Scans past whitespace from `i`.
fn skip_ws_exec(s: &[u8], i: usize) -> (j: usize)
    requires
        i <= s@.len(),
    ensures
        j as int == skip_ws(s@, i as int),
        i <= j <= s@.len(),
{
    let mut k: usize = i;
    while k < s.len() && is_ws_byte(s[k])
        invariant
            i <= k <= s@.len(),
            skip_ws(s@, i as int) == skip_ws(s@, k as int),
        decreases s@.len() - k,
    {
        k = k + 1;
    }
    proof {
        lemma_skip_ws_bounds(s@, i as int);
    }
    k
}

/// Scans to the end of a string body from `i`.
fn string_end_exec(s: &[u8], i: usize) -> (j: usize)
    requires
        i <= s@.len(),
    ensures
        j as int == string_end(s@, i as int),
        i <= j <= s@.len(),
{
    let mut k: usize = i;
    while k < s.len() && s[k] != 34 && s[k] != 92 && s[k] >= 32
        invariant
            i <= k <= s@.len(),
            string_end(s@, i as int) == string_end(s@, k as int),
        decreases s@.len() - k,
    {
        k = k + 1;
    }
    proof {
        lemma_string_end_bounds(s@, i as int);
    }
    k
}

/// Scans past decimal digits from `i`.
fn digits_end_exec(s: &[u8], i: usize) -> (j: usize)
    requires
        i <= s@.len(),
    ensures
        j as int == digits_end(s@, i as int),
        i <= j <= s@.len(),
        forall|k: int| i <= k < j ==> is_digit(#[trigger] s@[k]),
{
    let mut k: usize = i;
    while k < s.len() && 48 <= s[k] && s[k] <= 57
        invariant
            i <= k <= s@.len(),
            digits_end(s@, i as int) == digits_end(s@, k as int),
        decreases s@.len() - k,
    {
        k = k + 1;
    }
    proof {
        lemma_digits_end_bounds(s@, i as int);
    }
    k
}

/// Reads a JSON string at `i`.
fn parse_string_exec(s: &[u8], i: usize) -> (r: Option<(Vec<u8>, usize)>)
    requires
        i <= s@.len(),
    ensures
        match r {
            Some(p) => parse_string(s@, i as int) == Some((p.0@, p.1 as int)) && i + 2 <= p.1
                <= s@.len(),
            None => parse_string(s@, i as int) is None,
        },
{
    if i >= s.len() || s[i] != 34 {
        return None;
    }
    let j = string_end_exec(s, i + 1);
    if j < s.len() && s[j] == 34 {
        let body = copy_range(s, i + 1, j);
        Some((body, j + 1))
    } else {
        None
    }
}

/// Reads a JSON integer at `i` that fits in a byte.
fn parse_u8_exec(s: &[u8], i: usize) -> (r: Option<(u8, usize)>)
    requires
        i <= s@.len(),
    ensures
        match r {
            Some(p) => parse_u8(s@, i as int) == Some((p.0, p.1 as int)) && i < p.1 <= s@.len(),
            None => parse_u8(s@, i as int) is None,
        },
{
    let j = digits_end_exec(s, i);
    if j == i {
        return None;
    }
    if s[i] == 48 && j > i + 1 {
        return None;
    }
    if j - i > 3 {
        proof {
            lemma_digits_value_lower(s@, i as int, j as int);
        }
        return None;
    }
    let mut n: u16 = (s[i] - 48) as u16;
    if j - i >= 2 {
        n = n * 10 + (s[i + 1] - 48) as u16;
    }
    if j - i == 3 {
        n = n * 10 + (s[i + 2] - 48) as u16;
    }
    proof {
        reveal_with_fuel(digits_value, 5);
        assert(n as int == digits_value(s@, i as int, j as int));
    }
    if n > 255 {
        return None;
    }
    Some((n as u8, j))
}

/// Whether the four bytes of `null` stand at `i`.
fn is_null_exec(s: &[u8], i: usize) -> (r: bool)
    requires
        i <= s@.len(),
    ensures
        r == is_null_at(s@, i as int),
{
    if s.len() >= 4 && i <= s.len() - 4 {
        s[i] == 110 && s[i + 1] == 117 && s[i + 2] == 108 && s[i + 3] == 108
    } else {
        false
    }
}

/// Reads `null` or a JSON string at `i`.
fn parse_opt_string_exec(s: &[u8], i: usize) -> (r: Option<(Option<Vec<u8>>, usize)>)
    requires
        i <= s@.len(),
    ensures
        match r {
            Some(p) => parse_opt_string(s@, i as int) == Some((opt_bytes_view(p.0), p.1 as int))
                && i < p.1 <= s@.len(),
            None => parse_opt_string(s@, i as int) is None,
        },
{
    let n = s.len();
    if is_null_exec(s, i) {
        assert(i + 4 <= n);
        Some((None, i + 4))
    } else {
        match parse_string_exec(s, i) {
            Some(p) => Some((Some(p.0), p.1)),
            None => None,
        }
    }
}

/// The record's fields while the object is being read.
struct Partial {
    id: Option<Vec<u8>>,
    application_id: Option<Vec<u8>>,
    command_type: Option<u8>,
    guild_id: Option<Option<Vec<u8>>>,
    channel_id: Option<Option<Vec<u8>>>,
    token: Option<Vec<u8>>,
    version: Option<u8>,
    message: Option<Option<Vec<u8>>>,
}

/// The view of an optional byte-string field that may itself hold `null`.
pub open spec fn opt_opt_bytes_view(o: Option<Option<Vec<u8>>>) -> Option<Option<Seq<u8>>> {
    match o {
        Some(x) => Some(opt_bytes_view(x)),
        None => None,
    }
}

impl View for Partial {
    type V = PartialModel;

    closed spec fn view(&self) -> PartialModel {
        PartialModel {
            id: opt_bytes_view(self.id),
            application_id: opt_bytes_view(self.application_id),
            command_type: self.command_type,
            guild_id: opt_opt_bytes_view(self.guild_id),
            channel_id: opt_opt_bytes_view(self.channel_id),
            token: opt_bytes_view(self.token),
            version: self.version,
            message: opt_opt_bytes_view(self.message),
        }
    }
}

/// A member that was read leaves one more field set.
proof fn lemma_member_value_sets(s: Seq<u8>, i: int, m: PartialModel, key: Seq<u8>)
    ensures
        match parse_member_value(s, i, m, key) {
            Some(p) => unset_count(p.0) < unset_count(m),
            None => true,
        },
{
}

/// Reads one member's value at `i` under the member's key.
fn parse_member_value_exec(s: &[u8], i: usize, m: Partial, key: &Vec<u8>) -> (r: Option<
    (Partial, usize),
>)
    requires
        i <= s@.len(),
    ensures
        match r {
            Some(p) => parse_member_value(s@, i as int, m@, key@) == Some((p.0@, p.1 as int))
                && i <= p.1 <= s@.len(),
            None => parse_member_value(s@, i as int, m@, key@) is None,
        },
{
    if bytes_eq(key.as_slice(), "id".as_bytes()) {
        if m.id.is_none() {
            match parse_string_exec(s, i) {
                Some(p) => {
                    let mut m2 = m;
                    m2.id = Some(p.0);
                    Some((m2, p.1))
                },
                None => None,
            }
        } else {
            None
        }
    } else if bytes_eq(key.as_slice(), "application_id".as_bytes()) {
        if m.application_id.is_none() {
            match parse_string_exec(s, i) {
                Some(p) => {
                    let mut m2 = m;
                    m2.application_id = Some(p.0);
                    Some((m2, p.1))
                },
                None => None,
            }
        } else {
            None
        }
    } else if bytes_eq(key.as_slice(), "type".as_bytes()) {
        if m.command_type.is_none() {
            match parse_u8_exec(s, i) {
                Some(p) => {
                    let mut m2 = m;
                    m2.command_type = Some(p.0);
                    Some((m2, p.1))
                },
                None => None,
            }
        } else {
            None
        }
    } else if bytes_eq(key.as_slice(), "guild_id".as_bytes()) {
        if m.guild_id.is_none() {
            match parse_opt_string_exec(s, i) {
                Some(p) => {
                    let mut m2 = m;
                    m2.guild_id = Some(p.0);
                    Some((m2, p.1))
                },
                None => None,
            }
        } else {
            None
        }
    } else if bytes_eq(key.as_slice(), "channel_id".as_bytes()) {
        if m.channel_id.is_none() {
            match parse_opt_string_exec(s, i) {
                Some(p) => {
                    let mut m2 = m;
                    m2.channel_id = Some(p.0);
                    Some((m2, p.1))
                },
                None => None,
            }
        } else {
            None
        }
    } else if bytes_eq(key.as_slice(), "token".as_bytes()) {
        if m.token.is_none() {
            match parse_string_exec(s, i) {
                Some(p) => {
                    let mut m2 = m;
                    m2.token = Some(p.0);
                    Some((m2, p.1))
                },
                None => None,
            }
        } else {
            None
        }
    } else if bytes_eq(key.as_slice(), "version".as_bytes()) {
        if m.version.is_none() {
            match parse_u8_exec(s, i) {
                Some(p) => {
                    let mut m2 = m;
                    m2.version = Some(p.0);
                    Some((m2, p.1))
                },
                None => None,
            }
        } else {
            None
        }
    } else if bytes_eq(key.as_slice(), "message".as_bytes()) {
        if m.message.is_none() {
            match parse_opt_string_exec(s, i) {
                Some(p) => {
                    let mut m2 = m;
                    m2.message = Some(p.0);
                    Some((m2, p.1))
                },
                None => None,
            }
        } else {
            None
        }
    } else {
        None
    }
}

/// Reads the members of the object from `i` to its closing brace.
fn parse_members_exec(s: &[u8], i: usize, m: Partial, first: bool) -> (r: Option<(Partial, usize)>)
    requires
        i <= s@.len(),
    ensures
        match r {
            Some(p) => parse_members(s@, i as int, m@, first) == Some((p.0@, p.1 as int)) && p.1
                <= s@.len(),
            None => parse_members(s@, i as int, m@, first) is None,
        },
    decreases unset_count(m@),
{
    let j = skip_ws_exec(s, i);
    if first && j < s.len() && s[j] == 125 {
        return Some((m, j + 1));
    }
    match parse_string_exec(s, j) {
        Some(kp) => {
            let q = skip_ws_exec(s, kp.1);
            if q < s.len() && s[q] == 58 {
                let r2 = skip_ws_exec(s, q + 1);
                proof {
                    lemma_member_value_sets(s@, r2 as int, m@, kp.0@);
                }
                match parse_member_value_exec(s, r2, m, &kp.0) {
                    Some(vp) => {
                        let t = skip_ws_exec(s, vp.1);
                        if t < s.len() && s[t] == 125 {
                            Some((vp.0, t + 1))
                        } else if t < s.len() && s[t] == 44 {
                            parse_members_exec(s, t + 1, vp.0, false)
                        } else {
                            None
                        }
                    },
                    None => None,
                }
            } else {
                None
            }
        },
        None => None,
    }
}

/// Decodes a request body into an interaction record. Returns an error
/// exactly when the body does not have the record's object form.
pub fn parse(body: &[u8]) -> (r: Result<Interaction, ParseError>)
    ensures
        match r {
            Ok(it) => parse_interaction(body@) == Some(it@),
            Err(_) => parse_interaction(body@) is None,
        },
{
    let i = skip_ws_exec(body, 0);
    if i >= body.len() {
        return Err(ParseError::Malformed);
    }
    if body[i] != 123 {
        return Err(ParseError::Malformed);
    }
    let empty = Partial {
        id: None,
        application_id: None,
        command_type: None,
        guild_id: None,
        channel_id: None,
        token: None,
        version: None,
        message: None,
    };
    assert(empty@ == empty_partial());
    match parse_members_exec(body, i + 1, empty, true) {
        Some(p) => {
            let e = skip_ws_exec(body, p.1);
            if e != body.len() {
                return Err(ParseError::Malformed);
            }
            let m = p.0;
            if m.id.is_some() && m.application_id.is_some() && m.command_type.is_some()
                && m.token.is_some() && m.version.is_some() {
                let it = Interaction {
                    id: m.id.unwrap(),
                    application_id: m.application_id.unwrap(),
                    command_type: m.command_type.unwrap(),
                    guild_id: match m.guild_id {
                        Some(g) => g,
                        None => None,
                    },
                    channel_id: match m.channel_id {
                        Some(c) => c,
                        None => None,
                    },
                    token: m.token.unwrap(),
                    version: m.version.unwrap(),
                    message: match m.message {
                        Some(x) => x,
                        None => None,
                    },
                };
                Ok(it)
            } else {
                Err(ParseError::Malformed)
            }
        },
        None => Err(ParseError::Malformed),
    }
}

} // verus!
