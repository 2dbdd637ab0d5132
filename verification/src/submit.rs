//! Request dispatch: validation-gated construction of the JSON credential
//! request and the busy/disabled control state around the transport call.

use vstd::prelude::*;
use vstd::string::StringExecFns;

use crate::classify::IdentifierType;
use crate::classify::classify;
use crate::classify::spec_identifier_type;
use crate::validate::spec_message;
use crate::validate::spec_validate;
use crate::validate::validate;

verus! {

/// The fixed endpoint path the credential request is posted to.
pub const AUTH_ENDPOINT: &'static str = "/api/v1/account/gettoken";

/// Relies on `String::push`: appends the given char to the end of the string.
pub assume_specification[ String::push ](s: &mut String, c: char)
    ensures
        final(s)@ == old(s)@.push(c),
;

/// The lower-case hexadecimal digit for a value below sixteen.
pub open spec fn hex_digit(n: int) -> char {
    if n == 0 {
        '0'
    } else if n == 1 {
        '1'
    } else if n == 2 {
        '2'
    } else if n == 3 {
        '3'
    } else if n == 4 {
        '4'
    } else if n == 5 {
        '5'
    } else if n == 6 {
        '6'
    } else if n == 7 {
        '7'
    } else if n == 8 {
        '8'
    } else if n == 9 {
        '9'
    } else if n == 10 {
        'a'
    } else if n == 11 {
        'b'
    } else if n == 12 {
        'c'
    } else if n == 13 {
        'd'
    } else if n == 14 {
        'e'
    } else {
        'f'
    }
}

fn hex_digit_char(n: u8) -> (r: char)
    requires
        n < 16,
    ensures
        r == hex_digit(n as int),
{
    if n == 0 {
        '0'
    } else if n == 1 {
        '1'
    } else if n == 2 {
        '2'
    } else if n == 3 {
        '3'
    } else if n == 4 {
        '4'
    } else if n == 5 {
        '5'
    } else if n == 6 {
        '6'
    } else if n == 7 {
        '7'
    } else if n == 8 {
        '8'
    } else if n == 9 {
        '9'
    } else if n == 10 {
        'a'
    } else if n == 11 {
        'b'
    } else if n == 12 {
        'c'
    } else if n == 13 {
        'd'
    } else if n == 14 {
        'e'
    } else {
        'f'
    }
}

/// How one character appears inside a JSON string literal: quote and
/// backslash get a backslash escape, control characters a `\u00XX` escape,
/// everything else stands as itself.
pub open spec fn spec_escape_char(c: char) -> Seq<char> {
    if c == '"' {
        seq!['\\', '"']
    } else if c == '\\' {
        seq!['\\', '\\']
    } else if (c as int) < 32 {
        seq!['\\', 'u', '0', '0', hex_digit((c as int) / 16), hex_digit((c as int) % 16)]
    } else {
        seq![c]
    }
}

/// The body of a JSON string literal holding `s`.
pub open spec fn spec_json_escaped(s: Seq<char>) -> Seq<char>
    decreases s.len(),
{
    if s.len() == 0 {
        Seq::empty()
    } else {
        spec_escape_char(s[0]) + spec_json_escaped(s.subrange(1, s.len() as int))
    }
}

/// Escaping a string character by character from the left or peeling one
/// character off the right agree.
proof fn lemma_json_escaped_push(s: Seq<char>, c: char)
    ensures
        spec_json_escaped(s.push(c)) == spec_json_escaped(s) + spec_escape_char(c),
    decreases s.len(),
{
    if s.len() == 0 {
        let t = s.push(c);
        assert(t[0] == c);
        assert(t.subrange(1, 1) =~= Seq::<char>::empty());
        assert(spec_json_escaped(Seq::<char>::empty()) == Seq::<char>::empty());
        assert(spec_json_escaped(t) == spec_escape_char(c) + Seq::<char>::empty());
        assert(spec_escape_char(c) + Seq::<char>::empty() =~= spec_escape_char(c));
        assert(spec_json_escaped(s) == Seq::<char>::empty());
        assert(spec_json_escaped(s) + spec_escape_char(c) =~= spec_escape_char(c));
    } else {
        let rest = s.subrange(1, s.len() as int);
        assert(s.push(c)[0] == s[0]);
        assert(s.push(c).subrange(1, s.push(c).len() as int) =~= rest.push(c));
        lemma_json_escaped_push(rest, c);
        assert(spec_escape_char(s[0]) + (spec_json_escaped(rest) + spec_escape_char(c)) =~= (
        spec_escape_char(s[0]) + spec_json_escaped(rest)) + spec_escape_char(c));
    }
}

fn append_escaped_char(out: &mut String, c: char)
    ensures
        final(out)@ == old(out)@ + spec_escape_char(c),
{
    if c == '"' {
        out.push('\\');
        out.push('"');
        proof {
            assert(out@ =~= old(out)@ + spec_escape_char(c));
        }
    } else if c == '\\' {
        out.push('\\');
        out.push('\\');
        proof {
            assert(out@ =~= old(out)@ + spec_escape_char(c));
        }
    } else if (c as u32) < 32 {
        let code = c as u32;
        let hi = (code / 16) as u8;
        let lo = (code % 16) as u8;
        out.push('\\');
        out.push('u');
        out.push('0');
        out.push('0');
        out.push(hex_digit_char(hi));
        out.push(hex_digit_char(lo));
        proof {
            assert(out@ =~= old(out)@ + spec_escape_char(c));
        }
    } else {
        out.push(c);
        proof {
            assert(out@ =~= old(out)@ + spec_escape_char(c));
        }
    }
}

/// Append the JSON-escaped form of `s` to `out`.
fn append_escaped(out: &mut String, s: &str)
    ensures
        final(out)@ == old(out)@ + spec_json_escaped(s@),
{
    let n = s.unicode_len();
    let mut i: usize = 0;
    proof {
        assert(s@.subrange(0, 0) =~= Seq::<char>::empty());
        assert(out@ =~= out@ + spec_json_escaped(s@.subrange(0, 0)));
    }
    while i < n
        invariant
            n == s@.len(),
            i <= n,
            out@ == old(out)@ + spec_json_escaped(s@.subrange(0, i as int)),
        decreases n - i,
    {
        let c = s.get_char(i);
        append_escaped_char(out, c);
        proof {
            assert(s@.subrange(0, i + 1) =~= s@.subrange(0, i as int).push(c));
            lemma_json_escaped_push(s@.subrange(0, i as int), c);
            assert(out@ =~= old(out)@ + spec_json_escaped(s@.subrange(0, i + 1)));
        }
        i = i + 1;
    }
    proof {
        assert(s@.subrange(0, n as int) =~= s@);
    }
}

/// The wire label of an identifier type.
pub open spec fn spec_identifier_type_label(t: IdentifierType) -> Seq<char> {
    match t {
        IdentifierType::Email => "email"@,
        IdentifierType::Id => "id"@,
        IdentifierType::Username => "username"@,
    }
}

/// The credential request, constructed only when no validation error exists.
pub struct AuthRequest {
    pub identifier: String,
    pub identifier_type: IdentifierType,
    pub password: String,
}

/// The JSON object posted to the endpoint for a credential request.
pub open spec fn spec_request_body(id: Seq<char>, t: IdentifierType, pw: Seq<char>) -> Seq<char> {
    "{\"identifier\":\""@ + spec_json_escaped(id) + "\",\"identifier_type\":\""@
        + spec_identifier_type_label(t) + "\",\"password\":\""@ + spec_json_escaped(pw) + "\"}"@
}

/// Serialize a credential request to its JSON body.
pub fn request_body(req: &AuthRequest) -> (r: String)
    ensures
        r@ == spec_request_body(req.identifier@, req.identifier_type, req.password@),
{
    let mut out = String::from_str("{\"identifier\":\"");
    append_escaped(&mut out, req.identifier.as_str());
    out.append("\",\"identifier_type\":\"");
    match req.identifier_type {
        IdentifierType::Email => out.append("email"),
        IdentifierType::Id => out.append("id"),
        IdentifierType::Username => out.append("username"),
    }
    out.append("\",\"password\":\"");
    append_escaped(&mut out, req.password.as_str());
    out.append("\"}");
    proof {
        assert(out@ =~= spec_request_body(req.identifier@, req.identifier_type, req.password@));
    }
    out
}

/// The state applied to both submit controls at once: whether they are
/// disabled, and the label each shows.
pub struct ControlState {
    pub disabled: bool,
    pub signin_label: String,
    pub signup_label: String,
}

/// The sign-in control's label: in-progress text while a request is in
/// flight, the original text otherwise.
pub open spec fn spec_signin_label(busy: bool) -> Seq<char> {
    if busy {
        "Signing in..."@
    } else {
        "Sign in"@
    }
}

/// The sign-up control's label, analogously.
pub open spec fn spec_signup_label(busy: bool) -> Seq<char> {
    if busy {
        "Creating account..."@
    } else {
        "Create account"@
    }
}

/// The control state that belongs to a busy flag.
pub open spec fn spec_controls(busy: bool, c: ControlState) -> bool {
    &&& c.disabled == busy
    &&& c.signin_label@ == spec_signin_label(busy)
    &&& c.signup_label@ == spec_signup_label(busy)
}

/// The control state for a busy flag: disabled with in-progress labels
/// while a request is in flight, enabled with the original labels otherwise.
pub fn controls_for(busy: bool) -> (r: ControlState)
    ensures
        spec_controls(busy, r),
{
    if busy {
        ControlState {
            disabled: true,
            signin_label: String::from_str("Signing in..."),
            signup_label: String::from_str("Creating account..."),
        }
    } else {
        ControlState {
            disabled: false,
            signin_label: String::from_str("Sign in"),
            signup_label: String::from_str("Create account"),
        }
    }
}

/// The structured response of the token endpoint. It is the decode target
/// for the response body; no user-visible feedback is derived from it yet,
/// so completion handling treats every outcome alike (see `finish_submit`).
#[derive(Debug)]
pub enum Responses {
    Error { kind: ErrorKind },
    GetToken { token: String },
}

/// The error kinds the token endpoint reports.
#[derive(Debug)]
pub enum ErrorKind {
    NoSuchUser,
    PasswordIncorrect,
    External(String),
}

/// What a submission does first: stop with a message, or disable the
/// controls and send the JSON body to the endpoint.
pub enum SubmitStep {
    Reject { message: String },
    Send { body: String, controls: ControlState },
}

/// Decide a submission. A validation error rejects it with that error's
/// message and nothing else happens; otherwise the controls enter the busy
/// state and the JSON body for the classified identifier is sent.
pub fn submit(identifier: &str, password: &str) -> (r: SubmitStep)
    ensures
        spec_validate(identifier@, password@) matches Some(e) ==> (r matches
        SubmitStep::Reject { message } && message@ == spec_message(e)),
        spec_validate(identifier@, password@) is None ==> (r matches
        SubmitStep::Send { body, controls } && body@ == spec_request_body(
            identifier@,
            spec_identifier_type(identifier@),
            password@,
        ) && spec_controls(true, controls)),
{
    match validate(identifier, password) {
        Some(e) => SubmitStep::Reject { message: e.message() },
        None => {
            let (identifier_type, _) = classify(identifier);
            let req = AuthRequest {
                identifier: String::from_str(identifier),
                identifier_type,
                password: String::from_str(password),
            };
            let body = request_body(&req);
            SubmitStep::Send { body, controls: controls_for(true) }
        }
    }
}

/// The control state applied when the transport call resolves: enabled with
/// the original labels, whatever the outcome was — a parsed response or a
/// transport failure alike.
pub fn finish_submit(_outcome: Option<&Responses>) -> (r: ControlState)
    ensures
        spec_controls(false, r),
{
    controls_for(false)
}

} // verus!
