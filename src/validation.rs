//! Validation of sign-up fields, with the messages reported for each field.

use vstd::prelude::*;
use vstd::string::*;
use vstd::utf8::*;
use crate::api::SignupData;
use crate::errors::{ErrorResponder, ErrorType, ErrorTypeKind};

verus! {

/// Whether the email address is valid, as the `validator` crate judges it.
pub uninterp spec fn email_is_valid(s: Seq<char>) -> bool;

/// Relies on `validator::ValidateEmail::validate_email` for `&str`: the HTML
/// form of an email address; an empty string or one without `@` is invalid.
#[verifier::external_body]
fn check_email(s: &str) -> (r: bool)
    ensures
        r == email_is_valid(s@),
        !s@.contains('@') ==> !r,
{
    validator::ValidateEmail::validate_email(&s)
}

/// Why a field is refused: a stable code and a message for the user.
#[derive(Debug)]
pub struct ValidationError {
    pub code: String,
    pub message: String,
}

/// The length in bytes of the UTF-8 text of `s`, as `str::len` gives it.
pub open spec fn byte_len(s: Seq<char>) -> nat {
    (encode_utf8(s).len() as usize) as nat
}

/// A Unicode white space character.
pub open spec fn is_whitespace(c: char) -> bool {
    ('\u{9}' <= c <= '\u{d}') || c == ' ' || c == '\u{85}' || c == '\u{a0}' || c == '\u{1680}' || ('\u{2000}'
        <= c <= '\u{200a}') || c == '\u{2028}' || c == '\u{2029}' || c == '\u{202f}' || c == '\u{205f}'
        || c == '\u{3000}'
}

/// The error of a user name, if any: no white space at either end, and
/// from 5 to 100 bytes.
pub open spec fn name_error(v: Seq<char>, bytes: nat) -> Option<(Seq<char>, Seq<char>)> {
    if v.len() > 0 && (is_whitespace(v[0]) || is_whitespace(v.last())) {
        Some(("name_whitespace"@, "Name cannot start or end with whitespace"@))
    } else if bytes < 5 || bytes > 100 {
        Some(("name_length"@, "Name must be between 5 and 100 characters"@))
    } else {
        None
    }
}

/// Some character of `v` lies in `lo..=hi`.
pub open spec fn has_in_range(v: Seq<char>, lo: char, hi: char) -> bool {
    exists|i: int| 0 <= i < v.len() && lo <= #[trigger] v[i] <= hi
}

/// The error of a password, if any: from 8 to 100 bytes, with an ASCII
/// lowercase letter, an uppercase letter and a digit.
pub open spec fn password_error(v: Seq<char>, bytes: nat) -> Option<(Seq<char>, Seq<char>)> {
    if bytes < 8 || bytes > 100 {
        Some(("password_length"@, "Password must be between 8 and 100 characters"@))
    } else if !has_in_range(v, 'a', 'z') || !has_in_range(v, 'A', 'Z') || !has_in_range(v, '0', '9') {
        Some((
            "password_requirements"@,
            "Password must contain at least one lowercase letter, one uppercase letter and one digit"@,
        ))
    } else {
        None
    }
}

/// `r` reports the error `e`, or success where `e` is `None`.
pub open spec fn reports(r: Result<(), ValidationError>, e: Option<(Seq<char>, Seq<char>)>) -> bool {
    match e {
        None => r is Ok,
        Some(cm) => r is Err && r->Err_0.code@ == cm.0 && r->Err_0.message@ == cm.1,
    }
}

/// Whether some character of `v` lies in `lo..=hi`.
fn any_in_range(v: &str, lo: char, hi: char) -> (r: bool)
    ensures
        r == has_in_range(v@, lo, hi),
{
    let n = v.unicode_len();
    let mut i: usize = 0;
    while i < n
        invariant
            n == v@.len(),
            i <= n,
            forall|k: int| 0 <= k < i ==> !(lo <= #[trigger] v@[k] <= hi),
        decreases n - i,
    {
        let c = v.get_char(i);
        if lo <= c && c <= hi {
            return true;
        }
        i = i + 1;
    }
    false
}

/// Whether `c` is Unicode white space.
fn whitespace(c: char) -> (r: bool)
    ensures
        r == is_whitespace(c),
{
    ('\u{9}' <= c && c <= '\u{d}') || c == ' ' || c == '\u{85}' || c == '\u{a0}' || c == '\u{1680}' || ('\u{2000}'
        <= c && c <= '\u{200a}') || c == '\u{2028}' || c == '\u{2029}' || c == '\u{202f}' || c == '\u{205f}'
        || c == '\u{3000}'
}

fn refuse(code: &str, message: &str) -> (r: Result<(), ValidationError>)
    ensures
        r is Err && r->Err_0.code@ == code@ && r->Err_0.message@ == message@,
{
    Err(ValidationError { code: String::from_str(code), message: String::from_str(message) })
}

/// Checks a user name.
pub fn validate_user_name(value: &str) -> (r: Result<(), ValidationError>)
    ensures
        reports(r, name_error(value@, byte_len(value@))),
{
    let n = value.unicode_len();
    if n > 0 && (whitespace(value.get_char(0)) || whitespace(value.get_char(n - 1))) {
        return refuse("name_whitespace", "Name cannot start or end with whitespace");
    }
    if value.len() < 5 || value.len() > 100 {
        return refuse("name_length", "Name must be between 5 and 100 characters");
    }
    Ok(())
}

/// Checks a password.
pub fn validate_password(value: &str) -> (r: Result<(), ValidationError>)
    ensures
        reports(r, password_error(value@, byte_len(value@))),
{
    if value.len() < 8 || value.len() > 100 {
        return refuse("password_length", "Password must be between 8 and 100 characters");
    }
    if !any_in_range(value, 'a', 'z') || !any_in_range(value, 'A', 'Z') || !any_in_range(value, '0', '9') {
        return refuse(
            "password_requirements",
            "Password must contain at least one lowercase letter, one uppercase letter and one digit",
        );
    }
    Ok(())
}

/// The error of an email address, if any.
pub open spec fn email_error(v: Seq<char>) -> Option<(Seq<char>, Seq<char>)> {
    if email_is_valid(v) {
        None
    } else {
        Some(("email_invalid"@, "Invalid email"@))
    }
}

/// Checks an email address.
pub fn validate_email(value: &str) -> (r: Result<(), ValidationError>)
    ensures
        reports(r, email_error(value@)),
{
    if !check_email(value) {
        return refuse("email_invalid", "Invalid email");
    }
    Ok(())
}

/// The part of a validation message for one field.
pub open spec fn field_part(field: Seq<char>, e: Option<(Seq<char>, Seq<char>)>) -> Seq<Seq<char>> {
    match e {
        None => seq![],
        Some(cm) => seq![field + ": "@ + cm.1],
    }
}

/// The parts joined with `", "`.
pub open spec fn join_parts(parts: Seq<Seq<char>>) -> Seq<char>
    decreases parts.len(),
{
    if parts.len() == 0 {
        seq![]
    } else if parts.len() == 1 {
        parts[0]
    } else {
        join_parts(parts.drop_last()) + ", "@ + parts.last()
    }
}

/// The parts of the validation message of a sign-up, in field order.
pub open spec fn signup_parts(name: Seq<char>, email: Seq<char>, password: Seq<char>) -> Seq<Seq<char>> {
    field_part("name"@, name_error(name, byte_len(name))) + field_part("email"@, email_error(email))
        + field_part("password"@, password_error(password, byte_len(password)))
}

/// Adds the part of one field to the message, after the earlier parts.
fn add_part(msg: &mut String, count: &mut usize, field: &str, r: &Result<(), ValidationError>, Ghost(
    parts,
): Ghost<Seq<Seq<char>>>, Ghost(e): Ghost<Option<(Seq<char>, Seq<char>)>>)
    requires
        old(msg)@ == join_parts(parts),
        *old(count) == parts.len(),
        parts.len() < 3,
        reports(*r, e),
    ensures
        final(msg)@ == join_parts(parts + field_part(field@, e)),
        *final(count) == (parts + field_part(field@, e)).len(),
{
    if let Err(err) = r {
        if *count > 0 {
            msg.append(", ");
        }
        msg.append(field);
        msg.append(": ");
        msg.append(err.message.as_str());
        *count = *count + 1;
        let ghost np = parts + field_part(field@, e);
        assert(np.drop_last() =~= parts);
        assert(np.last() == field@ + ": "@ + err.message@);
        proof {
            if parts.len() == 0 {
                assert(msg@ =~= field@ + ": "@ + err.message@);
            } else {
                assert(msg@ =~= join_parts(parts) + ", "@ + (field@ + ": "@ + err.message@));
            }
        }
    } else {
        assert(parts + field_part(field@, e) =~= parts);
    }
}

/// Checks the fields of a sign-up. On failure the error is `InvalidInput`,
/// rolling back, whose message lists each refused field as
/// `field: message`, joined with `", "`.
pub fn validate_input(data: &SignupData) -> (r: Result<(), ErrorResponder>)
    ensures
        signup_parts(data.name@, data.email@, data.password@).len() == 0 ==> r is Ok,
        signup_parts(data.name@, data.email@, data.password@).len() > 0 ==> r is Err && r->Err_0.describes(
            ErrorTypeKind::InvalidInput,
            join_parts(signup_parts(data.name@, data.email@, data.password@)),
            true,
        ),
{
    check_fields(data.name.as_str(), data.email.as_str(), data.password.as_str())
}

fn check_fields(name: &str, email: &str, password: &str) -> (r: Result<(), ErrorResponder>)
    ensures
        signup_parts(name@, email@, password@).len() == 0 ==> r is Ok,
        signup_parts(name@, email@, password@).len() > 0 ==> r is Err && r->Err_0.describes(
            ErrorTypeKind::InvalidInput,
            join_parts(signup_parts(name@, email@, password@)),
            true,
        ),
{
    let rn = validate_user_name(name);
    let re = validate_email(email);
    let rp = validate_password(password);
    let mut msg = String::new();
    let mut count: usize = 0;
    let ghost p0: Seq<Seq<char>> = Seq::empty();
    let ghost en = name_error(name@, byte_len(name@));
    let ghost ee = email_error(email@);
    let ghost ep = password_error(password@, byte_len(password@));
    add_part(&mut msg, &mut count, "name", &rn, Ghost(p0), Ghost(en));
    let ghost p1 = field_part("name"@, en);
    assert(p0 + p1 =~= p1);
    add_part(&mut msg, &mut count, "email", &re, Ghost(p1), Ghost(ee));
    let ghost p2 = p1 + field_part("email"@, ee);
    add_part(&mut msg, &mut count, "password", &rp, Ghost(p2), Ghost(ep));
    assert(p2 + field_part("password"@, ep) =~= signup_parts(name@, email@, password@));
    if count == 0 {
        return Ok(());
    }
    ErrorType::InvalidInput(msg).res_err_rollback()
}

}
