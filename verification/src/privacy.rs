//! Addresses in the log.

use crate::text::chars_of;
use vstd::prelude::*;
use vstd::string::*;
use vstd::utf8::*;

verus! {

/// How many characters stand before the first at sign; all of them where there is none.
pub open spec fn local_length(email: Seq<char>) -> nat
    decreases email.len(),
{
    if email.len() == 0 || email[0] == '@' {
        0
    } else {
        1 + local_length(email.skip(1))
    }
}

/// The part before the first at sign.
pub open spec fn local_part(email: Seq<char>) -> Seq<char> {
    email.take(local_length(email) as int)
}

/// The first at sign and what follows it.
pub open spec fn domain_part(email: Seq<char>) -> Seq<char> {
    email.skip(local_length(email) as int)
}

/// Whether a local part is too short to show its last character: at most two bytes.
pub open spec fn is_short(local: Seq<char>) -> bool {
    encode_utf8(local).len() <= 2
}

/// Whether the characters that stay visible are there and take one byte each.
pub open spec fn censorable(email: Seq<char>) -> bool {
    domain_part(email).len() == 0 || {
        &&& local_part(email).len() > 0
        &&& (local_part(email)[0] as u32) < 128
        &&& is_short(local_part(email)) || (local_part(email).last() as u32) < 128
    }
}

/// An address with most of its local part hidden; one without an at sign is hidden whole.
pub open spec fn censored(email: Seq<char>) -> Seq<char> {
    let local = local_part(email);
    if domain_part(email).len() == 0 {
        "***"@
    } else if is_short(local) {
        local.take(1) + "***"@ + domain_part(email)
    } else {
        local.take(1) + "***"@ + local.skip(local.len() - 1) + domain_part(email)
    }
}

/// Counts the characters before the first at sign.
fn find_at(email: &str) -> (position: usize)
    ensures
        position == local_length(email@),
        position <= email@.len(),
{
    let chars = chars_of(email);
    let mut i: usize = 0;
    assert(email@.skip(0) =~= email@);
    while i < chars.len() && chars[i] != '@'
        invariant
            chars@ == email@,
            i <= email@.len(),
            local_length(email@) == i + local_length(email@.skip(i as int)),
        decreases email@.len() - i,
    {
        assert(email@.skip(i as int)[0] == email@[i as int]);
        assert(email@.skip(i as int).skip(1) =~= email@.skip(i as int + 1));
        i = i + 1;
    }
    proof {
        if i < email@.len() {
            assert(email@.skip(i as int)[0] == email@[i as int]);
        }
    }
    i
}

/// Whether an address can be censored.
pub fn can_censor(email: &str) -> (res: bool)
    ensures
        res == censorable(email@),
{
    let at = find_at(email);
    let chars = chars_of(email);
    if at == chars.len() {
        return true;
    }
    let local = email.substring_char(0, at);
    assert(local@ =~= local_part(email@));
    at > 0 && (chars[0] as u32) < 128 && (local.as_bytes().len() <= 2 || (chars[at - 1] as u32)
        < 128)
}

/// An address for the log: hidden, unless the log may reveal it.
pub fn censor_email(email: &str, reveal: bool) -> (res: String)
    requires
        reveal || censorable(email@),
    ensures
        res@ == (if reveal {
            email@
        } else {
            censored(email@)
        }),
{
    if reveal {
        return email.to_owned();
    }
    let at = find_at(email);
    let length = chars_of(email).len();
    if at == length {
        return "***".to_owned();
    }
    let local = email.substring_char(0, at);
    let domain = email.substring_char(at, length);
    let first = email.substring_char(0, 1);
    assert(local@ =~= local_part(email@));
    assert(domain@ =~= domain_part(email@));
    assert(first@ =~= local_part(email@).take(1));
    if local.as_bytes().len() <= 2 {
        first.to_owned().concat("***").concat(domain)
    } else {
        let last = email.substring_char(at - 1, at);
        assert(last@ =~= local_part(email@).skip(at - 1));
        first.to_owned().concat("***").concat(last).concat(domain)
    }
}

} // verus!
