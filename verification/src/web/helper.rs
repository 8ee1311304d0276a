//! Helpers shared by the request handlers.
use rand::RngExt;
use vstd::prelude::*;

use crate::auth::{exp_text_of, timestamp_text, Claims};
use crate::db::models::{BridgeCookie, UserType};
use crate::logger::MESSAGE_DELIMITER;
use crate::text::{
    chars_of, copy_string, free_of, join_with, lemma_split_from_laws, occurrence_count, split_chars,
    split_spec, views,
};

verus! {

/// The pieces of every string of `s`, split at `delimiter`, in order.
pub open spec fn split_all(s: Seq<Seq<char>>, delimiter: Seq<char>) -> Seq<Seq<char>>
    decreases s.len(),
{
    if s.len() == 0 {
        Seq::empty()
    } else {
        split_all(s.drop_last(), delimiter) + split_spec(s.last(), delimiter)
    }
}

/// Splitting a list distributes over joining lists: the pieces of `a` and
/// then `b` are the pieces of `a`, then those of `b`; no strings give no
/// pieces, and one string gives its own pieces.
pub proof fn lemma_split_all_concat(a: Seq<Seq<char>>, b: Seq<Seq<char>>, d: Seq<char>)
    ensures
        split_all(a + b, d) == split_all(a, d) + split_all(b, d),
        split_all(Seq::empty(), d) == Seq::<Seq<char>>::empty(),
    decreases b.len(),
{
    if b.len() == 0 {
        assert(a + b =~= a);
        assert(split_all(a, d) + split_all(b, d) =~= split_all(a, d));
    } else {
        lemma_split_all_concat(a, b.drop_last(), d);
        assert((a + b).drop_last() =~= a + b.drop_last());
        assert((a + b).last() == b.last());
        assert(split_all(a, d) + split_all(b, d) =~= split_all(a, d) + split_all(b.drop_last(), d)
            + split_spec(b.last(), d));
    }
}

/// One string gives exactly its own pieces.
pub proof fn lemma_split_all_single(x: Seq<char>, d: Seq<char>)
    ensures
        split_all(seq![x], d) == split_spec(x, d),
{
    assert(seq![x].drop_last() =~= Seq::<Seq<char>>::empty());
    assert(split_all(seq![x].drop_last(), d) =~= Seq::<Seq<char>>::empty());
    assert(seq![x].last() == x);
    assert(Seq::<Seq<char>>::empty() + split_spec(x, d) =~= split_spec(x, d));
}

/// The number of pieces the strings of `s` split into at the non-empty
/// `d`: one more than the occurrences of `d`, for each string.
pub open spec fn pieces_count(s: Seq<Seq<char>>, d: Seq<char>) -> nat
    decreases s.len(),
{
    if s.len() == 0 {
        0
    } else {
        pieces_count(s.drop_last(), d) + occurrence_count(s.last(), d, 0) + 1
    }
}

/// At a non-empty delimiter, the strings of `s` split into one piece more
/// than each holds delimiters, no piece holds the delimiter, and the pieces
/// of each string, joined by the delimiter, give the string back.
pub proof fn lemma_split_all_laws(s: Seq<Seq<char>>, d: Seq<char>)
    requires
        d.len() > 0,
    ensures
        split_all(s, d).len() == pieces_count(s, d),
        forall|i: int| 0 <= i < split_all(s, d).len() ==> free_of(#[trigger] split_all(s, d)[i], d),
        forall|k: int| 0 <= k < s.len() ==> join_with(split_spec(#[trigger] s[k], d), d) == s[k],
    decreases s.len(),
{
    if s.len() > 0 {
        lemma_split_all_laws(s.drop_last(), d);
        let x = s.last();
        lemma_split_from_laws(x, d, 0);
        assert(x.subrange(0, x.len() as int) =~= x);
        let prev = split_all(s.drop_last(), d);
        assert forall|i: int| 0 <= i < split_all(s, d).len() implies free_of(
            #[trigger] split_all(s, d)[i],
            d,
        ) by {
            if i < prev.len() {
                assert(split_all(s, d)[i] == prev[i]);
            } else {
                assert(split_all(s, d)[i] == split_spec(x, d)[i - prev.len()]);
            }
        }
        assert forall|k: int| 0 <= k < s.len() implies join_with(split_spec(#[trigger] s[k], d), d)
            == s[k] by {
            if k < s.len() - 1 {
                assert(s[k] == s.drop_last()[k]);
            }
        }
    }
}

/// Convert a vector of strings that are delimited by a character to a vector of strings
///
/// # Example
/// ```ignore
/// let s = vec!["a,b,c".to_string(), "d,e,f".to_string()];
/// let delimiter = ",";
/// let res = delimited_string_to_vec(s, delimiter);
/// assert_eq!(res, vec!["a".to_string(), "b".to_string(), "c".to_string(), "d".to_string(),
/// "e".to_string(), "f".to_string()]);
pub fn delimited_string_to_vec(s: Vec<String>, delimiter: &str) -> (r: Vec<String>)
    ensures
        views(r@) == split_all(views(s@), delimiter@),
{
    let d = chars_of(delimiter);
    let mut acc: Vec<String> = Vec::new();
    let mut i: usize = 0;
    while i < s.len()
        invariant
            i <= s@.len(),
            d@ == delimiter@,
            views(acc@) == split_all(views(s@).subrange(0, i as int), delimiter@),
        decreases s@.len() - i,
    {
        let chars = chars_of(s[i].as_str());
        let mut pieces = split_chars(chars.as_slice(), d.as_slice());
        let ghost old_acc = acc@;
        let ghost p = pieces@;
        acc.append(&mut pieces);
        proof {
            assert(views(acc@) =~= views(old_acc) + views(p));
            assert(views(s@).subrange(0, i + 1).drop_last() =~= views(s@).subrange(0, i as int));
        }
        i = i + 1;
    }
    assert(views(s@).subrange(0, s@.len() as int) =~= views(s@));
    acc
}

/// The expiry shown on a page: that of a valid token, or a notice.
pub open spec fn token_exp_text(claims: Option<Claims>) -> Seq<char> {
    match claims {
        Some(c) => exp_text_of(timestamp_text(c.exp as i64)),
        None => "Not a valid token"@,
    }
}

/// The expiry of the session token shown on a page, given the claims of the
/// token when it is valid.
pub fn add_token_exp(claims: Option<&Claims>) -> (r: String)
    ensures
        r@ == token_exp_text(
            match claims {
                Some(c) => Some(*c),
                None => None,
            },
        ),
{
    match claims {
        Some(c) => c.token_exp_as_string(),
        None => copy_string("Not a valid token"),
    }
}

/// How a role is named in a log line.
pub open spec fn user_type_debug(t: UserType) -> Seq<char> {
    match t {
        UserType::User => "User"@,
        UserType::GroupAdmin => "GroupAdmin"@,
        UserType::SystemAdmin => "SystemAdmin"@,
    }
}

/// The line logged to the observability channel when a user does `msg`.
pub open spec fn observability_line(subject: Seq<char>, t: UserType, msg: Seq<char>, company: Seq<char>) -> Seq<
    char,
> {
    MESSAGE_DELIMITER@ + "User: "@ + subject + " with type: "@ + user_type_debug(t) + " "@ + msg
        + " for "@ + company
}

/// The line that reports to the observability channel that the user of the
/// session cookie `bc` did `msg`, at `company`.
pub fn observability_post(msg: &str, bc: &BridgeCookie, company: &str) -> (r: String)
    ensures
        r@ == observability_line(bc.subject@, bc.user_type, msg@, company@),
{
    let t = match bc.user_type {
        UserType::User => "User",
        UserType::GroupAdmin => "GroupAdmin",
        UserType::SystemAdmin => "SystemAdmin",
    };
    copy_string(MESSAGE_DELIMITER).concat("User: ").concat(bc.subject.as_str()).concat(
        " with type: ",
    ).concat(t).concat(" ").concat(msg).concat(" for ").concat(company)
}

/// The character that stands for the six bits `v` in the standard base64
/// alphabet.
pub open spec fn b64_std_char(v: int) -> char {
    if v < 26 {
        (65 + v) as char
    } else if v < 52 {
        (97 + v - 26) as char
    } else if v < 62 {
        (48 + v - 52) as char
    } else if v == 62 {
        '+'
    } else {
        '/'
    }
}

/// Standard base64 with `=` padding: every three bytes become four
/// characters, and a last group of one or two bytes becomes four characters
/// ending in two or one `=`.
pub open spec fn base64_padded(d: Seq<u8>) -> Seq<char>
    decreases d.len(),
{
    let a = if d.len() > 0 { d[0] as int } else { 0 };
    let b = if d.len() > 1 { d[1] as int } else { 0 };
    let c = if d.len() > 2 { d[2] as int } else { 0 };
    if d.len() == 0 {
        Seq::empty()
    } else if d.len() == 1 {
        seq![b64_std_char(a / 4), b64_std_char((a % 4) * 16), '=', '=']
    } else if d.len() == 2 {
        seq![
            b64_std_char(a / 4),
            b64_std_char((a % 4) * 16 + b / 16),
            b64_std_char((b % 16) * 4),
            '=',
        ]
    } else {
        seq![
            b64_std_char(a / 4),
            b64_std_char((a % 4) * 16 + b / 16),
            b64_std_char((b % 16) * 4 + c / 64),
            b64_std_char(c % 64),
        ] + base64_padded(d.skip(3))
    }
}

/// Padded base64 writes four characters for every three bytes or part of
/// three bytes.
pub proof fn lemma_base64_padded_len(d: Seq<u8>)
    ensures
        base64_padded(d).len() == 4 * ((d.len() + 2) / 3),
    decreases d.len(),
{
    if d.len() > 2 {
        lemma_base64_padded_len(d.skip(3));
    }
}

/// Thirty-two bytes from `rand::rng()`, the thread-local generator that the
/// operating system seeds. Nothing is claimed of their values.
#[verifier::external_body]
fn random_bytes() -> (r: [u8; 32]) {
    rand::rng().random::<[u8; 32]>()
}

/// Calls `base64ct::Base64::encode_string`: the RFC 4648 standard alphabet
/// with `=` padding, which `base64_padded` spells out. It panics when four
/// times the length overflows `usize`, which `requires` leaves out.
#[verifier::external_body]
fn encode_base64(data: &[u8]) -> (r: String)
    requires
        data@.len() <= usize::MAX / 4,
    ensures
        r@ == base64_padded(data@),
{
    <base64ct::Base64 as base64ct::Encoding>::encode_string(data)
}

/// A fresh salt for hashing a secret: thirty-two random bytes in padded
/// base64.
pub fn generate_salt() -> (r: String)
    ensures
        exists|b: Seq<u8>| b.len() == 32 && r@ == base64_padded(b),
        r@.len() == 44,
{
    let salt = random_bytes();
    let r = encode_base64(&salt);
    proof {
        lemma_base64_padded_len(salt@);
    }
    r
}

} // verus!
