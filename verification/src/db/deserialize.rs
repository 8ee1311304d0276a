//! Parsing of URL-encoded form bodies (`key=value&key=value`) into the forms
//! of the admin portal.
use vstd::prelude::*;

use super::models::{user_type_of, GroupForm, UserDeleteForm, UserForm, UserType};
use crate::text::{chars_of, chars_eq, split_chars, split_spec, string_from_chars, views};

verus! {

/// Why a form body was refused.
#[derive(Debug, PartialEq, Eq)]
pub enum FormError {
    /// A parameter has no `=` and so no value.
    MissingValue,
    /// A value does not percent-decode to UTF-8 text.
    InvalidEncoding,
    /// A parameter's key is not a field of the form.
    UnknownField(String),
    /// A required field is absent.
    MissingField(String),
}

/// The mathematical value of a form error.
pub enum SpecFormError {
    MissingValue,
    InvalidEncoding,
    UnknownField(Seq<char>),
    MissingField(Seq<char>),
}

impl View for FormError {
    type V = SpecFormError;

    open spec fn view(&self) -> SpecFormError {
        match self {
            FormError::MissingValue => SpecFormError::MissingValue,
            FormError::InvalidEncoding => SpecFormError::InvalidEncoding,
            FormError::UnknownField(k) => SpecFormError::UnknownField(k@),
            FormError::MissingField(k) => SpecFormError::MissingField(k@),
        }
    }
}

/// The text that `urlencoding::decode` yields for `s`: `%xx` escapes decoded
/// and the bytes read as UTF-8, or `None` when they are not UTF-8.
pub uninterp spec fn url_decoded(s: Seq<char>) -> Option<Seq<char>>;

/// The text holds no `%`, so no escape.
pub open spec fn has_no_escape(s: Seq<char>) -> bool {
    !s.contains('%')
}

/// Calls `urlencoding::decode`. Its result is named by `url_decoded`; its
/// source shows that text without `%` is given back unchanged. Which escapes
/// it decodes and when UTF-8 fails is left to the name.
#[verifier::external_body]
fn url_decode(s: &str) -> (r: Option<String>)
    ensures
        r is Some <==> url_decoded(s@) is Some,
        r matches Some(d) ==> url_decoded(s@) == Some(d@),
        has_no_escape(s@) ==> r is Some,
        r matches Some(d) ==> has_no_escape(s@) ==> d@ == s@,
{
    match urlencoding::decode(s) {
        Ok(c) => Some(c.into_owned()),
        Err(_) => None,
    }
}

/// The key and decoded value of one `key=value` parameter: the value is the
/// text between the first and the second `=`; a value without `%` is taken
/// as it stands.
pub open spec fn pair_of(param: Seq<char>) -> Result<(Seq<char>, Seq<char>), SpecFormError> {
    let parts = split_spec(param, seq!['=']);
    if parts.len() < 2 {
        Err(SpecFormError::MissingValue)
    } else if has_no_escape(parts[1]) {
        Ok((parts[0], parts[1]))
    } else {
        match url_decoded(parts[1]) {
            None => Err(SpecFormError::InvalidEncoding),
            Some(v) => Ok((parts[0], v)),
        }
    }
}

/// The pairs of the parameters, in order, up to the first parameter that
/// fails or whose key is not among `keys`.
pub open spec fn query_pairs(params: Seq<Seq<char>>, keys: Seq<Seq<char>>) -> Result<
    Seq<(Seq<char>, Seq<char>)>,
    SpecFormError,
>
    decreases params.len(),
{
    if params.len() == 0 {
        Ok(Seq::empty())
    } else {
        match query_pairs(params.drop_last(), keys) {
            Err(e) => Err(e),
            Ok(ps) => match pair_of(params.last()) {
                Err(e) => Err(e),
                Ok(p) => if keys.contains(p.0) {
                    Ok(ps.push(p))
                } else {
                    Err(SpecFormError::UnknownField(p.0))
                },
            },
        }
    }
}

/// The value of the last pair whose key is among `keys`.
pub open spec fn last_value(pairs: Seq<(Seq<char>, Seq<char>)>, keys: Seq<Seq<char>>) -> Option<
    Seq<char>,
>
    decreases pairs.len(),
{
    if pairs.len() == 0 {
        None
    } else if keys.contains(pairs.last().0) {
        Some(pairs.last().1)
    } else {
        last_value(pairs.drop_last(), keys)
    }
}

/// The values of all pairs with key `key`, in order.
pub open spec fn values_of(pairs: Seq<(Seq<char>, Seq<char>)>, key: Seq<char>) -> Seq<Seq<char>>
    decreases pairs.len(),
{
    if pairs.len() == 0 {
        Seq::empty()
    } else if pairs.last().0 == key {
        values_of(pairs.drop_last(), key).push(pairs.last().1)
    } else {
        values_of(pairs.drop_last(), key)
    }
}

/// The parameters of a form body.
pub open spec fn params_of(value: Seq<char>) -> Seq<Seq<char>> {
    split_spec(value, seq!['&'])
}

/// The characters of each pair.
pub open spec fn pair_views(v: Seq<(String, String)>) -> Seq<(Seq<char>, Seq<char>)> {
    v.map_values(|p: (String, String)| (p.0@, p.1@))
}

fn contains_key(keys: &Vec<String>, k: &[char]) -> (r: bool)
    ensures
        r == views(keys@).contains(k@),
{
    let mut i: usize = 0;
    while i < keys.len()
        invariant
            i <= keys@.len(),
            forall|j: int| 0 <= j < i ==> views(keys@)[j] != k@,
        decreases keys@.len() - i,
    {
        let c = chars_of(keys[i].as_str());
        if chars_eq(c.as_slice(), k) {
            assert(views(keys@)[i as int] == k@);
            return true;
        }
        i = i + 1;
    }
    assert(!views(keys@).contains(k@)) by {
        if views(keys@).contains(k@) {
            let j = choose|j: int| 0 <= j < views(keys@).len() && views(keys@)[j] == k@;
            assert(views(keys@)[j] != k@);
        }
    }
    false
}

fn parse_pair(param: &String) -> (r: Result<(String, String), FormError>)
    ensures
        match r {
            Ok(p) => pair_of(param@) == Ok::<(Seq<char>, Seq<char>), SpecFormError>((p.0@, p.1@)),
            Err(e) => pair_of(param@) == Err::<(Seq<char>, Seq<char>), SpecFormError>(e@),
        },
{
    let c = chars_of(param.as_str());
    let eq = ['='];
    let parts = split_chars(c.as_slice(), eq.as_slice());
    assert(eq@ =~= seq!['=']);
    if parts.len() < 2 {
        return Err(FormError::MissingValue);
    }
    assert(views(parts@)[1] == parts@[1]@);
    assert(views(parts@)[0] == parts@[0]@);
    match url_decode(parts[1].as_str()) {
        None => Err(FormError::InvalidEncoding),
        Some(v) => Ok((parts[0].clone(), v)),
    }
}

/// The pairs of a form body, in order, or the first refusal.
pub fn query_pairs_of(value: &str, keys: &Vec<String>) -> (r: Result<Vec<(String, String)>, FormError>)
    ensures
        match r {
            Ok(ps) => query_pairs(params_of(value@), views(keys@)) == Ok::<
                Seq<(Seq<char>, Seq<char>)>,
                SpecFormError,
            >(pair_views(ps@)),
            Err(e) => query_pairs(params_of(value@), views(keys@)) == Err::<
                Seq<(Seq<char>, Seq<char>)>,
                SpecFormError,
            >(e@),
        },
{
    let c = chars_of(value);
    let amp = ['&'];
    assert(amp@ =~= seq!['&']);
    let params = split_chars(c.as_slice(), amp.as_slice());
    let ghost ps = views(params@);
    let mut out: Vec<(String, String)> = Vec::new();
    assert(ps.subrange(0, 0) =~= Seq::<Seq<char>>::empty());
    assert(pair_views(out@) =~= Seq::<(Seq<char>, Seq<char>)>::empty());
    let mut i: usize = 0;
    while i < params.len()
        invariant
            i <= params@.len(),
            ps == views(params@),
            ps == params_of(value@),
            query_pairs(ps.subrange(0, i as int), views(keys@)) == Ok::<
                Seq<(Seq<char>, Seq<char>)>,
                SpecFormError,
            >(pair_views(out@)),
        decreases params@.len() - i,
    {
        assert(ps.subrange(0, i + 1).drop_last() =~= ps.subrange(0, i as int));
        assert(ps.subrange(0, i + 1).last() == params@[i as int]@);
        match parse_pair(&params[i]) {
            Err(e) => {
                proof {
                    lemma_query_pairs_err_prefix(ps, views(keys@), i + 1, e@);
                }
                return Err(e);
            },
            Ok(p) => {
                let k = chars_of(p.0.as_str());
                if !contains_key(keys, k.as_slice()) {
                    let err = FormError::UnknownField(p.0);
                    proof {
                        lemma_query_pairs_err_prefix(ps, views(keys@), i + 1, err@);
                    }
                    return Err(err);
                }
                let ghost old_out = out@;
                out.push(p);
                assert(pair_views(out@) =~= pair_views(old_out).push((p.0@, p.1@)));
            },
        }
        i = i + 1;
    }
    assert(ps.subrange(0, params@.len() as int) =~= ps);
    Ok(out)
}

/// Once the pairs of a prefix of the parameters fail, so do those of all the
/// parameters.
pub proof fn lemma_query_pairs_err_prefix(
    params: Seq<Seq<char>>,
    keys: Seq<Seq<char>>,
    n: int,
    e: SpecFormError,
)
    requires
        0 <= n <= params.len(),
        query_pairs(params.subrange(0, n), keys) == Err::<Seq<(Seq<char>, Seq<char>)>, SpecFormError>(e),
    ensures
        query_pairs(params, keys) == Err::<Seq<(Seq<char>, Seq<char>)>, SpecFormError>(e),
    decreases params.len() - n,
{
    if n < params.len() {
        assert(params.subrange(0, n + 1).drop_last() =~= params.subrange(0, n));
        lemma_query_pairs_err_prefix(params, keys, n + 1, e);
    } else {
        assert(params.subrange(0, n) =~= params);
    }
}

fn last_value_exec(pairs: &Vec<(String, String)>, keys: &Vec<String>) -> (r: Option<String>)
    ensures
        match r {
            Some(v) => last_value(pair_views(pairs@), views(keys@)) == Some(v@),
            None => last_value(pair_views(pairs@), views(keys@)) is None,
        },
{
    let mut found: Option<String> = None;
    let ghost pv = pair_views(pairs@);
    let mut i: usize = 0;
    while i < pairs.len()
        invariant
            i <= pairs@.len(),
            pv == pair_views(pairs@),
            match found {
                Some(v) => last_value(pv.subrange(0, i as int), views(keys@)) == Some(v@),
                None => last_value(pv.subrange(0, i as int), views(keys@)) is None,
            },
        decreases pairs@.len() - i,
    {
        assert(pv.subrange(0, i + 1).drop_last() =~= pv.subrange(0, i as int));
        let k = chars_of(pairs[i].0.as_str());
        if contains_key(keys, k.as_slice()) {
            found = Some(pairs[i].1.clone());
        }
        i = i + 1;
    }
    assert(pv.subrange(0, pairs@.len() as int) =~= pv);
    found
}

fn values_of_exec(pairs: &Vec<(String, String)>, key: &str) -> (r: Vec<String>)
    ensures
        views(r@) == values_of(pair_views(pairs@), key@),
{
    let kc = chars_of(key);
    let mut out: Vec<String> = Vec::new();
    let ghost pv = pair_views(pairs@);
    let mut i: usize = 0;
    while i < pairs.len()
        invariant
            i <= pairs@.len(),
            pv == pair_views(pairs@),
            kc@ == key@,
            views(out@) == values_of(pv.subrange(0, i as int), key@),
        decreases pairs@.len() - i,
    {
        assert(pv.subrange(0, i + 1).drop_last() =~= pv.subrange(0, i as int));
        let k = chars_of(pairs[i].0.as_str());
        if chars_eq(k.as_slice(), kc.as_slice()) {
            let ghost old_out = out@;
            out.push(pairs[i].1.clone());
            assert(views(out@) =~= views(old_out).push(pairs@[i as int].1@));
        }
        i = i + 1;
    }
    assert(pv.subrange(0, pairs@.len() as int) =~= pv);
    out
}

fn string_of(s: &str) -> (r: String)
    ensures
        r@ == s@,
{
    let c = chars_of(s);
    string_from_chars(c.as_slice())
}

/// The keys of a group form.
pub open spec fn group_form_keys() -> Seq<Seq<char>> {
    seq!["name"@, "subscriptions"@, "last_updated_by"@]
}

/// The keys of a user form; `sub` names the e-mail too.
pub open spec fn user_form_keys() -> Seq<Seq<char>> {
    seq!["email"@, "sub"@, "groups"@, "user_type"@, "last_updated_by"@]
}

/// The keys of a user deletion form.
pub open spec fn user_delete_form_keys() -> Seq<Seq<char>> {
    seq!["email"@, "last_updated_by"@]
}

/// The mathematical value of a group form.
pub struct SpecGroupForm {
    pub name: Seq<char>,
    pub subscriptions: Seq<Seq<char>>,
    pub last_updated_by: Seq<char>,
}

/// What a group form body yields.
pub open spec fn spec_group_form(value: Seq<char>) -> Result<SpecGroupForm, SpecFormError> {
    match query_pairs(params_of(value), group_form_keys()) {
        Err(e) => Err(e),
        Ok(ps) => match last_value(ps, seq!["name"@]) {
            None => Err(SpecFormError::MissingField("name"@)),
            Some(name) => match last_value(ps, seq!["last_updated_by"@]) {
                None => Err(SpecFormError::MissingField("last_updated_by"@)),
                Some(by) => Ok(
                    SpecGroupForm {
                        name,
                        subscriptions: values_of(ps, "subscriptions"@),
                        last_updated_by: by,
                    },
                ),
            },
        },
    }
}

impl View for GroupForm {
    type V = SpecGroupForm;

    open spec fn view(&self) -> SpecGroupForm {
        SpecGroupForm {
            name: self.name@,
            subscriptions: views(self.subscriptions@),
            last_updated_by: self.last_updated_by@,
        }
    }
}

fn keys_of(a: &str, b: &str, c: &str) -> (r: Vec<String>)
    ensures
        views(r@) == seq![a@, b@, c@],
{
    let mut v: Vec<String> = Vec::new();
    v.push(string_of(a));
    v.push(string_of(b));
    v.push(string_of(c));
    assert(views(v@) =~= seq![a@, b@, c@]);
    v
}

fn key_vec(a: &str) -> (r: Vec<String>)
    ensures
        views(r@) == seq![a@],
{
    let mut v: Vec<String> = Vec::new();
    v.push(string_of(a));
    assert(views(v@) =~= seq![a@]);
    v
}

impl GroupForm {
    /// Reads a group form from a URL-encoded body: `name` and
    /// `last_updated_by` are required (the last occurrence counts),
    /// `subscriptions` may repeat, and any other key is refused.
    pub fn from_query(value: &str) -> (r: Result<GroupForm, FormError>)
        ensures
            match r {
                Ok(f) => spec_group_form(value@) == Ok::<SpecGroupForm, SpecFormError>(f@),
                Err(e) => spec_group_form(value@) == Err::<SpecGroupForm, SpecFormError>(e@),
            },
    {
        let keys = keys_of("name", "subscriptions", "last_updated_by");
        let pairs = query_pairs_of(value, &keys)?;
        let name_key = key_vec("name");
        let by_key = key_vec("last_updated_by");
        let name = match last_value_exec(&pairs, &name_key) {
            Some(n) => n,
            None => {
                return Err(FormError::MissingField(string_of("name")));
            },
        };
        let last_updated_by = match last_value_exec(&pairs, &by_key) {
            Some(b) => b,
            None => {
                return Err(FormError::MissingField(string_of("last_updated_by")));
            },
        };
        let subscriptions = values_of_exec(&pairs, "subscriptions");
        Ok(GroupForm { name, subscriptions, last_updated_by })
    }
}

fn push_key(v: &mut Vec<String>, a: &str)
    ensures
        views(final(v)@) == views(old(v)@).push(a@),
{
    let ghost before = v@;
    v.push(string_of(a));
    assert(views(v@) =~= views(before).push(a@));
}

/// The mathematical value of a user form.
pub struct SpecUserForm {
    pub email: Seq<char>,
    pub groups: Seq<Seq<char>>,
    pub user_type: Option<UserType>,
    pub last_updated_by: Seq<char>,
}

impl View for UserForm {
    type V = SpecUserForm;

    open spec fn view(&self) -> SpecUserForm {
        SpecUserForm {
            email: self.email@,
            groups: views(self.groups@),
            user_type: self.user_type,
            last_updated_by: self.last_updated_by@,
        }
    }
}

/// What a user form body yields: the e-mail (under `email` or `sub`) and
/// `last_updated_by` are required, `groups` may repeat, and `user_type` is
/// read as a role name.
pub open spec fn spec_user_form(value: Seq<char>) -> Result<SpecUserForm, SpecFormError> {
    match query_pairs(params_of(value), user_form_keys()) {
        Err(e) => Err(e),
        Ok(ps) => match last_value(ps, seq!["email"@, "sub"@]) {
            None => Err(SpecFormError::MissingField("name"@)),
            Some(email) => match last_value(ps, seq!["last_updated_by"@]) {
                None => Err(SpecFormError::MissingField("last_updated_by"@)),
                Some(by) => Ok(
                    SpecUserForm {
                        email,
                        groups: values_of(ps, "groups"@),
                        user_type: match last_value(ps, seq!["user_type"@]) {
                            None => None,
                            Some(t) => Some(user_type_of(t)),
                        },
                        last_updated_by: by,
                    },
                ),
            },
        },
    }
}

impl UserForm {
    /// Reads a user form from a URL-encoded body.
    pub fn from_query(value: &str) -> (r: Result<UserForm, FormError>)
        ensures
            match r {
                Ok(f) => spec_user_form(value@) == Ok::<SpecUserForm, SpecFormError>(f@),
                Err(e) => spec_user_form(value@) == Err::<SpecUserForm, SpecFormError>(e@),
            },
    {
        let mut keys: Vec<String> = Vec::new();
        push_key(&mut keys, "email");
        push_key(&mut keys, "sub");
        push_key(&mut keys, "groups");
        push_key(&mut keys, "user_type");
        push_key(&mut keys, "last_updated_by");
        assert(views(keys@) =~= user_form_keys());
        let pairs = query_pairs_of(value, &keys)?;
        let mut email_keys: Vec<String> = Vec::new();
        push_key(&mut email_keys, "email");
        push_key(&mut email_keys, "sub");
        assert(views(email_keys@) =~= seq!["email"@, "sub"@]);
        let email = match last_value_exec(&pairs, &email_keys) {
            Some(e) => e,
            None => {
                return Err(FormError::MissingField(string_of("name")));
            },
        };
        let type_key = key_vec("user_type");
        let user_type = match last_value_exec(&pairs, &type_key) {
            Some(t) => Some(UserType::from_name(t.as_str())),
            None => None,
        };
        let by_key = key_vec("last_updated_by");
        let last_updated_by = match last_value_exec(&pairs, &by_key) {
            Some(b) => b,
            None => {
                return Err(FormError::MissingField(string_of("last_updated_by")));
            },
        };
        let groups = values_of_exec(&pairs, "groups");
        Ok(UserForm { email, groups, user_type, last_updated_by })
    }
}

/// The mathematical value of a user deletion form.
pub struct SpecUserDeleteForm {
    pub email: Seq<char>,
    pub last_updated_by: Seq<char>,
}

impl View for UserDeleteForm {
    type V = SpecUserDeleteForm;

    open spec fn view(&self) -> SpecUserDeleteForm {
        SpecUserDeleteForm { email: self.email@, last_updated_by: self.last_updated_by@ }
    }
}

/// What a user deletion form body yields: `email` and `last_updated_by` are
/// both required.
pub open spec fn spec_user_delete_form(value: Seq<char>) -> Result<SpecUserDeleteForm, SpecFormError> {
    match query_pairs(params_of(value), user_delete_form_keys()) {
        Err(e) => Err(e),
        Ok(ps) => match last_value(ps, seq!["email"@]) {
            None => Err(SpecFormError::MissingField("name"@)),
            Some(email) => match last_value(ps, seq!["last_updated_by"@]) {
                None => Err(SpecFormError::MissingField("last_updated_by"@)),
                Some(by) => Ok(SpecUserDeleteForm { email, last_updated_by: by }),
            },
        },
    }
}

impl UserDeleteForm {
    /// Reads a user deletion form from a URL-encoded body.
    pub fn from_query(value: &str) -> (r: Result<UserDeleteForm, FormError>)
        ensures
            match r {
                Ok(f) => spec_user_delete_form(value@) == Ok::<SpecUserDeleteForm, SpecFormError>(f@),
                Err(e) => spec_user_delete_form(value@) == Err::<SpecUserDeleteForm, SpecFormError>(e@),
            },
    {
        let mut keys: Vec<String> = Vec::new();
        push_key(&mut keys, "email");
        push_key(&mut keys, "last_updated_by");
        assert(views(keys@) =~= user_delete_form_keys());
        let pairs = query_pairs_of(value, &keys)?;
        let email_key = key_vec("email");
        let email = match last_value_exec(&pairs, &email_key) {
            Some(e) => e,
            None => {
                return Err(FormError::MissingField(string_of("name")));
            },
        };
        let by_key = key_vec("last_updated_by");
        let last_updated_by = match last_value_exec(&pairs, &by_key) {
            Some(b) => b,
            None => {
                return Err(FormError::MissingField(string_of("last_updated_by")));
            },
        };
        Ok(UserDeleteForm { email, last_updated_by })
    }
}

} // verus!
