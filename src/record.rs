//! How a pending registration is laid out as a stored item of named
//! attributes, and how it is read back and judged when it is taken.
use vstd::prelude::*;

use crate::decimal::{decimal_text, i64_to_text, lemma_parse_decimal_text, parse_decimal, parse_i64};
use crate::model::{NewUserInfo, RegistrationError};

verus! {

/// A value of a stored attribute: text, a number written in decimal, a map
/// from names to text, or a kind that this library does not read.
#[derive(Clone, Debug)]
pub enum AttrValue {
    S(String),
    N(String),
    M(Vec<(String, String)>),
    Other,
}

/// What an attribute value holds.
pub enum AttrView {
    S(Seq<char>),
    N(Seq<char>),
    M(Seq<(Seq<char>, Seq<char>)>),
    Other,
}

impl View for AttrValue {
    type V = AttrView;

    open spec fn view(&self) -> AttrView {
        match self {
            AttrValue::S(s) => AttrView::S(s@),
            AttrValue::N(s) => AttrView::N(s@),
            AttrValue::M(m) => AttrView::M(m@.map_values(|e: (String, String)| (e.0@, e.1@))),
            AttrValue::Other => AttrView::Other,
        }
    }
}

/// A named attribute of a stored item.
#[derive(Clone, Debug)]
pub struct Attribute {
    pub name: String,
    pub value: AttrValue,
}

pub open spec fn item_view(item: Seq<Attribute>) -> Seq<(Seq<char>, AttrView)> {
    item.map_values(|a: Attribute| (a.name@, a.value@))
}

/// The first attribute named `name`, if any.
pub open spec fn lookup(item: Seq<(Seq<char>, AttrView)>, name: Seq<char>) -> Option<AttrView>
    decreases item.len(),
{
    if item.len() == 0 {
        None
    } else if item[0].0 == name {
        Some(item[0].1)
    } else {
        lookup(item.drop_first(), name)
    }
}

pub open spec fn name_pk() -> Seq<char> {
    seq!['p', 'k']
}

pub open spec fn name_ttl() -> Seq<char> {
    seq!['t', 't', 'l']
}

pub open spec fn name_user_id() -> Seq<char> {
    seq!['u', 's', 'e', 'r', 'I', 'd']
}

pub open spec fn name_user_info() -> Seq<char> {
    seq!['u', 's', 'e', 'r', 'I', 'n', 'f', 'o']
}

pub open spec fn name_username() -> Seq<char> {
    seq!['u', 's', 'e', 'r', 'n', 'a', 'm', 'e']
}

pub open spec fn name_display_name() -> Seq<char> {
    seq!['d', 'i', 's', 'p', 'l', 'a', 'y', 'N', 'a', 'm', 'e']
}

pub open spec fn name_state() -> Seq<char> {
    seq!['s', 't', 'a', 't', 'e']
}

/// The store key of the pending registration with id `session_id`.
pub open spec fn session_key(session_id: Seq<char>) -> Seq<char> {
    seq!['r', 'e', 'g', 'i', 's', 't', 'r', 'a', 't', 'i', 'o', 'n', '#'] + session_id
}

/// The stored item of a pending registration.
pub open spec fn pending_item(
    session_id: Seq<char>,
    user_handle: Seq<char>,
    username: Seq<char>,
    display_name: Seq<char>,
    ceremony_state: Seq<char>,
    expires_at: int,
) -> Seq<(Seq<char>, AttrView)> {
    seq![
        (name_pk(), AttrView::S(session_key(session_id))),
        (name_ttl(), AttrView::N(decimal_text(expires_at))),
        (name_user_id(), AttrView::S(user_handle)),
        (name_user_info(), AttrView::M(seq![(name_username(), username), (name_display_name(), display_name)])),
        (name_state(), AttrView::S(ceremony_state)),
    ]
}

/// The text attribute named `name`, if the item has one.
pub open spec fn stored_text(item: Seq<(Seq<char>, AttrView)>, name: Seq<char>) -> Option<Seq<char>> {
    match lookup(item, name) {
        Some(AttrView::S(t)) => Some(t),
        _ => None,
    }
}

/// The expiry instant of a stored item, if it has a well-formed one.
pub open spec fn stored_expiry(item: Seq<(Seq<char>, AttrView)>) -> Option<int> {
    match lookup(item, name_ttl()) {
        Some(AttrView::N(t)) => parse_decimal(t),
        _ => None,
    }
}

/// The item has all that a registration needs to be finished.
pub open spec fn well_formed_item(item: Seq<(Seq<char>, AttrView)>) -> bool {
    &&& stored_expiry(item) is Some
    &&& stored_text(item, name_user_id()) is Some
    &&& stored_text(item, name_state()) is Some
}

pub open spec fn taken_view(taken: Option<&Vec<Attribute>>) -> Option<Seq<(Seq<char>, AttrView)>> {
    match taken {
        Some(t) => Some(item_view(t@)),
        None => None,
    }
}

/// What a taken record allows: `Ok` when it may go on to verification.
pub open spec fn session_outcome(taken: Option<Seq<(Seq<char>, AttrView)>>, now: int) -> Result<(), RegistrationError> {
    match taken {
        None => Err(RegistrationError::SessionNotFound),
        Some(item) => if stored_expiry(item) is None {
            Err(RegistrationError::MalformedSession)
        } else if now >= stored_expiry(item)->0 {
            Err(RegistrationError::Expired)
        } else if !well_formed_item(item) {
            Err(RegistrationError::MalformedSession)
        } else {
            Ok(())
        },
    }
}

/// A stored pending registration reads back as it was written: its expiry
/// instant, user handle and ceremony state, so that taking it at `now` gives
/// `Expired` exactly when `now` is at or after that instant.
pub proof fn lemma_pending_item_round_trip(
    session_id: Seq<char>,
    user_handle: Seq<char>,
    username: Seq<char>,
    display_name: Seq<char>,
    ceremony_state: Seq<char>,
    expires_at: i64,
    now: int,
)
    ensures
        ({
            let item = pending_item(session_id, user_handle, username, display_name, ceremony_state, expires_at as int);
            &&& stored_expiry(item) == Some(expires_at as int)
            &&& stored_text(item, name_user_id()) == Some(user_handle)
            &&& stored_text(item, name_state()) == Some(ceremony_state)
            &&& well_formed_item(item)
            &&& session_outcome(Some(item), now) == if now >= expires_at {
                Err::<(), RegistrationError>(RegistrationError::Expired)
            } else {
                Ok(())
            }
        }),
{
    let item = pending_item(session_id, user_handle, username, display_name, ceremony_state, expires_at as int);
    lemma_parse_decimal_text(expires_at);
    assert(name_pk().len() != name_ttl().len());
    assert(name_pk().len() != name_user_id().len());
    assert(name_pk().len() != name_state().len());
    assert(name_ttl().len() != name_user_id().len());
    assert(name_ttl().len() != name_state().len());
    assert(name_user_id().len() != name_state().len());
    assert(name_user_info().len() != name_state().len());
    reveal_with_fuel(lookup, 6);
    let i1 = item.drop_first();
    let i2 = i1.drop_first();
    let i3 = i2.drop_first();
    let i4 = i3.drop_first();
    assert(i1[0] == item[1] && i2[0] == item[2] && i3[0] == item[3] && i4[0] == item[4]);
    assert(i1.len() == 4 && i2.len() == 3 && i3.len() == 2 && i4.len() == 1);
    assert(lookup(item, name_ttl()) == Some(AttrView::N(decimal_text(expires_at as int))));
    assert(lookup(item, name_user_id()) == Some(AttrView::S(user_handle)));
    assert(lookup(item, name_state()) == Some(AttrView::S(ceremony_state)));
}

/// A taken record whose expiry instant is readable and has come is
/// `Expired`, whatever else it holds or lacks.
pub proof fn lemma_expired_whatever_else(item: Seq<(Seq<char>, AttrView)>, now: int)
    requires
        stored_expiry(item) is Some,
        now >= stored_expiry(item)->0,
    ensures
        session_outcome(Some(item), now) == Err::<(), RegistrationError>(RegistrationError::Expired),
{
}

/// A taken pending registration that is still within its lifetime.
#[derive(Clone, Debug)]
pub struct LiveSession {
    pub user_handle: String,
    pub ceremony_state: String,
    pub expires_at: i64,
}

fn text_pk() -> (r: String)
    ensures
        r@ == name_pk(),
{
    proof {
        reveal_strlit("pk");
    }
    String::from_str("pk")
}

fn text_ttl() -> (r: String)
    ensures
        r@ == name_ttl(),
{
    proof {
        reveal_strlit("ttl");
    }
    String::from_str("ttl")
}

fn text_user_id() -> (r: String)
    ensures
        r@ == name_user_id(),
{
    proof {
        reveal_strlit("userId");
    }
    String::from_str("userId")
}

fn text_user_info() -> (r: String)
    ensures
        r@ == name_user_info(),
{
    proof {
        reveal_strlit("userInfo");
    }
    String::from_str("userInfo")
}

fn text_username() -> (r: String)
    ensures
        r@ == name_username(),
{
    proof {
        reveal_strlit("username");
    }
    String::from_str("username")
}

fn text_display_name() -> (r: String)
    ensures
        r@ == name_display_name(),
{
    proof {
        reveal_strlit("displayName");
    }
    String::from_str("displayName")
}

fn text_state() -> (r: String)
    ensures
        r@ == name_state(),
{
    proof {
        reveal_strlit("state");
    }
    String::from_str("state")
}

/// The store key of the pending registration with id `session_id`.
pub fn session_key_of(session_id: &str) -> (r: String)
    ensures
        r@ == session_key(session_id@),
{
    proof {
        reveal_strlit("registration#");
    }
    let mut key = String::from_str("registration#");
    key.append(session_id);
    key
}

/// The stored item of the pending registration `session_id`, which expires
/// at `expires_at`.
pub fn encode_pending(
    session_id: &str,
    user_handle: &str,
    user_info: &NewUserInfo,
    ceremony_state: &str,
    expires_at: i64,
) -> (item: Vec<Attribute>)
    ensures
        item_view(item@) == pending_item(
            session_id@,
            user_handle@,
            user_info.username@,
            user_info.display_name@,
            ceremony_state@,
            expires_at as int,
        ),
{
    let mut info: Vec<(String, String)> = Vec::new();
    info.push((text_username(), user_info.username.clone()));
    info.push((text_display_name(), user_info.display_name.clone()));
    let mut item: Vec<Attribute> = Vec::new();
    item.push(Attribute { name: text_pk(), value: AttrValue::S(session_key_of(session_id)) });
    item.push(Attribute { name: text_ttl(), value: AttrValue::N(i64_to_text(expires_at)) });
    item.push(Attribute { name: text_user_id(), value: AttrValue::S(String::from_str(user_handle)) });
    item.push(Attribute { name: text_user_info(), value: AttrValue::M(info) });
    item.push(Attribute { name: text_state(), value: AttrValue::S(String::from_str(ceremony_state)) });
    let ghost want = pending_item(
        session_id@,
        user_handle@,
        user_info.username@,
        user_info.display_name@,
        ceremony_state@,
        expires_at as int,
    );
    assert(info@.map_values(|e: (String, String)| (e.0@, e.1@)) =~= seq![
        (name_username(), user_info.username@),
        (name_display_name(), user_info.display_name@),
    ]);
    assert(item_view(item@) =~= want);
    item
}

/// The first attribute of `item` named `name`.
pub fn find_attr<'a>(item: &'a Vec<Attribute>, name: &String) -> (r: Option<&'a AttrValue>)
    ensures
        match r {
            Some(v) => lookup(item_view(item@), name@) == Some(v@),
            None => lookup(item_view(item@), name@) is None,
        },
{
    let mut i: usize = 0;
    assert(item_view(item@).skip(0) =~= item_view(item@));
    while i < item.len()
        invariant
            i <= item.len(),
            lookup(item_view(item@), name@) == lookup(item_view(item@).skip(i as int), name@),
        decreases item.len() - i,
    {
        let ghost rest = item_view(item@).skip(i as int);
        assert(rest.drop_first() =~= item_view(item@).skip(i as int + 1));
        if item[i].name == *name {
            return Some(&item[i].value);
        }
        i = i + 1;
    }
    assert(item_view(item@).skip(i as int) =~= Seq::<(Seq<char>, AttrView)>::empty());
    None
}

/// Judges a record taken from the session store at instant `now`: absent,
/// without a readable expiry, expired (whatever else it lacks), missing its
/// user handle or state, or live. A live one is handed back as read.
pub fn check_taken(taken: Option<&Vec<Attribute>>, now: i64) -> (r: Result<LiveSession, RegistrationError>)
    ensures
        r is Ok <==> session_outcome(taken_view(taken), now as int) is Ok,
        r matches Err(e) ==> session_outcome(taken_view(taken), now as int) == Err::<(), _>(e),
        r is Ok ==> {
            let item = item_view(taken->0@);
            &&& r->Ok_0.expires_at as int == stored_expiry(item)->0
            &&& Some(r->Ok_0.user_handle@) == stored_text(item, name_user_id())
            &&& Some(r->Ok_0.ceremony_state@) == stored_text(item, name_state())
        },
{
    let item = match taken {
        None => {
            return Err(RegistrationError::SessionNotFound);
        },
        Some(item) => item,
    };
    let expires_at = match find_attr(item, &text_ttl()) {
        Some(AttrValue::N(t)) => match parse_i64(t.as_str()) {
            Some(v) => v,
            None => {
                return Err(RegistrationError::MalformedSession);
            },
        },
        _ => {
            return Err(RegistrationError::MalformedSession);
        },
    };
    if now >= expires_at {
        return Err(RegistrationError::Expired);
    }
    let user_handle = match find_attr(item, &text_user_id()) {
        Some(AttrValue::S(t)) => t.clone(),
        _ => {
            return Err(RegistrationError::MalformedSession);
        },
    };
    let ceremony_state = match find_attr(item, &text_state()) {
        Some(AttrValue::S(t)) => t.clone(),
        _ => {
            return Err(RegistrationError::MalformedSession);
        },
    };
    Ok(LiveSession { user_handle, ceremony_state, expires_at })
}

} // verus!
