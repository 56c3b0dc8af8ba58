//! A verified in-memory identity handler.
//!
//! The store keeps the sessions proved by access tokens and the links from
//! refresh tokens to the access token they can replace, and implements the
//! [`AuthHandler`] contract exactly: verification is a pure lookup,
//! renewal keeps the session, revocation erases it, and revoking a refresh
//! token also erases the access session it is linked to.  An embedding
//! application can use it directly as its session backend; the endpoint
//! operations — creating a session at login and rotating the access token
//! at the refresh endpoint — are offered as ordinary methods.

use vstd::prelude::*;

use std::sync::Arc;

use crate::auth_error::STATUS_UNAUTHORIZED;
use crate::auth_handler::AuthHandler;
use crate::auth_handler::arc_clone;
use crate::tokens::AccessToken;
use crate::tokens::RefreshToken;

verus! {

/// The map described by an association list of sessions: a later entry
/// with the same key would shadow an earlier one, but the store keeps its
/// keys unique.
spec fn sessions_map_of<LoginInfoType>(
    entries: Seq<(AccessToken, Arc<LoginInfoType>)>,
) -> Map<Seq<char>, LoginInfoType>
    decreases entries.len(),
{
    if entries.len() == 0 {
        Map::empty()
    } else {
        sessions_map_of(entries.drop_last()).insert(entries.last().0@, *entries.last().1)
    }
}

/// The map described by an association list of refresh-token links.
spec fn refresh_map_of(entries: Seq<(RefreshToken, AccessToken)>) -> Map<Seq<char>, Seq<char>>
    decreases entries.len(),
{
    if entries.len() == 0 {
        Map::empty()
    } else {
        refresh_map_of(entries.drop_last()).insert(entries.last().0@, entries.last().1@)
    }
}

/// No two session entries share a token string.
spec fn unique_access_keys<LoginInfoType>(entries: Seq<(AccessToken, Arc<LoginInfoType>)>) -> bool {
    forall|i: int, j: int| 0 <= i < j < entries.len() ==> entries[i].0@ != entries[j].0@
}

/// No two link entries share a refresh-token string.
spec fn unique_refresh_keys(entries: Seq<(RefreshToken, AccessToken)>) -> bool {
    forall|i: int, j: int| 0 <= i < j < entries.len() ==> entries[i].0@ != entries[j].0@
}

proof fn lemma_sessions_map_contains<LoginInfoType>(
    entries: Seq<(AccessToken, Arc<LoginInfoType>)>,
    key: Seq<char>,
)
    ensures
        sessions_map_of(entries).contains_key(key) <==> (exists|i: int|
            0 <= i < entries.len() && entries[i].0@ == key),
    decreases entries.len(),
{
    if entries.len() > 0 {
        lemma_sessions_map_contains(entries.drop_last(), key);
        if entries.last().0@ == key {
            assert(entries[entries.len() - 1].0@ == key);
        } else {
            if sessions_map_of(entries).contains_key(key) {
                let i = choose|i: int|
                    0 <= i < entries.drop_last().len() && entries.drop_last()[i].0@ == key;
                assert(entries[i].0@ == key);
            }
            if exists|i: int| 0 <= i < entries.len() && entries[i].0@ == key {
                let i = choose|i: int| 0 <= i < entries.len() && entries[i].0@ == key;
                assert(entries.drop_last()[i].0@ == key);
            }
        }
    }
}

proof fn lemma_refresh_map_contains(entries: Seq<(RefreshToken, AccessToken)>, key: Seq<char>)
    ensures
        refresh_map_of(entries).contains_key(key) <==> (exists|i: int|
            0 <= i < entries.len() && entries[i].0@ == key),
    decreases entries.len(),
{
    if entries.len() > 0 {
        lemma_refresh_map_contains(entries.drop_last(), key);
        if entries.last().0@ == key {
            assert(entries[entries.len() - 1].0@ == key);
        } else {
            if refresh_map_of(entries).contains_key(key) {
                let i = choose|i: int|
                    0 <= i < entries.drop_last().len() && entries.drop_last()[i].0@ == key;
                assert(entries[i].0@ == key);
            }
            if exists|i: int| 0 <= i < entries.len() && entries[i].0@ == key {
                let i = choose|i: int| 0 <= i < entries.len() && entries[i].0@ == key;
                assert(entries.drop_last()[i].0@ == key);
            }
        }
    }
}

proof fn lemma_unique_access_drop_last<LoginInfoType>(
    entries: Seq<(AccessToken, Arc<LoginInfoType>)>,
)
    requires
        unique_access_keys(entries),
        entries.len() > 0,
    ensures
        unique_access_keys(entries.drop_last()),
{
    assert forall|i: int, j: int|
        0 <= i < j < entries.drop_last().len() implies entries.drop_last()[i].0@
        != entries.drop_last()[j].0@ by {
        assert(entries.drop_last()[i] == entries[i]);
        assert(entries.drop_last()[j] == entries[j]);
    }
}

proof fn lemma_unique_refresh_drop_last(entries: Seq<(RefreshToken, AccessToken)>)
    requires
        unique_refresh_keys(entries),
        entries.len() > 0,
    ensures
        unique_refresh_keys(entries.drop_last()),
{
    assert forall|i: int, j: int|
        0 <= i < j < entries.drop_last().len() implies entries.drop_last()[i].0@
        != entries.drop_last()[j].0@ by {
        assert(entries.drop_last()[i] == entries[i]);
        assert(entries.drop_last()[j] == entries[j]);
    }
}

proof fn lemma_sessions_map_index<LoginInfoType>(
    entries: Seq<(AccessToken, Arc<LoginInfoType>)>,
    i: int,
)
    requires
        unique_access_keys(entries),
        0 <= i < entries.len(),
    ensures
        sessions_map_of(entries).contains_key(entries[i].0@),
        sessions_map_of(entries)[entries[i].0@] == *entries[i].1,
    decreases entries.len(),
{
    if i == entries.len() - 1 {
        assert(entries.last() == entries[i]);
    } else {
        lemma_unique_access_drop_last(entries);
        lemma_sessions_map_index(entries.drop_last(), i);
        assert(entries.drop_last()[i] == entries[i]);
        assert(entries[entries.len() - 1].0@ != entries[i].0@);
    }
}

proof fn lemma_refresh_map_index(entries: Seq<(RefreshToken, AccessToken)>, i: int)
    requires
        unique_refresh_keys(entries),
        0 <= i < entries.len(),
    ensures
        refresh_map_of(entries).contains_key(entries[i].0@),
        refresh_map_of(entries)[entries[i].0@] == entries[i].1@,
    decreases entries.len(),
{
    if i == entries.len() - 1 {
        assert(entries.last() == entries[i]);
    } else {
        lemma_unique_refresh_drop_last(entries);
        lemma_refresh_map_index(entries.drop_last(), i);
        assert(entries.drop_last()[i] == entries[i]);
        assert(entries[entries.len() - 1].0@ != entries[i].0@);
    }
}

proof fn lemma_sessions_map_push<LoginInfoType>(
    entries: Seq<(AccessToken, Arc<LoginInfoType>)>,
    token: AccessToken,
    login_info: Arc<LoginInfoType>,
)
    requires
        unique_access_keys(entries),
        !sessions_map_of(entries).contains_key(token@),
    ensures
        sessions_map_of(entries.push((token, login_info))) == sessions_map_of(entries).insert(
            token@,
            *login_info,
        ),
        unique_access_keys(entries.push((token, login_info))),
{
    let pushed = entries.push((token, login_info));
    assert(pushed.drop_last() =~= entries);
    assert(pushed.last() == (token, login_info));
    lemma_sessions_map_contains(entries, token@);
    assert forall|i: int, j: int|
        0 <= i < j < pushed.len() implies pushed[i].0@ != pushed[j].0@ by {
        if j < pushed.len() - 1 {
            assert(pushed[i] == entries[i]);
            assert(pushed[j] == entries[j]);
        } else {
            assert(pushed[i] == entries[i]);
            assert(pushed[j].0@ == token@);
        }
    }
}

proof fn lemma_refresh_map_push(
    entries: Seq<(RefreshToken, AccessToken)>,
    token: RefreshToken,
    linked: AccessToken,
)
    requires
        unique_refresh_keys(entries),
        !refresh_map_of(entries).contains_key(token@),
    ensures
        refresh_map_of(entries.push((token, linked))) == refresh_map_of(entries).insert(
            token@,
            linked@,
        ),
        unique_refresh_keys(entries.push((token, linked))),
{
    let pushed = entries.push((token, linked));
    assert(pushed.drop_last() =~= entries);
    assert(pushed.last() == (token, linked));
    lemma_refresh_map_contains(entries, token@);
    assert forall|i: int, j: int|
        0 <= i < j < pushed.len() implies pushed[i].0@ != pushed[j].0@ by {
        if j < pushed.len() - 1 {
            assert(pushed[i] == entries[i]);
            assert(pushed[j] == entries[j]);
        } else {
            assert(pushed[i] == entries[i]);
            assert(pushed[j].0@ == token@);
        }
    }
}

proof fn lemma_sessions_map_remove<LoginInfoType>(
    entries: Seq<(AccessToken, Arc<LoginInfoType>)>,
    i: int,
)
    requires
        unique_access_keys(entries),
        0 <= i < entries.len(),
    ensures
        sessions_map_of(entries.remove(i)) == sessions_map_of(entries).remove(entries[i].0@),
        unique_access_keys(entries.remove(i)),
    decreases entries.len(),
{
    let removed = entries.remove(i);
    assert forall|a: int, b: int|
        0 <= a < b < removed.len() implies removed[a].0@ != removed[b].0@ by {
        assert(removed[a] == if a < i {
            entries[a]
        } else {
            entries[a + 1]
        });
        assert(removed[b] == if b < i {
            entries[b]
        } else {
            entries[b + 1]
        });
    }
    if i == entries.len() - 1 {
        assert(removed =~= entries.drop_last());
        lemma_unique_access_drop_last(entries);
        lemma_sessions_map_contains(entries.drop_last(), entries[i].0@);
        assert(!sessions_map_of(entries.drop_last()).contains_key(entries[i].0@)) by {
            if exists|j: int|
                0 <= j < entries.drop_last().len() && entries.drop_last()[j].0@ == entries[i].0@ {
                let j = choose|j: int|
                    0 <= j < entries.drop_last().len() && entries.drop_last()[j].0@
                        == entries[i].0@;
                assert(entries[j].0@ == entries[i].0@);
            }
        }
        assert(sessions_map_of(entries).remove(entries[i].0@) =~= sessions_map_of(
            entries.drop_last(),
        ));
    } else {
        lemma_unique_access_drop_last(entries);
        lemma_sessions_map_remove(entries.drop_last(), i);
        assert(removed.drop_last() =~= entries.drop_last().remove(i));
        assert(removed.last() == entries.last());
        assert(entries.drop_last()[i] == entries[i]);
        assert(entries[entries.len() - 1].0@ != entries[i].0@);
        assert(sessions_map_of(removed) =~= sessions_map_of(entries).remove(entries[i].0@));
    }
}

proof fn lemma_refresh_map_remove(entries: Seq<(RefreshToken, AccessToken)>, i: int)
    requires
        unique_refresh_keys(entries),
        0 <= i < entries.len(),
    ensures
        refresh_map_of(entries.remove(i)) == refresh_map_of(entries).remove(entries[i].0@),
        unique_refresh_keys(entries.remove(i)),
    decreases entries.len(),
{
    let removed = entries.remove(i);
    assert forall|a: int, b: int|
        0 <= a < b < removed.len() implies removed[a].0@ != removed[b].0@ by {
        assert(removed[a] == if a < i {
            entries[a]
        } else {
            entries[a + 1]
        });
        assert(removed[b] == if b < i {
            entries[b]
        } else {
            entries[b + 1]
        });
    }
    if i == entries.len() - 1 {
        assert(removed =~= entries.drop_last());
        lemma_unique_refresh_drop_last(entries);
        lemma_refresh_map_contains(entries.drop_last(), entries[i].0@);
        assert(!refresh_map_of(entries.drop_last()).contains_key(entries[i].0@)) by {
            if exists|j: int|
                0 <= j < entries.drop_last().len() && entries.drop_last()[j].0@ == entries[i].0@ {
                let j = choose|j: int|
                    0 <= j < entries.drop_last().len() && entries.drop_last()[j].0@
                        == entries[i].0@;
                assert(entries[j].0@ == entries[i].0@);
            }
        }
        assert(refresh_map_of(entries).remove(entries[i].0@) =~= refresh_map_of(
            entries.drop_last(),
        ));
    } else {
        lemma_unique_refresh_drop_last(entries);
        lemma_refresh_map_remove(entries.drop_last(), i);
        assert(removed.drop_last() =~= entries.drop_last().remove(i));
        assert(removed.last() == entries.last());
        assert(entries.drop_last()[i] == entries[i]);
        assert(entries[entries.len() - 1].0@ != entries[i].0@);
        assert(refresh_map_of(removed) =~= refresh_map_of(entries).remove(entries[i].0@));
    }
}

/// An in-memory session backend: the sessions proved by access tokens, the
/// links from refresh tokens to the access token they replace, and the
/// fixed time-to-live granted on renewal.
pub struct SessionStore<LoginInfoType> {
    sessions: Vec<(AccessToken, Arc<LoginInfoType>)>,
    refresh_links: Vec<(RefreshToken, AccessToken)>,
    renew_ttl_seconds: u64,
}

impl<LoginInfoType> SessionStore<LoginInfoType> {
    #[verifier::type_invariant]
    spec fn well_formed(self) -> bool {
        unique_access_keys(self.sessions@) && unique_refresh_keys(self.refresh_links@)
    }

    /// The sessions currently accepted, keyed by access-token string.
    pub closed spec fn sessions_map(&self) -> Map<Seq<char>, LoginInfoType> {
        sessions_map_of(self.sessions@)
    }

    /// The links currently accepted, from refresh-token string to the
    /// access-token string it can replace.
    pub closed spec fn refresh_map(&self) -> Map<Seq<char>, Seq<char>> {
        refresh_map_of(self.refresh_links@)
    }

    /// The time-to-live granted whenever an access token is renewed.
    pub closed spec fn renew_ttl(&self) -> u64 {
        self.renew_ttl_seconds
    }

    /// An empty store granting `renew_ttl_seconds` on every renewal.
    pub fn new(renew_ttl_seconds: u64) -> (r: Self)
        ensures
            r.sessions_map() == Map::<Seq<char>, LoginInfoType>::empty(),
            r.refresh_map() == Map::<Seq<char>, Seq<char>>::empty(),
            r.renew_ttl() == renew_ttl_seconds,
    {
        SessionStore { sessions: Vec::new(), refresh_links: Vec::new(), renew_ttl_seconds }
    }

    /// The index of the session entry for `access_token`, if any.
    fn find_session_index(&self, access_token: &AccessToken) -> (r: Option<usize>)
        ensures
            match r {
                Some(i) => i < self.sessions@.len() && self.sessions@[i as int].0@
                    == access_token@,
                None => !self.sessions_map().contains_key(access_token@),
            },
    {
        let n = self.sessions.len();
        let mut i: usize = 0;
        while i < n
            invariant
                i <= n,
                n == self.sessions@.len(),
                forall|j: int| 0 <= j < i ==> self.sessions@[j].0@ != access_token@,
            decreases n - i,
        {
            if self.sessions[i].0.value_eq(access_token) {
                return Some(i);
            }
            i = i + 1;
        }
        proof {
            lemma_sessions_map_contains(self.sessions@, access_token@);
        }
        None
    }

    /// The index of the link entry for `refresh_token`, if any.
    fn find_refresh_index(&self, refresh_token: &RefreshToken) -> (r: Option<usize>)
        ensures
            match r {
                Some(i) => i < self.refresh_links@.len() && self.refresh_links@[i as int].0@
                    == refresh_token@,
                None => !self.refresh_map().contains_key(refresh_token@),
            },
    {
        let n = self.refresh_links.len();
        let mut i: usize = 0;
        while i < n
            invariant
                i <= n,
                n == self.refresh_links@.len(),
                forall|j: int| 0 <= j < i ==> self.refresh_links@[j].0@ != refresh_token@,
            decreases n - i,
        {
            if self.refresh_links[i].0.value_eq(refresh_token) {
                return Some(i);
            }
            i = i + 1;
        }
        proof {
            lemma_refresh_map_contains(self.refresh_links@, refresh_token@);
        }
        None
    }

    /// Whether the store currently accepts `access_token` as proof of a
    /// session; lets a caller establish that a freshly minted token is not
    /// yet in use.
    pub fn contains_access_token(&self, access_token: &AccessToken) -> (r: bool)
        ensures
            r == self.sessions_map().contains_key(access_token@),
    {
        match self.find_session_index(access_token) {
            Some(i) => {
                proof {
                    lemma_sessions_map_contains(self.sessions@, access_token@);
                    assert(self.sessions@[i as int].0@ == access_token@);
                }
                true
            },
            None => false,
        }
    }

    /// Whether the store currently accepts `refresh_token`.
    pub fn contains_refresh_token(&self, refresh_token: &RefreshToken) -> (r: bool)
        ensures
            r == self.refresh_map().contains_key(refresh_token@),
    {
        match self.find_refresh_index(refresh_token) {
            Some(i) => {
                proof {
                    lemma_refresh_map_contains(self.refresh_links@, refresh_token@);
                    assert(self.refresh_links@[i as int].0@ == refresh_token@);
                }
                true
            },
            None => false,
        }
    }

    /// Exchanges the session list with `other`, which must keep its keys
    /// unique; used to edit the list without holding a reference into the
    /// store while its invariant is broken.
    fn swap_sessions(&mut self, other: &mut Vec<(AccessToken, Arc<LoginInfoType>)>)
        requires
            unique_access_keys(old(other)@),
        ensures
            final(self).sessions@ == old(other)@,
            final(other)@ == old(self).sessions@,
            final(self).refresh_links@ == old(self).refresh_links@,
            final(self).renew_ttl_seconds == old(self).renew_ttl_seconds,
    {
        proof {
            use_type_invariant(&*self);
        }
        core::mem::swap(&mut self.sessions, other);
    }

    /// Exchanges the link list with `other`, which must keep its keys
    /// unique.
    fn swap_refresh_links(&mut self, other: &mut Vec<(RefreshToken, AccessToken)>)
        requires
            unique_refresh_keys(old(other)@),
        ensures
            final(self).refresh_links@ == old(other)@,
            final(other)@ == old(self).refresh_links@,
            final(self).sessions@ == old(self).sessions@,
            final(self).renew_ttl_seconds == old(self).renew_ttl_seconds,
    {
        proof {
            use_type_invariant(&*self);
        }
        core::mem::swap(&mut self.refresh_links, other);
    }

    /// Begins a session: the freshly minted access token now proves
    /// `login_info`.  Tokens are minted by the caller and must be fresh.
    pub fn insert_session(&mut self, access_token: AccessToken, login_info: LoginInfoType)
        requires
            !old(self).sessions_map().contains_key(access_token@),
        ensures
            final(self).sessions_map() == old(self).sessions_map().insert(
                access_token@,
                login_info,
            ),
            final(self).refresh_map() == old(self).refresh_map(),
            final(self).renew_ttl() == old(self).renew_ttl(),
    {
        let shared = Arc::new(login_info);
        proof {
            use_type_invariant(&*self);
            lemma_sessions_map_push(self.sessions@, access_token, shared);
        }
        let mut sessions: Vec<(AccessToken, Arc<LoginInfoType>)> = Vec::new();
        self.swap_sessions(&mut sessions);
        sessions.push((access_token, shared));
        self.swap_sessions(&mut sessions);
    }

    /// Links a freshly minted refresh token to the access token it can
    /// later replace.
    pub fn link_refresh_token(&mut self, refresh_token: RefreshToken, access_token: AccessToken)
        requires
            !old(self).refresh_map().contains_key(refresh_token@),
        ensures
            final(self).refresh_map() == old(self).refresh_map().insert(
                refresh_token@,
                access_token@,
            ),
            final(self).sessions_map() == old(self).sessions_map(),
            final(self).renew_ttl() == old(self).renew_ttl(),
    {
        proof {
            use_type_invariant(&*self);
            lemma_refresh_map_push(self.refresh_links@, refresh_token, access_token);
        }
        let mut links: Vec<(RefreshToken, AccessToken)> = Vec::new();
        self.swap_refresh_links(&mut links);
        links.push((refresh_token, access_token));
        self.swap_refresh_links(&mut links);
    }

    /// The refresh-endpoint operation: when `refresh_token` is linked to a
    /// live session, moves that session to the freshly minted
    /// `new_access_token` and re-links the refresh token to it.  Returns
    /// whether the rotation happened; nothing changes when it did not.
    pub fn refresh_session(
        &mut self,
        refresh_token: &RefreshToken,
        new_access_token: AccessToken,
    ) -> (r: bool)
        requires
            !old(self).sessions_map().contains_key(new_access_token@),
        ensures
            r == (old(self).refresh_map().contains_key(refresh_token@) && old(self).sessions_map().contains_key(old(self).refresh_map()[refresh_token@])),
            r ==> final(self).sessions_map() == old(self).sessions_map().remove(
                old(self).refresh_map()[refresh_token@],
            ).insert(
                new_access_token@,
                old(self).sessions_map()[old(self).refresh_map()[refresh_token@]],
            ) && final(self).refresh_map() == old(self).refresh_map().insert(
                refresh_token@,
                new_access_token@,
            ),
            !r ==> final(self).sessions_map() == old(self).sessions_map() && final(self).refresh_map() == old(self).refresh_map(),
            final(self).renew_ttl() == old(self).renew_ttl(),
    {
        proof {
            use_type_invariant(&*self);
        }
        match self.find_refresh_index(refresh_token) {
            None => false,
            Some(link_index) => {
                let linked_token = self.refresh_links[link_index].1.duplicate();
                proof {
                    lemma_refresh_map_index(self.refresh_links@, link_index as int);
                }
                match self.find_session_index(&linked_token) {
                    None => false,
                    Some(session_index) => {
                        let token_for_link = new_access_token.duplicate();
                        proof {
                            lemma_sessions_map_index(self.sessions@, session_index as int);
                            lemma_sessions_map_remove(self.sessions@, session_index as int);
                        }
                        let mut sessions: Vec<(AccessToken, Arc<LoginInfoType>)> = Vec::new();
                        self.swap_sessions(&mut sessions);
                        let entry = sessions.remove(session_index);
                        proof {
                            lemma_sessions_map_contains(sessions@, new_access_token@);
                            lemma_sessions_map_push(sessions@, new_access_token, entry.1);
                        }
                        sessions.push((new_access_token, entry.1));
                        self.swap_sessions(&mut sessions);
                        proof {
                            lemma_refresh_map_remove(self.refresh_links@, link_index as int);
                        }
                        let mut links: Vec<(RefreshToken, AccessToken)> = Vec::new();
                        self.swap_refresh_links(&mut links);
                        let _ = links.remove(link_index);
                        let link_token = refresh_token.duplicate();
                        proof {
                            lemma_refresh_map_contains(links@, refresh_token@);
                            lemma_refresh_map_push(links@, link_token, token_for_link);
                        }
                        links.push((link_token, token_for_link));
                        self.swap_refresh_links(&mut links);
                        proof {
                            assert(self.refresh_map() =~= old(self).refresh_map().insert(
                                refresh_token@,
                                new_access_token@,
                            ));
                        }
                        true
                    },
                }
            },
        }
    }
}

impl<LoginInfoType> AuthHandler<LoginInfoType> for SessionStore<LoginInfoType> {
    open spec fn access_sessions(&self) -> Map<Seq<char>, LoginInfoType> {
        self.sessions_map()
    }

    open spec fn refresh_links(&self) -> Map<Seq<char>, Seq<char>> {
        self.refresh_map()
    }

    fn verify_access_token(&mut self, access_token: &AccessToken) -> (r: Result<
        Arc<LoginInfoType>,
        u16,
    >) {
        proof {
            use_type_invariant(&*self);
        }
        match self.find_session_index(access_token) {
            Some(i) => {
                proof {
                    lemma_sessions_map_index(self.sessions@, i as int);
                }
                Ok(arc_clone(&self.sessions[i].1))
            },
            None => Err(STATUS_UNAUTHORIZED),
        }
    }

    fn update_access_token(
        &mut self,
        access_token: &AccessToken,
        login_info: &Arc<LoginInfoType>,
    ) -> (r: Option<(AccessToken, u64)>) {
        proof {
            use_type_invariant(&*self);
        }
        match self.find_session_index(access_token) {
            Some(i) => {
                proof {
                    lemma_sessions_map_index(self.sessions@, i as int);
                    assert(self.sessions_map().remove(access_token@).insert(
                        access_token@,
                        self.sessions_map()[access_token@],
                    ) =~= self.sessions_map());
                }
                Some((access_token.duplicate(), self.renew_ttl_seconds))
            },
            None => None,
        }
    }

    fn revoke_access_token(
        &mut self,
        access_token: &AccessToken,
        _login_info: &Arc<LoginInfoType>,
    ) {
        proof {
            use_type_invariant(&*self);
        }
        match self.find_session_index(access_token) {
            Some(i) => {
                proof {
                    lemma_sessions_map_remove(self.sessions@, i as int);
                }
                let mut sessions: Vec<(AccessToken, Arc<LoginInfoType>)> = Vec::new();
                self.swap_sessions(&mut sessions);
                let _ = sessions.remove(i);
                self.swap_sessions(&mut sessions);
            },
            None => {
                proof {
                    assert(self.sessions_map().remove(access_token@) =~= self.sessions_map());
                }
            },
        }
    }

    fn verify_refresh_token(&mut self, refresh_token: &RefreshToken) -> (r: Result<(), u16>) {
        proof {
            use_type_invariant(&*self);
            lemma_refresh_map_contains(self.refresh_links@, refresh_token@);
        }
        match self.find_refresh_index(refresh_token) {
            Some(i) => {
                proof {
                    assert(self.refresh_links@[i as int].0@ == refresh_token@);
                }
                Ok(())
            },
            None => Err(STATUS_UNAUTHORIZED),
        }
    }

    fn revoke_refresh_token(&mut self, refresh_token: &RefreshToken) {
        proof {
            use_type_invariant(&*self);
        }
        match self.find_refresh_index(refresh_token) {
            None => {
                proof {
                    assert(self.refresh_map().remove(refresh_token@) =~= self.refresh_map());
                    assert(self.refresh_map().dom().remove(refresh_token@) =~= self.refresh_map().dom());
                }
            },
            Some(link_index) => {
                let linked_token = self.refresh_links[link_index].1.duplicate();
                proof {
                    lemma_refresh_map_remove(self.refresh_links@, link_index as int);
                }
                let mut links: Vec<(RefreshToken, AccessToken)> = Vec::new();
                self.swap_refresh_links(&mut links);
                let _ = links.remove(link_index);
                self.swap_refresh_links(&mut links);
                proof {
                    assert(self.refresh_map().dom() =~= old(self).refresh_map().dom().remove(
                        refresh_token@,
                    ));
                }
                match self.find_session_index(&linked_token) {
                    Some(session_index) => {
                        proof {
                            lemma_sessions_map_remove(self.sessions@, session_index as int);
                        }
                        let mut sessions: Vec<(AccessToken, Arc<LoginInfoType>)> = Vec::new();
                        self.swap_sessions(&mut sessions);
                        let _ = sessions.remove(session_index);
                        self.swap_sessions(&mut sessions);
                        proof {
                            assert(self.sessions_map().submap_of(old(self).sessions_map()));
                        }
                    },
                    None => {},
                }
            },
        }
    }
}

} // verus!
