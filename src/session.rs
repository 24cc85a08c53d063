use vstd::prelude::*;
use crate::config::{is_reserved, value_or, Change, ConfigError, ConfigStore, StoreChange};

verus! {

/// Key under which the event filter id is kept.
pub const FILTER_KEY: &'static str = "_filter";
/// Key under which the password is kept.
pub const PASSWORD_KEY: &'static str = "password";
/// Key under which the resolved room id is kept.
pub const ROOM_ID_KEY: &'static str = "_room_id";
/// Key under which the human-chosen room name is kept.
pub const ROOM_NAME_KEY: &'static str = "room_name";
/// Key under which the room's home-server domain is kept.
pub const ROOM_DOMAIN_KEY: &'static str = "room_domain";
/// Key under which the sync cursor ("since" token) is kept.
pub const SINCE_KEY: &'static str = "_since";
/// Key under which the access token is kept.
pub const TOKEN_KEY: &'static str = "_token";
/// Key under which the canonical user id is kept.
pub const USER_ID_KEY: &'static str = "_user_id";
/// Key under which the user name is kept.
pub const USER_NAME_KEY: &'static str = "user_name";
/// Key under which the user's home-server domain is kept.
pub const USER_DOMAIN_KEY: &'static str = "user_domain";

/// Scheme put in front of a domain to make a server URL.
pub const HTTPS: &'static str = "https://";
/// Home-server domain used where none is set.
pub const DOMAIN_MATRIX: &'static str = "matrix.org";
/// What a prompt shows in place of a password that is already stored.
pub const HIDE: &'static str = "*****";
/// Longest time, in milliseconds, that one long-poll may be held open.
pub const MTX_LONG_TIMEOUT: i32 = 60000;

/// Where the login state machine stands.
#[derive(Debug, Clone, Copy, PartialEq, Eq, Structural)]
pub enum SessionState {
    LoggedOut,
    Authenticating,
    LoggedIn,
    LoginFailed,
}

/// The abstract state of a session: the store, the journal of changes still to
/// be made durable, and what is held in memory only.
pub struct Session {
    pub config: Map<Seq<char>, Seq<char>>,
    pub pending: Seq<Change>,
    pub user_id: Seq<char>,
    pub token: Seq<char>,
    pub state: SessionState,
    pub wifi_connected: bool,
    pub hosted: bool,
    pub listening: bool,
}

/// The value under `key`, the empty string where there is none.
pub open spec fn stored(s: Session, key: Seq<char>) -> Seq<char> {
    value_or(s.config, key, Seq::empty())
}

pub open spec fn logged_in(s: Session) -> bool {
    s.state == SessionState::LoggedIn
}

/// The session can reach the network: a hosted build always can, a device only
/// with its radio connected.
pub open spec fn network_ok(s: Session) -> bool {
    s.hosted || s.wifi_connected
}

/// The URL of the user's home server.
pub open spec fn home_server(s: Session) -> Seq<char> {
    HTTPS@ + value_or(s.config, USER_DOMAIN_KEY@, DOMAIN_MATRIX@)
}

/// The URL of the home server that owns the room.
pub open spec fn room_server(s: Session) -> Seq<char> {
    HTTPS@ + value_or(s.config, ROOM_DOMAIN_KEY@, DOMAIN_MATRIX@)
}

/// The canonical room alias `#{name}:{domain}`.
pub open spec fn room_alias(name: Seq<char>, domain: Seq<char>) -> Seq<char> {
    seq!['#'] + name + seq![':'] + domain
}

/// The canonical user id `@{name}:{domain}`.
pub open spec fn canonical_user_id(name: Seq<char>, domain: Seq<char>) -> Seq<char> {
    seq!['@'] + name + seq![':'] + domain
}

/// The session after `k` was set to `v` and the change recorded.
pub open spec fn put_entry(s: Session, k: Seq<char>, v: Seq<char>) -> Session {
    Session { config: s.config.insert(k, v), pending: s.pending.push(Change::Put(k, v)), ..s }
}

/// The session after `k` was removed and the change recorded.
pub open spec fn remove_entry(s: Session, k: Seq<char>) -> Session {
    Session { config: s.config.remove(k), pending: s.pending.push(Change::Remove(k)), ..s }
}

/// The view of an optional string.
pub open spec fn opt_view(o: Option<String>) -> Option<Seq<char>> {
    match o {
        Some(x) => Some(x@),
        None => None,
    }
}

/// The value under `k`, if there is one.
pub open spec fn stored_opt(s: Session, k: Seq<char>) -> Option<Seq<char>> {
    if s.config.contains_key(k) {
        Some(s.config[k])
    } else {
        None
    }
}

/// The session after `k` was set to the value in `v`, if there is one.
pub open spec fn put_if_some(s: Session, k: Seq<char>, v: Option<Seq<char>>) -> Session {
    match v {
        Some(x) => put_entry(s, k, x),
        None => s,
    }
}

/// What confirming the credential form does: the stored token is discarded,
/// the fields given are kept (a password equal to the mask means "unchanged"),
/// and the canonical user id is rebuilt from the stored name and domain.
pub open spec fn login_form_spec(
    s: Session,
    name: Option<Seq<char>>,
    domain: Option<Seq<char>>,
    password: Option<Seq<char>>,
) -> Session {
    let s1 = remove_entry(s, TOKEN_KEY@);
    let s2 = put_if_some(s1, USER_NAME_KEY@, name);
    let s3 = put_if_some(s2, USER_DOMAIN_KEY@, domain);
    let s4 = match password {
        Some(p) => if p == HIDE@ { s3 } else { put_entry(s3, PASSWORD_KEY@, p) },
        None => s3,
    };
    let uid = canonical_user_id(
        value_or(s4.config, USER_NAME_KEY@, Seq::empty()),
        value_or(s4.config, USER_DOMAIN_KEY@, DOMAIN_MATRIX@),
    );
    Session { user_id: uid, ..put_entry(s4, USER_ID_KEY@, uid) }
}

/// What confirming the room form does: room id, cursor and filter are cleared
/// together, then the fields given are kept.
pub open spec fn room_form_spec(s: Session, name: Option<Seq<char>>, domain: Option<Seq<char>>) -> Session {
    let s1 = remove_entry(remove_entry(remove_entry(s, ROOM_ID_KEY@), SINCE_KEY@), FILTER_KEY@);
    put_if_some(put_if_some(s1, ROOM_NAME_KEY@, name), ROOM_DOMAIN_KEY@, domain)
}

/// One step of the login state machine: what to ask the server next, or the
/// outcome.
#[derive(Debug, PartialEq, Eq)]
pub enum LoginStep {
    /// Ask the server whom `token` belongs to.
    CheckToken { server: String, token: String },
    /// Ask the server whether it accepts password login.
    QueryLoginType { server: String },
    /// Send the stored credentials.
    Authenticate { server: String, user_id: String, password: String },
    /// Login has ended, with success or failure.
    Done(bool),
}

/// What resolving the room needs.
#[derive(Debug, PartialEq, Eq)]
pub enum RoomStep {
    /// The room id is already known; no network call is needed.
    Cached,
    /// Room name or room domain is unset; nothing can be looked up.
    Unmet,
    /// Look `alias` up on `server` with `token`.
    Lookup { server: String, alias: String, token: String },
}

/// What resolving the event filter needs.
#[derive(Debug, PartialEq, Eq)]
pub enum FilterStep {
    /// The filter id is already known; no network call is needed.
    Cached,
    /// No room is resolved yet, so no filter can be scoped to one.
    Unmet,
    /// Create a filter for `room_id` on `server` with `token`.
    Create { server: String, token: String, room_id: String },
}

/// Everything one long-poll cycle needs, copied out of the session when the
/// cycle starts.
#[derive(Debug, PartialEq, Eq)]
pub struct SyncRequest {
    pub server: String,
    pub filter: String,
    pub since: String,
    pub timeout_ms: i32,
    pub room_id: String,
    pub token: String,
}

/// What `listen` decided.
#[derive(Debug, PartialEq, Eq)]
pub enum ListenStep {
    /// A cycle is already running; nothing was done.
    AlreadyListening,
    /// The session is not logged in; nothing was done.
    NotLoggedIn,
    /// The room must be resolved first (never `Cached`).
    Room(RoomStep),
    /// The filter must be resolved first (never `Cached`).
    Filter(FilterStep),
    /// The listening flag is now set: run exactly this one cycle.
    Poll(SyncRequest),
    /// The loop was not restarted.
    Stopped,
}

/// What `login_begin` does: the stored token is loaded into memory and the
/// machine starts authenticating; the first question depends on the token.
pub open spec fn login_begin_spec(s: Session, t: Session, r: LoginStep) -> bool {
    let token = stored(s, TOKEN_KEY@);
    &&& t == Session { token, state: SessionState::Authenticating, ..s }
    &&& match r {
        LoginStep::CheckToken { server, token: sent } => token.len() > 0 && server@ == home_server(s)
            && sent@ == token,
        LoginStep::QueryLoginType { server } => token.len() == 0 && server@ == home_server(s),
        _ => false,
    }
}

/// What `login_identity(who)` does: a user id logs the session in, keeping the
/// token; no answer falls back to asking for the login type.
pub open spec fn login_identity_spec(s: Session, who: Option<Seq<char>>, t: Session, r: LoginStep) -> bool {
    match who {
        Some(u) => t == Session { user_id: u, state: SessionState::LoggedIn, ..s } && r == LoginStep::Done(true),
        None => t == s && match r {
            LoginStep::QueryLoginType { server } => server@ == home_server(s),
            _ => false,
        },
    }
}

/// What `login_method(password_login)` does. Where password login is offered,
/// the stored user id (the key's own name where none is stored) and the stored
/// password (empty where none is stored) are to be sent. Where it is not, the
/// login fails and the token is dropped from memory.
pub open spec fn login_method_spec(s: Session, password_login: bool, t: Session, r: LoginStep) -> bool {
    if password_login {
        t == s && match r {
            LoginStep::Authenticate { server, user_id, password } => {
                &&& server@ == home_server(s)
                &&& user_id@ == value_or(s.config, USER_ID_KEY@, USER_ID_KEY@)
                &&& password@ == stored(s, PASSWORD_KEY@)
            },
            _ => false,
        }
    } else {
        r == LoginStep::Done(false) && t == Session { token: Seq::empty(), state: SessionState::LoginFailed, ..s }
    }
}

/// What `login_token(issued)` does. A token is stored under the token key,
/// kept in memory, and the session is logged in as the stored user id. No
/// token fails the login and drops the token from memory.
pub open spec fn login_token_spec(s: Session, issued: Option<Seq<char>>, t: Session, r: bool) -> bool {
    &&& r == issued is Some
    &&& match issued {
        Some(tok) => t == Session {
            token: tok,
            user_id: value_or(s.config, USER_ID_KEY@, USER_ID_KEY@),
            state: SessionState::LoggedIn,
            ..put_entry(s, TOKEN_KEY@, tok)
        },
        None => t == Session { token: Seq::empty(), state: SessionState::LoginFailed, ..s },
    }
}

/// What taking the result of a lookup for `key` does: a found value is
/// stored under `key`; nothing found changes nothing.
pub open spec fn lookup_done_spec(s: Session, key: Seq<char>, found: Option<Seq<char>>) -> Session {
    put_if_some(s, key, found)
}

/// What `room_lookup` returns in session `s`.
pub open spec fn room_step_spec(s: Session, r: RoomStep) -> bool {
    if stored(s, ROOM_ID_KEY@).len() > 0 {
        r is Cached
    } else if stored(s, ROOM_NAME_KEY@).len() == 0 || stored(s, ROOM_DOMAIN_KEY@).len() == 0 {
        r is Unmet
    } else {
        match r {
            RoomStep::Lookup { server, alias, token } => {
                &&& server@ == home_server(s)
                &&& alias@ == room_alias(stored(s, ROOM_NAME_KEY@), stored(s, ROOM_DOMAIN_KEY@))
                &&& token@ == s.token
            },
            _ => false,
        }
    }
}

/// What `filter_lookup` returns in session `s`.
pub open spec fn filter_step_spec(s: Session, r: FilterStep) -> bool {
    if stored(s, FILTER_KEY@).len() > 0 {
        r is Cached
    } else if stored(s, ROOM_ID_KEY@).len() == 0 {
        r is Unmet
    } else {
        match r {
            FilterStep::Create { server, token, room_id } => {
                &&& server@ == home_server(s)
                &&& token@ == s.token
                &&& room_id@ == stored(s, ROOM_ID_KEY@)
            },
            _ => false,
        }
    }
}

/// The cycle that `listen` starts in session `s`.
pub open spec fn sync_request_spec(s: Session, q: SyncRequest) -> bool {
    &&& q.server@ == room_server(s)
    &&& q.filter@ == stored(s, FILTER_KEY@)
    &&& q.since@ == stored(s, SINCE_KEY@)
    &&& q.timeout_ms == MTX_LONG_TIMEOUT
    &&& q.room_id@ == stored(s, ROOM_ID_KEY@)
    &&& q.token@ == s.token
}

/// What `listen` does: from session `s` to session `t`, deciding `r`.
pub open spec fn listen_spec(s: Session, t: Session, r: ListenStep) -> bool {
    if s.listening {
        r is AlreadyListening && t == s
    } else if !logged_in(s) {
        r is NotLoggedIn && t == s
    } else if stored(s, ROOM_ID_KEY@).len() == 0 {
        t == s && match r {
            ListenStep::Room(step) => room_step_spec(s, step),
            _ => false,
        }
    } else if stored(s, FILTER_KEY@).len() == 0 {
        t == s && match r {
            ListenStep::Filter(step) => filter_step_spec(s, step),
            _ => false,
        }
    } else {
        t == Session { listening: true, ..s } && match r {
            ListenStep::Poll(q) => sync_request_spec(s, q),
            _ => false,
        }
    }
}

/// The session right after `listen_over(since)` has cleared the flag and kept
/// the cursor, before any restart.
pub open spec fn after_cycle(s: Session, since: Seq<char>) -> Session {
    if since.len() > 0 {
        Session { listening: false, ..put_entry(s, SINCE_KEY@, since) }
    } else {
        Session { listening: false, ..s }
    }
}

/// What `listen_over(since)` does: from session `s` to session `t`, deciding `r`.
pub open spec fn listen_over_spec(s: Session, since: Seq<char>, t: Session, r: ListenStep) -> bool {
    let m = after_cycle(s, since);
    if since.len() > 0 && logged_in(m) && network_ok(m) {
        listen_spec(m, t, r)
    } else {
        r is Stopped && t == m
    }
}

/// The cursor that a finished cycle hands back: the new "since" token, or the
/// empty string where the long-poll failed.
pub fn cycle_cursor(result: &Option<(String, String)>) -> (r: String)
    ensures
        r@ == match result {
            Some(p) => p.0@,
            None => Seq::<char>::empty(),
        },
{
    match result {
        Some(p) => p.0.clone(),
        None => String::new(),
    }
}

fn joined(a: &str, b: &str, c: &str, d: &str) -> (r: String)
    ensures
        r@ == a@ + b@ + c@ + d@,
{
    let mut r = String::from_str(a);
    r.append(b);
    r.append(c);
    r.append(d);
    r
}

proof fn lemma_keys()
    ensures
        !is_reserved(FILTER_KEY@),
        !is_reserved(PASSWORD_KEY@),
        !is_reserved(ROOM_ID_KEY@),
        !is_reserved(ROOM_NAME_KEY@),
        !is_reserved(ROOM_DOMAIN_KEY@),
        !is_reserved(SINCE_KEY@),
        !is_reserved(TOKEN_KEY@),
        !is_reserved(USER_ID_KEY@),
        !is_reserved(USER_NAME_KEY@),
        !is_reserved(USER_DOMAIN_KEY@),
        ROOM_NAME_KEY@ != ROOM_ID_KEY@,
        ROOM_NAME_KEY@ != SINCE_KEY@,
        ROOM_NAME_KEY@ != FILTER_KEY@,
        ROOM_DOMAIN_KEY@ != ROOM_ID_KEY@,
        ROOM_DOMAIN_KEY@ != SINCE_KEY@,
        ROOM_DOMAIN_KEY@ != FILTER_KEY@,
        SINCE_KEY@ != ROOM_ID_KEY@,
        SINCE_KEY@ != FILTER_KEY@,
        SINCE_KEY@ != ROOM_NAME_KEY@,
        SINCE_KEY@ != ROOM_DOMAIN_KEY@,
        TOKEN_KEY@ != USER_ID_KEY@,
        TOKEN_KEY@ != PASSWORD_KEY@,
        TOKEN_KEY@ != USER_DOMAIN_KEY@,
        TOKEN_KEY@ != ROOM_ID_KEY@,
        ROOM_ID_KEY@ != FILTER_KEY@,
        USER_ID_KEY@ != USER_NAME_KEY@,
        USER_ID_KEY@ != USER_DOMAIN_KEY@,
        USER_ID_KEY@ != PASSWORD_KEY@,
        USER_NAME_KEY@ != USER_DOMAIN_KEY@,
        USER_NAME_KEY@ != PASSWORD_KEY@,
        USER_DOMAIN_KEY@ != PASSWORD_KEY@,
        HIDE@.len() == 5,
{
    reveal_strlit("_filter");
    reveal_strlit("password");
    reveal_strlit("_room_id");
    reveal_strlit("room_name");
    reveal_strlit("room_domain");
    reveal_strlit("_since");
    reveal_strlit("_token");
    reveal_strlit("_user_id");
    reveal_strlit("user_name");
    reveal_strlit("user_domain");
    reveal_strlit("*****");
    assert(ROOM_NAME_KEY@[0] != ROOM_ID_KEY@[0]);
    assert(ROOM_NAME_KEY@[0] != SINCE_KEY@[0]);
    assert(ROOM_NAME_KEY@[0] != FILTER_KEY@[0]);
    assert(ROOM_DOMAIN_KEY@[0] != ROOM_ID_KEY@[0]);
    assert(ROOM_DOMAIN_KEY@[0] != SINCE_KEY@[0]);
    assert(ROOM_DOMAIN_KEY@[0] != FILTER_KEY@[0]);
    assert(SINCE_KEY@[1] != ROOM_ID_KEY@[1]);
    assert(SINCE_KEY@[1] != FILTER_KEY@[1]);
    assert(TOKEN_KEY@[1] != USER_ID_KEY@[1]);
    assert(TOKEN_KEY@[0] != PASSWORD_KEY@[0]);
    assert(TOKEN_KEY@[0] != USER_DOMAIN_KEY@[0]);
    assert(TOKEN_KEY@[1] != ROOM_ID_KEY@[1]);
    assert(ROOM_ID_KEY@[1] != FILTER_KEY@[1]);
    assert(USER_ID_KEY@[0] != USER_NAME_KEY@[0]);
    assert(USER_ID_KEY@[0] != USER_DOMAIN_KEY@[0]);
    assert(USER_ID_KEY@[0] != PASSWORD_KEY@[0]);
    assert(USER_NAME_KEY@[5] != USER_DOMAIN_KEY@[5]);
    assert(USER_NAME_KEY@[0] != PASSWORD_KEY@[0]);
    assert(USER_DOMAIN_KEY@[0] != PASSWORD_KEY@[0]);
}

/// The credential form as it is first shown: stored values, with a stored
/// password replaced by the mask.
#[derive(Debug, PartialEq, Eq)]
pub struct LoginForm {
    pub user_name: Option<String>,
    pub user_domain: Option<String>,
    pub password: Option<String>,
}

/// The room form as it is first shown: the stored values.
#[derive(Debug, PartialEq, Eq)]
pub struct RoomForm {
    pub room_name: Option<String>,
    pub room_domain: Option<String>,
}

/// Asking twice how to resolve a room that is already resolved gives "cached"
/// both times: no lookup is made, and resolution succeeds. (`room_lookup`
/// takes the session by shared reference, so the second question is asked of
/// the same session.)
pub proof fn lemma_resolved_room_needs_no_lookup(s: Session, first: RoomStep, second: RoomStep)
    requires
        stored(s, ROOM_ID_KEY@).len() > 0,
        room_step_spec(s, first),
        room_step_spec(s, second),
    ensures
        first is Cached,
        second is Cached,
{
}

/// Editing the room clears the room id, the filter id and the cursor, all
/// three together, whatever was stored before and whatever fields are given.
pub proof fn lemma_room_edit_clears_derived_state(s: Session, name: Option<Seq<char>>, domain: Option<Seq<char>>)
    ensures
        !room_form_spec(s, name, domain).config.contains_key(ROOM_ID_KEY@),
        !room_form_spec(s, name, domain).config.contains_key(FILTER_KEY@),
        !room_form_spec(s, name, domain).config.contains_key(SINCE_KEY@),
{
    lemma_keys();
}

/// Two calls of `listen` in a row, the first of which finds or leaves the
/// session listening, start at most one cycle: the second call does nothing.
pub proof fn lemma_single_listener(s: Session, t: Session, first: ListenStep, u: Session, second: ListenStep)
    requires
        listen_spec(s, t, first),
        listen_spec(t, u, second),
        s.listening || first is Poll,
    ensures
        t.listening,
        second is AlreadyListening,
        u == t,
{
}

/// After a cycle, a non-empty cursor in a logged-in session that can reach
/// the network restarts the loop: `listen` runs on the session with the cursor
/// stored, and where room and filter are resolved the next cycle starts from
/// that cursor. An empty cursor never restarts it.
pub proof fn lemma_restart_policy(s: Session, since: Seq<char>, t: Session, r: ListenStep)
    requires
        listen_over_spec(s, since, t, r),
        logged_in(s),
        network_ok(s),
    ensures
        since.len() > 0 ==> listen_spec(after_cycle(s, since), t, r) && !(r is Stopped)
            && !(r is AlreadyListening) && !(r is NotLoggedIn),
        since.len() > 0 && stored(s, ROOM_ID_KEY@).len() > 0 && stored(s, FILTER_KEY@).len() > 0
            ==> t.listening && (match r {
            ListenStep::Poll(q) => q.since@ == since,
            _ => false,
        }),
        since.len() == 0 ==> r is Stopped && t == (Session { listening: false, ..s }),
{
    lemma_keys();
}

/// A chat session: its configuration store, its login state, and the flag that
/// keeps at most one long-poll cycle running.
pub struct MtxChat {
    store: ConfigStore,
    user_id: String,
    token: String,
    state: SessionState,
    wifi_connected: bool,
    hosted: bool,
    listening: bool,
}

impl View for MtxChat {
    type V = Session;

    closed spec fn view(&self) -> Session {
        Session {
            config: self.store.view(),
            pending: self.store.pending(),
            user_id: self.user_id@,
            token: self.token@,
            state: self.state,
            wifi_connected: self.wifi_connected,
            hosted: self.hosted,
            listening: self.listening,
        }
    }
}

impl MtxChat {
    /// The store is well formed.
    pub closed spec fn wf(&self) -> bool {
        self.store.wf()
    }

    /// A logged-out session over an empty store. `hosted` says whether the
    /// build runs hosted, where the network is always there.
    pub fn new(hosted: bool) -> (r: MtxChat)
        ensures
            r.wf(),
            r@.config == Map::<Seq<char>, Seq<char>>::empty(),
            r@.pending == Seq::<Change>::empty(),
            r@.user_id == Seq::<char>::empty(),
            r@.token == Seq::<char>::empty(),
            r@.state == SessionState::LoggedOut,
            !r@.wifi_connected,
            r@.hosted == hosted,
            !r@.listening,
    {
        MtxChat {
            store: ConfigStore::new(),
            user_id: String::new(),
            token: String::new(),
            state: SessionState::LoggedOut,
            wifi_connected: false,
            hosted,
            listening: false,
        }
    }
}

impl MtxChat {
    fn stored_value(&self, key: &str) -> (r: String)
        requires
            self.wf(),
        ensures
            r@ == stored(self@, key@),
    {
        match self.store.get(key) {
            Some(v) => v,
            None => String::new(),
        }
    }

    /// Sets `key` to `value` in the store. A reserved key is refused and
    /// nothing changes.
    pub fn set(&mut self, key: &str, value: &str) -> (r: Result<(), ConfigError>)
        requires
            old(self).wf(),
        ensures
            final(self).wf(),
            is_reserved(key@) ==> r == Err::<(), ConfigError>(ConfigError::PermissionDenied)
                && final(self)@ == old(self)@,
            !is_reserved(key@) ==> r is Ok && final(self)@ == put_entry(old(self)@, key@, value@),
    {
        self.store.set(key, value)
    }

    /// `set`, reporting success as a flag.
    pub fn set_debug(&mut self, key: &str, value: &str) -> (r: bool)
        requires
            old(self).wf(),
        ensures
            final(self).wf(),
            r == !is_reserved(key@),
            r ==> final(self)@ == put_entry(old(self)@, key@, value@),
            !r ==> final(self)@ == old(self)@,
    {
        match self.set(key, value) {
            Ok(()) => true,
            Err(_) => false,
        }
    }

    /// Removes `key` from the store. A reserved key is refused and nothing
    /// changes.
    pub fn unset(&mut self, key: &str) -> (r: Result<(), ConfigError>)
        requires
            old(self).wf(),
        ensures
            final(self).wf(),
            is_reserved(key@) ==> r == Err::<(), ConfigError>(ConfigError::PermissionDenied)
                && final(self)@ == old(self)@,
            !is_reserved(key@) ==> r is Ok && final(self)@ == remove_entry(old(self)@, key@),
    {
        self.store.unset(key)
    }

    /// `unset`, reporting success as a flag.
    pub fn unset_debug(&mut self, key: &str) -> (r: bool)
        requires
            old(self).wf(),
        ensures
            final(self).wf(),
            r == !is_reserved(key@),
            r ==> final(self)@ == remove_entry(old(self)@, key@),
            !r ==> final(self)@ == old(self)@,
    {
        match self.unset(key) {
            Ok(()) => true,
            Err(_) => false,
        }
    }

    /// The value under `key`; absence is no error.
    pub fn get(&self, key: &str) -> (r: Option<String>)
        requires
            self.wf(),
        ensures
            opt_view(r) == (if self@.config.contains_key(key@) {
                Some(self@.config[key@])
            } else {
                None
            }),
    {
        self.store.get(key)
    }

    /// The value under `key`, or `default` where there is none.
    pub fn get_or(&self, key: &str, default: &str) -> (r: String)
        requires
            self.wf(),
        ensures
            r@ == value_or(self@.config, key@, default@),
    {
        self.store.get_or(key, default)
    }

    /// Loads a value that is already durable, without recording a change.
    pub fn restore(&mut self, key: String, value: String)
        requires
            old(self).wf(),
        ensures
            final(self).wf(),
            final(self)@ == (Session { config: old(self)@.config.insert(key@, value@), ..old(self)@ }),
    {
        self.store.restore(key, value);
    }

    /// Hands out the changes still to be made durable, oldest first.
    pub fn take_pending(&mut self) -> (r: Vec<StoreChange>)
        requires
            old(self).wf(),
        ensures
            final(self).wf(),
            r@.map_values(|c: StoreChange| c@) == old(self)@.pending,
            final(self)@ == (Session { pending: Seq::empty(), ..old(self)@ }),
    {
        self.store.take_pending()
    }

    /// Records whether the device's network link is up.
    pub fn set_wifi_connected(&mut self, connected: bool)
        requires
            old(self).wf(),
        ensures
            final(self).wf(),
            final(self)@ == (Session { wifi_connected: connected, ..old(self)@ }),
    {
        self.wifi_connected = connected;
    }

    /// Whether the session is logged in.
    pub fn logged_in(&self) -> (r: bool)
        ensures
            r == logged_in(self@),
    {
        self.state == SessionState::LoggedIn
    }

    /// Whether a long-poll cycle is running.
    pub fn listening(&self) -> (r: bool)
        ensures
            r == self@.listening,
    {
        self.listening
    }

    /// Where the login state machine stands.
    pub fn state(&self) -> (r: SessionState)
        ensures
            r == self@.state,
    {
        self.state
    }

    /// The user id the session is logged in as, or was last set to.
    pub fn user_id(&self) -> (r: String)
        ensures
            r@ == self@.user_id,
    {
        self.user_id.clone()
    }

    /// The access token held in memory.
    pub fn token(&self) -> (r: String)
        ensures
            r@ == self@.token,
    {
        self.token.clone()
    }

    /// The URL of the user's home server.
    pub fn home_server(&self) -> (r: String)
        requires
            self.wf(),
        ensures
            r@ == home_server(self@),
    {
        let domain = self.store.get_or(USER_DOMAIN_KEY, DOMAIN_MATRIX);
        let mut r = String::from_str(HTTPS);
        r.append(domain.as_str());
        r
    }

    /// Starts a login: loads the stored token and says what to ask the server
    /// first. With a token, whom it belongs to; without one, which login type
    /// the server accepts.
    pub fn login_begin(&mut self) -> (r: LoginStep)
        requires
            old(self).wf(),
        ensures
            final(self).wf(),
            login_begin_spec(old(self)@, final(self)@, r),
    {
        self.token = self.stored_value(TOKEN_KEY);
        self.state = SessionState::Authenticating;
        let server = self.home_server();
        if self.token.as_str().unicode_len() > 0 {
            LoginStep::CheckToken { server, token: self.token.clone() }
        } else {
            LoginStep::QueryLoginType { server }
        }
    }

    /// Takes the server's answer to the token check. A user id logs the session
    /// in with the token kept; no answer falls back to password login.
    pub fn login_identity(&mut self, who: Option<String>) -> (r: LoginStep)
        requires
            old(self).wf(),
        ensures
            final(self).wf(),
            login_identity_spec(old(self)@, opt_view(who), final(self)@, r),
    {
        match who {
            Some(u) => {
                self.user_id = u;
                self.state = SessionState::LoggedIn;
                LoginStep::Done(true)
            },
            None => LoginStep::QueryLoginType { server: self.home_server() },
        }
    }

    /// Takes the server's answer on password login. Where it is accepted, the
    /// stored user id and password are to be sent; where not, login fails.
    pub fn login_method(&mut self, password_login: bool) -> (r: LoginStep)
        requires
            old(self).wf(),
        ensures
            final(self).wf(),
            login_method_spec(old(self)@, password_login, final(self)@, r),
    {
        if password_login {
            let server = self.home_server();
            let user_id = self.store.get_or(USER_ID_KEY, USER_ID_KEY);
            let password = self.stored_value(PASSWORD_KEY);
            LoginStep::Authenticate { server, user_id, password }
        } else {
            self.token = String::new();
            self.state = SessionState::LoginFailed;
            LoginStep::Done(false)
        }
    }

    /// Takes the result of authentication. A token is stored and kept and the
    /// session is logged in; no token fails the login.
    pub fn login_token(&mut self, issued: Option<String>) -> (r: bool)
        requires
            old(self).wf(),
        ensures
            final(self).wf(),
            login_token_spec(old(self)@, opt_view(issued), final(self)@, r),
    {
        proof {
            lemma_keys();
        }
        match issued {
            Some(t) => {
                let user_id = self.store.get_or(USER_ID_KEY, USER_ID_KEY);
                let _ = self.store.set(TOKEN_KEY, t.as_str());
                self.token = t;
                self.user_id = user_id;
                self.state = SessionState::LoggedIn;
                true
            },
            None => {
                self.token = String::new();
                self.state = SessionState::LoginFailed;
                false
            },
        }
    }
}

impl MtxChat {
    /// The credential form as first shown: the stored user name and domain,
    /// and the mask in place of a stored password.
    pub fn login_form(&self) -> (r: LoginForm)
        requires
            self.wf(),
        ensures
            opt_view(r.user_name) == stored_opt(self@, USER_NAME_KEY@),
            opt_view(r.user_domain) == stored_opt(self@, USER_DOMAIN_KEY@),
            opt_view(r.password) == (if self@.config.contains_key(PASSWORD_KEY@) {
                Some(HIDE@)
            } else {
                None
            }),
    {
        let password = match self.store.get(PASSWORD_KEY) {
            Some(_) => Some(String::from_str(HIDE)),
            None => None,
        };
        LoginForm {
            user_name: self.store.get(USER_NAME_KEY),
            user_domain: self.store.get(USER_DOMAIN_KEY),
            password,
        }
    }

    /// Confirms the credential form: the stored token is discarded so that
    /// the next login authenticates afresh, each field given is stored (a
    /// password equal to the mask counts as unchanged), and the canonical user
    /// id `@{name}:{domain}` is stored and kept in memory.
    pub fn apply_login_form(
        &mut self,
        user_name: Option<String>,
        user_domain: Option<String>,
        password: Option<String>,
    )
        requires
            old(self).wf(),
        ensures
            final(self).wf(),
            final(self)@ == login_form_spec(
                old(self)@,
                opt_view(user_name),
                opt_view(user_domain),
                opt_view(password),
            ),
    {
        proof {
            lemma_keys();
        }
        let ghost s0 = self@;
        let _ = self.store.unset(TOKEN_KEY);
        let ghost s1 = remove_entry(s0, TOKEN_KEY@);
        assert(self@ == s1);
        if let Some(n) = user_name {
            let _ = self.store.set(USER_NAME_KEY, n.as_str());
        }
        let ghost s2 = put_if_some(s1, USER_NAME_KEY@, opt_view(user_name));
        assert(self@ == s2);
        if let Some(d) = user_domain {
            let _ = self.store.set(USER_DOMAIN_KEY, d.as_str());
        }
        let ghost s3 = put_if_some(s2, USER_DOMAIN_KEY@, opt_view(user_domain));
        assert(self@ == s3);
        if let Some(p) = password {
            let hide = String::from_str(HIDE);
            if p != hide {
                let _ = self.store.set(PASSWORD_KEY, p.as_str());
            }
        }
        let ghost s4 = match opt_view(password) {
            Some(p) => if p == HIDE@ { s3 } else { put_entry(s3, PASSWORD_KEY@, p) },
            None => s3,
        };
        assert(self@ == s4);
        let name = self.stored_value(USER_NAME_KEY);
        let domain = self.store.get_or(USER_DOMAIN_KEY, DOMAIN_MATRIX);
        proof {
            reveal_strlit("@");
            reveal_strlit(":");
        }
        let uid = joined("@", name.as_str(), ":", domain.as_str());
        assert(uid@ =~= canonical_user_id(name@, domain@));
        let _ = self.store.set(USER_ID_KEY, uid.as_str());
        self.user_id = uid;
    }

    /// The room form as first shown: the stored room name and domain.
    pub fn room_form(&self) -> (r: RoomForm)
        requires
            self.wf(),
        ensures
            opt_view(r.room_name) == stored_opt(self@, ROOM_NAME_KEY@),
            opt_view(r.room_domain) == stored_opt(self@, ROOM_DOMAIN_KEY@),
    {
        RoomForm { room_name: self.store.get(ROOM_NAME_KEY), room_domain: self.store.get(ROOM_DOMAIN_KEY) }
    }

    /// Confirms the room form: room id, cursor and filter are cleared together,
    /// then each field given is stored.
    pub fn apply_room_form(&mut self, room_name: Option<String>, room_domain: Option<String>)
        requires
            old(self).wf(),
        ensures
            final(self).wf(),
            final(self)@ == room_form_spec(old(self)@, opt_view(room_name), opt_view(room_domain)),
    {
        proof {
            lemma_keys();
        }
        let _ = self.store.unset(ROOM_ID_KEY);
        let _ = self.store.unset(SINCE_KEY);
        let _ = self.store.unset(FILTER_KEY);
        if let Some(n) = room_name {
            let _ = self.store.set(ROOM_NAME_KEY, n.as_str());
        }
        if let Some(d) = room_domain {
            let _ = self.store.set(ROOM_DOMAIN_KEY, d.as_str());
        }
    }
}

impl MtxChat {
    /// Says what resolving the room needs: nothing where its id is stored,
    /// nothing possible where its name or domain is unset, and otherwise a
    /// lookup of the alias `#{name}:{domain}` on the user's home server.
    pub fn room_lookup(&self) -> (r: RoomStep)
        requires
            self.wf(),
        ensures
            room_step_spec(self@, r),
    {
        let room_id = self.stored_value(ROOM_ID_KEY);
        if room_id.as_str().unicode_len() > 0 {
            return RoomStep::Cached;
        }
        let name = self.stored_value(ROOM_NAME_KEY);
        let domain = self.stored_value(ROOM_DOMAIN_KEY);
        if name.as_str().unicode_len() == 0 || domain.as_str().unicode_len() == 0 {
            return RoomStep::Unmet;
        }
        proof {
            reveal_strlit("#");
            reveal_strlit(":");
        }
        let alias = joined("#", name.as_str(), ":", domain.as_str());
        assert(alias@ =~= room_alias(name@, domain@));
        RoomStep::Lookup { server: self.home_server(), alias, token: self.token.clone() }
    }

    /// Takes the result of a room lookup: a room id is stored and resolution
    /// succeeds; no answer leaves everything as it was.
    pub fn room_lookup_done(&mut self, found: Option<String>) -> (r: bool)
        requires
            old(self).wf(),
        ensures
            final(self).wf(),
            r == found is Some,
            final(self)@ == lookup_done_spec(old(self)@, ROOM_ID_KEY@, opt_view(found)),
    {
        proof {
            lemma_keys();
        }
        match found {
            Some(id) => {
                let _ = self.store.set(ROOM_ID_KEY, id.as_str());
                true
            },
            None => false,
        }
    }

    /// Says what resolving the event filter needs: nothing where its id is
    /// stored, nothing possible before the room is resolved, and otherwise the
    /// creation of a filter scoped to the room.
    pub fn filter_lookup(&self) -> (r: FilterStep)
        requires
            self.wf(),
        ensures
            filter_step_spec(self@, r),
    {
        let filter = self.stored_value(FILTER_KEY);
        if filter.as_str().unicode_len() > 0 {
            return FilterStep::Cached;
        }
        let room_id = self.stored_value(ROOM_ID_KEY);
        if room_id.as_str().unicode_len() == 0 {
            return FilterStep::Unmet;
        }
        FilterStep::Create { server: self.home_server(), token: self.token.clone(), room_id }
    }

    /// Takes the result of creating a filter: a filter id is stored and
    /// resolution succeeds; no answer leaves everything as it was.
    pub fn filter_lookup_done(&mut self, found: Option<String>) -> (r: bool)
        requires
            old(self).wf(),
        ensures
            final(self).wf(),
            r == found is Some,
            final(self)@ == lookup_done_spec(old(self)@, FILTER_KEY@, opt_view(found)),
    {
        proof {
            lemma_keys();
        }
        match found {
            Some(id) => {
                let _ = self.store.set(FILTER_KEY, id.as_str());
                true
            },
            None => false,
        }
    }

    fn sync_request(&self) -> (q: SyncRequest)
        requires
            self.wf(),
        ensures
            sync_request_spec(self@, q),
    {
        let domain = self.store.get_or(ROOM_DOMAIN_KEY, DOMAIN_MATRIX);
        let mut server = String::from_str(HTTPS);
        server.append(domain.as_str());
        SyncRequest {
            server,
            filter: self.stored_value(FILTER_KEY),
            since: self.stored_value(SINCE_KEY),
            timeout_ms: MTX_LONG_TIMEOUT,
            room_id: self.stored_value(ROOM_ID_KEY),
            token: self.token.clone(),
        }
    }

    /// The single entry point of the sync loop. Does nothing while a cycle
    /// runs or while logged out. Otherwise asks for the room, then the filter,
    /// to be resolved where either is missing; and once both are there, sets
    /// the listening flag and hands out the one cycle to run.
    pub fn listen(&mut self) -> (r: ListenStep)
        requires
            old(self).wf(),
        ensures
            final(self).wf(),
            listen_spec(old(self)@, final(self)@, r),
    {
        if self.listening {
            return ListenStep::AlreadyListening;
        }
        if self.state != SessionState::LoggedIn {
            return ListenStep::NotLoggedIn;
        }
        let room_id = self.stored_value(ROOM_ID_KEY);
        if room_id.as_str().unicode_len() == 0 {
            return ListenStep::Room(self.room_lookup());
        }
        let filter = self.stored_value(FILTER_KEY);
        if filter.as_str().unicode_len() == 0 {
            return ListenStep::Filter(self.filter_lookup());
        }
        let q = self.sync_request();
        self.listening = true;
        ListenStep::Poll(q)
    }

    /// Ends a cycle with the cursor it produced. The flag is always cleared. A
    /// non-empty cursor is stored and, while the session is logged in and can
    /// reach the network, `listen` runs again; an empty cursor (a failed cycle)
    /// stops the loop.
    pub fn listen_over(&mut self, since: &str) -> (r: ListenStep)
        requires
            old(self).wf(),
        ensures
            final(self).wf(),
            listen_over_spec(old(self)@, since@, final(self)@, r),
    {
        proof {
            lemma_keys();
        }
        self.listening = false;
        if since.unicode_len() > 0 {
            let _ = self.store.set(SINCE_KEY, since);
            if self.state == SessionState::LoggedIn && (self.hosted || self.wifi_connected) {
                return self.listen();
            }
        }
        ListenStep::Stopped
    }
}

} // verus!
