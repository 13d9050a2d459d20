//! The shared cache as this crate uses it: the four commands it sends, what
//! it relies on each of them to do to a cache whose keys expire, and the
//! command sequences that store and fetch login state and sessions.

use vstd::prelude::*;
use vstd::string::StringExecFns;

verus! {

/// Seconds that login state and sessions live after they were last written
/// or read.
pub const TTL_SECONDS: u64 = 300;

/// A command for the cache.
#[derive(Clone, Debug, PartialEq, Eq)]
pub enum StoreCommand {
    /// `SET key value`: writes the value and clears any deadline of the key.
    Put { key: String, value: String },
    /// `GET key`: reads the value.
    Get { key: String },
    /// `EXPIRE key seconds`: lets the key lapse `seconds` from now.
    Expire { key: String, seconds: u64 },
    /// `GETDEL key`: reads the value and deletes the key, in one step.
    GetDel { key: String },
}

/// How a write to the cache ended.
#[derive(Clone, Copy, Debug, PartialEq, Eq, Structural)]
pub enum WriteReply {
    /// Every command of the plan was carried out.
    Stored,
    /// The cache could not be reached, or did not answer in time.
    Unavailable,
}

/// Mathematical content of a [`StoreCommand`].
pub enum CommandView {
    Put { key: Seq<char>, value: Seq<char> },
    Get { key: Seq<char> },
    Expire { key: Seq<char>, seconds: int },
    GetDel { key: Seq<char> },
}

impl View for StoreCommand {
    type V = CommandView;

    open spec fn view(&self) -> CommandView {
        match *self {
            StoreCommand::Put { key, value } => CommandView::Put { key: key@, value: value@ },
            StoreCommand::Get { key } => CommandView::Get { key: key@ },
            StoreCommand::Expire { key, seconds } => CommandView::Expire {
                key: key@,
                seconds: seconds as int,
            },
            StoreCommand::GetDel { key } => CommandView::GetDel { key: key@ },
        }
    }
}

/// The views of a sequence of commands, in order.
pub open spec fn plan_view(commands: Seq<StoreCommand>) -> Seq<CommandView> {
    commands.map_values(|c: StoreCommand| c@)
}

/// One key of the cache: its value and the second at which it lapses.
pub struct Entry {
    pub value: Seq<char>,
    pub deadline: Option<int>,
}

/// The cache: its keys with their entries. Time is in seconds.
pub type Cache = Map<Seq<char>, Entry>;

/// Whether the cache still holds `key` at second `now`.
pub open spec fn holds(cache: Cache, key: Seq<char>, now: int) -> bool {
    &&& cache.dom().contains(key)
    &&& match cache[key].deadline {
        Some(deadline) => now < deadline,
        None => true,
    }
}

/// What a read of `key` at second `now` yields.
pub open spec fn read(cache: Cache, key: Seq<char>, now: int) -> Option<Seq<char>> {
    if holds(cache, key, now) {
        Some(cache[key].value)
    } else {
        None
    }
}

/// The cache after one command run at second `now`, and the value it
/// replies with, if any.
pub open spec fn execute(cache: Cache, command: CommandView, now: int) -> (Cache, Option<Seq<char>>) {
    match command {
        CommandView::Put { key, value } => (cache.insert(key, Entry { value, deadline: None }), None),
        CommandView::Get { key } => (cache, read(cache, key, now)),
        CommandView::Expire { key, seconds } => if holds(cache, key, now) {
            (
                cache.insert(key, Entry { value: cache[key].value, deadline: Some(now + seconds) }),
                None,
            )
        } else {
            (cache, None)
        },
        CommandView::GetDel { key } => (cache.remove(key), read(cache, key, now)),
    }
}

/// The cache after a sequence of commands, all run at second `now`.
pub open spec fn execute_all(cache: Cache, commands: Seq<CommandView>, now: int) -> Cache
    decreases commands.len(),
{
    if commands.len() == 0 {
        cache
    } else {
        execute_all(execute(cache, commands[0], now).0, commands.drop_first(), now)
    }
}

/// The key under which the state of a login attempt is stored: the CSRF
/// token behind the prefix `state:`.
pub open spec fn state_key(csrf_token: Seq<char>) -> Seq<char> {
    "state:"@ + csrf_token
}

/// The key under which a session is stored: its id behind the prefix
/// `session:`.
pub open spec fn session_key(session_id: Seq<char>) -> Seq<char> {
    "session:"@ + session_id
}

/// Writing a value that lapses after the time to live: `SET`, then `EXPIRE`.
pub open spec fn put_plan(key: Seq<char>, value: Seq<char>) -> Seq<CommandView> {
    seq![
        CommandView::Put { key, value },
        CommandView::Expire { key, seconds: TTL_SECONDS as int },
    ]
}

/// `key` was written or read at second `at` and lapses one time to live
/// later.
pub open spec fn touched_at(cache: Cache, key: Seq<char>, at: int) -> bool {
    cache.dom().contains(key) && cache[key].deadline == Some(at + TTL_SECONDS as int)
}

fn key_of_state(csrf_token: &str) -> (key: String)
    ensures
        key@ == state_key(csrf_token@),
{
    let mut key = String::from_str("state:");
    key.append(csrf_token);
    key
}

fn key_of_session(session_id: &str) -> (key: String)
    ensures
        key@ == session_key(session_id@),
{
    let mut key = String::from_str("session:");
    key.append(session_id);
    key
}

fn put(key: String, value: String) -> (plan: Vec<StoreCommand>)
    ensures
        plan_view(plan@) == put_plan(key@, value@),
{
    let mut plan: Vec<StoreCommand> = Vec::new();
    plan.push(StoreCommand::Put { key: key.clone(), value });
    plan.push(StoreCommand::Expire { key, seconds: TTL_SECONDS });
    assert(plan_view(plan@) =~= put_plan(key@, value@));
    plan
}

/// Stores the state of a login attempt under the state key of its CSRF
/// token, for one time to live.
pub fn put_state(csrf_token: &str, payload: String) -> (plan: Vec<StoreCommand>)
    ensures
        plan_view(plan@) == put_plan(state_key(csrf_token@), payload@),
{
    put(key_of_state(csrf_token), payload)
}

/// Fetches the state of a login attempt and deletes it in the same step, so
/// that of two callbacks with one token only one can see it. The command is
/// about the state key of the token and no other key.
pub fn take_state(csrf_token: &str) -> (command: StoreCommand)
    ensures
        command@ == (CommandView::GetDel { key: state_key(csrf_token@) }),
{
    StoreCommand::GetDel { key: key_of_state(csrf_token) }
}

/// Stores a session under the session key of its id, for one time to live.
pub fn put_session(session_id: &str, payload: String) -> (plan: Vec<StoreCommand>)
    ensures
        plan_view(plan@) == put_plan(session_key(session_id@), payload@),
{
    put(key_of_session(session_id), payload)
}

/// Reads a session by its id.
pub fn get_session(session_id: &str) -> (command: StoreCommand)
    ensures
        command@ == (CommandView::Get { key: session_key(session_id@) }),
{
    StoreCommand::Get { key: key_of_session(session_id) }
}

/// Gives a session a new time to live. This follows every read that found
/// a readable session, and no other.
pub fn refresh_session(session_id: &str) -> (command: StoreCommand)
    ensures
        command@ == (CommandView::Expire {
            key: session_key(session_id@),
            seconds: TTL_SECONDS as int,
        }),
{
    StoreCommand::Expire { key: key_of_session(session_id), seconds: TTL_SECONDS }
}

/// The cache after a read of a session at second `now` and what follows it,
/// with the value read. `readable` says whether what was read, if anything,
/// is a session.
pub open spec fn read_session(cache: Cache, session_id: Seq<char>, now: int, readable: bool) -> (
    Cache,
    Option<Seq<char>>,
) {
    let key = session_key(session_id);
    let found = execute(cache, CommandView::Get { key }, now).1;
    if found is Some && readable {
        let refresh = CommandView::Expire { key, seconds: TTL_SECONDS as int };
        (execute(cache, refresh, now).0, found)
    } else {
        (cache, found)
    }
}

/// What [`put_plan`] leaves behind: the value under the key, due one time to
/// live after `now`, and every other key as it was.
pub proof fn lemma_put(cache: Cache, key: Seq<char>, value: Seq<char>, now: int)
    ensures
        execute_all(cache, put_plan(key, value), now) == cache.insert(
            key,
            Entry { value, deadline: Some(now + TTL_SECONDS as int) },
        ),
{
    let plan = put_plan(key, value);
    let after_set = execute(cache, plan[0], now).0;
    let after_expire = execute(after_set, plan[1], now).0;
    assert(holds(after_set, key, now));
    assert(plan.drop_first().len() == 1);
    assert(plan.drop_first()[0] == plan[1]);
    assert(plan.drop_first().drop_first().len() == 0);
    assert(execute_all(after_expire, plan.drop_first().drop_first(), now) == after_expire);
    assert(execute_all(after_set, plan.drop_first(), now) == after_expire);
    assert(execute_all(cache, plan, now) == after_expire);
    assert(after_expire =~= cache.insert(
        key,
        Entry { value, deadline: Some(now + TTL_SECONDS as int) },
    ));
}

/// A command with the second at which it runs.
pub struct Step {
    pub command: CommandView,
    pub at: int,
}

/// The key that a command is about.
pub open spec fn key_of(command: CommandView) -> Seq<char> {
    match command {
        CommandView::Put { key, .. } => key,
        CommandView::Get { key } => key,
        CommandView::Expire { key, .. } => key,
        CommandView::GetDel { key } => key,
    }
}

/// Whether a command writes a value under `key`.
pub open spec fn writes(command: CommandView, key: Seq<char>) -> bool {
    command is Put && key_of(command) == key
}

/// The cache after a sequence of steps, each run at its own second.
pub open spec fn run(cache: Cache, steps: Seq<Step>) -> Cache
    decreases steps.len(),
{
    if steps.len() == 0 {
        cache
    } else {
        run(execute(cache, steps[0].command, steps[0].at).0, steps.drop_first())
    }
}

/// No step is about `key`.
pub open spec fn leaves_alone(steps: Seq<Step>, key: Seq<char>) -> bool {
    forall|i: int| 0 <= i < steps.len() ==> key_of(#[trigger] steps[i].command) != key
}

/// No step writes a value under `key`.
pub open spec fn never_writes(steps: Seq<Step>, key: Seq<char>) -> bool {
    forall|i: int| 0 <= i < steps.len() ==> !writes(#[trigger] steps[i].command, key)
}

/// Steps that leave a key alone leave it as it was.
pub proof fn lemma_untouched_key(cache: Cache, steps: Seq<Step>, key: Seq<char>)
    requires
        leaves_alone(steps, key),
    ensures
        run(cache, steps).dom().contains(key) == cache.dom().contains(key),
        cache.dom().contains(key) ==> run(cache, steps)[key] == cache[key],
    decreases steps.len(),
{
    if steps.len() > 0 {
        let next = execute(cache, steps[0].command, steps[0].at).0;
        assert(key_of(steps[0].command) != key);
        assert forall|i: int| 0 <= i < steps.drop_first().len() implies key_of(
            #[trigger] steps.drop_first()[i].command,
        ) != key by {
            assert(steps.drop_first()[i] == steps[i + 1]);
        }
        lemma_untouched_key(next, steps.drop_first(), key);
    }
}

/// A key that is gone stays gone until a value is written under it.
pub proof fn lemma_gone_stays_gone(cache: Cache, steps: Seq<Step>, key: Seq<char>)
    requires
        !cache.dom().contains(key),
        never_writes(steps, key),
    ensures
        !run(cache, steps).dom().contains(key),
    decreases steps.len(),
{
    if steps.len() > 0 {
        let next = execute(cache, steps[0].command, steps[0].at).0;
        assert(!writes(steps[0].command, key));
        assert(!next.dom().contains(key));
        assert forall|i: int| 0 <= i < steps.drop_first().len() implies !writes(
            #[trigger] steps.drop_first()[i].command,
            key,
        ) by {
            assert(steps.drop_first()[i] == steps[i + 1]);
        }
        lemma_gone_stays_gone(next, steps.drop_first(), key);
    }
}

/// Whether a key lies in the space of login state.
pub open spec fn is_state_key(key: Seq<char>) -> bool {
    "state:"@.is_prefix_of(key)
}

/// Whether a key lies in the space of sessions.
pub open spec fn is_session_key(key: Seq<char>) -> bool {
    "session:"@.is_prefix_of(key)
}

/// Every step is about a key of login state.
pub open spec fn state_traffic(steps: Seq<Step>) -> bool {
    forall|i: int| 0 <= i < steps.len() ==> is_state_key(key_of(#[trigger] steps[i].command))
}

/// Every step is about a key of a session.
pub open spec fn session_traffic(steps: Seq<Step>) -> bool {
    forall|i: int| 0 <= i < steps.len() ==> is_session_key(key_of(#[trigger] steps[i].command))
}

/// No key lies in both spaces: the second character of one is `t`, of the
/// other `e`.
pub proof fn lemma_no_key_in_both_spaces(key: Seq<char>)
    ensures
        !(is_state_key(key) && is_session_key(key)),
{
    reveal_strlit("state:");
    reveal_strlit("session:");
    if is_state_key(key) && is_session_key(key) {
        assert(key.subrange(0, 6)[1] == 't');
        assert(key.subrange(0, 8)[1] == 'e');
    }
}

/// The two key spaces are apart. The key of a login state lies in the one,
/// the key of a session in the other, and whatever the token and the id,
/// equal texts included, the two keys differ.
pub proof fn law_key_spaces_are_apart(csrf_token: Seq<char>, session_id: Seq<char>)
    ensures
        is_state_key(state_key(csrf_token)),
        is_session_key(session_key(session_id)),
        !is_session_key(state_key(csrf_token)),
        !is_state_key(session_key(session_id)),
        state_key(csrf_token) != session_key(session_id),
{
    reveal_strlit("state:");
    reveal_strlit("session:");
    assert(state_key(csrf_token).subrange(0, 6) =~= "state:"@);
    assert(session_key(session_id).subrange(0, 8) =~= "session:"@);
    lemma_no_key_in_both_spaces(state_key(csrf_token));
    lemma_no_key_in_both_spaces(session_key(session_id));
}

/// Taking login state touches nothing but that state. The take replies
/// with what is stored under the state key of the token; afterwards that
/// key is gone and every other key, the key of every session among them,
/// is there as before, with its value and its deadline.
pub proof fn law_take_state_leaves_the_rest(
    cache: Cache,
    csrf_token: Seq<char>,
    now: int,
    other: Seq<char>,
)
    ensures
        ({
            let take = CommandView::GetDel { key: state_key(csrf_token) };
            let (after, reply) = execute(cache, take, now);
            &&& reply == read(cache, state_key(csrf_token), now)
            &&& !after.dom().contains(state_key(csrf_token))
            &&& is_session_key(other) || other != state_key(csrf_token) ==> {
                &&& after.dom().contains(other) == cache.dom().contains(other)
                &&& after.dom().contains(other) ==> after[other] == cache[other]
            }
        }),
{
    lemma_no_key_in_both_spaces(other);
    law_key_spaces_are_apart(csrf_token, csrf_token);
}

/// A take whose token is the id of a live session leaves that session
/// alone: it is still read, with the same value, at any second before its
/// deadline.
pub proof fn law_take_state_spares_session_of_same_text(
    cache: Cache,
    text: Seq<char>,
    now: int,
    later: int,
)
    ensures
        ({
            let take = CommandView::GetDel { key: state_key(text) };
            let after = execute(cache, take, now).0;
            read(after, session_key(text), later) == read(cache, session_key(text), later)
        }),
{
    law_key_spaces_are_apart(text, text);
}

/// Whatever is done to login state leaves every session as it was.
pub proof fn law_state_traffic_leaves_sessions(
    cache: Cache,
    steps: Seq<Step>,
    session_id: Seq<char>,
)
    requires
        state_traffic(steps),
    ensures
        leaves_alone(steps, session_key(session_id)),
        run(cache, steps).dom().contains(session_key(session_id)) == cache.dom().contains(
            session_key(session_id),
        ),
        cache.dom().contains(session_key(session_id)) ==> run(cache, steps)[session_key(
            session_id,
        )] == cache[session_key(session_id)],
{
    let key = session_key(session_id);
    law_key_spaces_are_apart(session_id, session_id);
    assert forall|i: int| 0 <= i < steps.len() implies key_of(#[trigger] steps[i].command)
        != key by {
        lemma_no_key_in_both_spaces(key_of(steps[i].command));
    }
    lemma_untouched_key(cache, steps, key);
}

/// Whatever is done to sessions leaves every login state as it was.
pub proof fn law_session_traffic_leaves_states(
    cache: Cache,
    steps: Seq<Step>,
    csrf_token: Seq<char>,
)
    requires
        session_traffic(steps),
    ensures
        leaves_alone(steps, state_key(csrf_token)),
        never_writes(steps, state_key(csrf_token)),
        run(cache, steps).dom().contains(state_key(csrf_token)) == cache.dom().contains(
            state_key(csrf_token),
        ),
        cache.dom().contains(state_key(csrf_token)) ==> run(cache, steps)[state_key(csrf_token)]
            == cache[state_key(csrf_token)],
{
    let key = state_key(csrf_token);
    law_key_spaces_are_apart(csrf_token, csrf_token);
    assert forall|i: int| 0 <= i < steps.len() implies key_of(#[trigger] steps[i].command)
        != key by {
        lemma_no_key_in_both_spaces(key_of(steps[i].command));
    }
    lemma_untouched_key(cache, steps, key);
}

/// Login state is consumed by its first read. State is stored at second
/// `stored_at`; the cache then serves other keys; at second `first`, less
/// than one time to live later, the state is taken and handed out. Whatever
/// the cache is asked after that, short of storing login state under the
/// same token, a second take at any second finds nothing. Traffic on
/// sessions is always among what may come in between and after, by
/// [`law_session_traffic_leaves_states`].
pub proof fn law_state_is_taken_once(
    cache: Cache,
    csrf_token: Seq<char>,
    payload: Seq<char>,
    stored_at: int,
    between: Seq<Step>,
    first: int,
    later: Seq<Step>,
    second: int,
)
    requires
        stored_at <= first,
        first - stored_at < TTL_SECONDS,
        leaves_alone(between, state_key(csrf_token)),
        never_writes(later, state_key(csrf_token)),
    ensures
        ({
            let take = CommandView::GetDel { key: state_key(csrf_token) };
            let stored = execute_all(cache, put_plan(state_key(csrf_token), payload), stored_at);
            let taken = execute(run(stored, between), take, first);
            let again = execute(run(taken.0, later), take, second);
            &&& taken.1 == Some(payload)
            &&& again.1 is None
        }),
{
    let key = state_key(csrf_token);
    let take = CommandView::GetDel { key };
    let stored = execute_all(cache, put_plan(key, payload), stored_at);
    lemma_put(cache, key, payload, stored_at);
    lemma_untouched_key(stored, between, key);
    let taken = execute(run(stored, between), take, first);
    lemma_gone_stays_gone(taken.0, later, key);
}

/// Login state that nobody takes lapses by itself: a read one time to live
/// or more after it was stored finds nothing.
pub proof fn law_state_lapses(
    cache: Cache,
    csrf_token: Seq<char>,
    payload: Seq<char>,
    stored_at: int,
    now: int,
)
    requires
        now - stored_at >= TTL_SECONDS,
    ensures
        ({
            let key = state_key(csrf_token);
            let stored = execute_all(cache, put_plan(key, payload), stored_at);
            execute(stored, CommandView::GetDel { key }, now).1 is None
        }),
{
    lemma_put(cache, state_key(csrf_token), payload, stored_at);
}

/// Storing a session counts as its first access.
pub proof fn law_put_session_touches(
    cache: Cache,
    session_id: Seq<char>,
    payload: Seq<char>,
    now: int,
)
    ensures
        ({
            let key = session_key(session_id);
            let stored = execute_all(cache, put_plan(key, payload), now);
            &&& touched_at(stored, key, now)
            &&& stored[key].value == payload
        }),
{
    lemma_put(cache, session_key(session_id), payload, now);
}

/// Sessions expire on a sliding window. A session last accessed at second
/// `last` and read at second `now` is found exactly if less than one time
/// to live has passed. A read that finds it readable makes `now` its last
/// access and keeps its value; any other read leaves the cache as it was.
pub proof fn law_session_expiry_slides(
    cache: Cache,
    session_id: Seq<char>,
    last: int,
    now: int,
    readable: bool,
)
    requires
        touched_at(cache, session_key(session_id), last),
        last <= now,
    ensures
        ({
            let key = session_key(session_id);
            let (after, found) = read_session(cache, session_id, now, readable);
            &&& found is Some <==> now - last < TTL_SECONDS
            &&& found is Some ==> found == Some(cache[key].value)
            &&& found is Some && readable ==> touched_at(after, key, now)
            &&& found is Some && readable ==> after[key].value == cache[key].value
            &&& !(found is Some && readable) ==> after == cache
        }),
{
}

/// Traffic on other keys does not move the window of a session, and
/// traffic on login state is always traffic on other keys.
pub proof fn law_other_traffic_keeps_window(
    cache: Cache,
    session_id: Seq<char>,
    last: int,
    steps: Seq<Step>,
)
    requires
        touched_at(cache, session_key(session_id), last),
        leaves_alone(steps, session_key(session_id)) || state_traffic(steps),
    ensures
        touched_at(run(cache, steps), session_key(session_id), last),
        run(cache, steps)[session_key(session_id)].value == cache[session_key(session_id)].value,
{
    if state_traffic(steps) {
        law_state_traffic_leaves_sessions(cache, steps, session_id);
    }
    lemma_untouched_key(cache, steps, session_key(session_id));
}

/// Reading a session never disturbs another key.
pub proof fn law_session_read_is_local(
    cache: Cache,
    session_id: Seq<char>,
    other: Seq<char>,
    now: int,
    readable: bool,
)
    requires
        other != session_key(session_id),
    ensures
        ({
            let (after, _) = read_session(cache, session_id, now, readable);
            &&& after.dom().contains(other) == cache.dom().contains(other)
            &&& after.dom().contains(other) ==> after[other] == cache[other]
        }),
{
}

} // verus!
