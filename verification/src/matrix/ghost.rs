//! The ghost users: one identity on the federated side for each user of the
//! team-chat side, provisioned on first need and remembered in a cache in
//! front of the table of user mappings.

use vstd::prelude::*;
use crate::db::error::DatabaseError;
use crate::db::models::{clone_opt, NewUserMapping, UserMapping, UserMappingChangeset};
use crate::db::stores::user_store::{
    changed_user_row, user_conflicts, user_has_matrix_id, user_has_zulip_id, user_rows_unique,
    UserStore,
};
use crate::db::stores::{
    at_most_one, find_first, lemma_find_first, lemma_find_first_at, lemma_find_first_push,
    lemma_find_first_unique, lemma_find_first_update_other,
};
use crate::matrix::ghost_cache::{
    cache_capacity, cache_clear, cache_entries, cache_get, cache_ghosts, cache_len, cache_new,
    cache_put,
    cached_view, entries_after_put, entries_after_use, entry_for, entry_index, CachedGhost,
    CachedGhostView,
};
use crate::matrix::{
    ghost_localpart_of, ghost_user_id, ghost_user_id_of, ghost_user_localpart, in_ghost_namespace,
    is_namespaced_user,
};
use crate::text::{
    chars_of, decimal, first_index_of, lemma_first_index_is, opt_str_view, opt_view, owned_opt,
    parse_i64, parse_i64_of, str_eq,
};
use crate::utils::clock::now_millis;
use crate::utils::BridgeError;

verus! {

/// The number of ghosts that the cache remembers at most.
pub const GHOST_CACHE_CAPACITY: usize = 1000;

/// What is known of a ghost.
#[derive(Clone, Debug)]
pub struct GhostUserInfo {
    pub zulip_user_id: i64,
    pub matrix_user_id: String,
    pub display_name: Option<String>,
    pub avatar_url: Option<String>,
}

impl GhostUserInfo {
    /// What the cache holds for this ghost.
    pub open spec fn content(&self) -> CachedGhostView {
        (self.matrix_user_id@, opt_view(self.display_name), opt_view(self.avatar_url))
    }
}

/// What the cache holds for the ghost of a row.
pub open spec fn user_content(row: UserMapping) -> CachedGhostView {
    (row.matrix_user_id@, opt_view(row.display_name), opt_view(row.avatar_url))
}

/// Whether a cache entry says what the table says of the same user.
pub open spec fn entry_agrees(entry: (i64, CachedGhostView), rows: Seq<UserMapping>) -> bool {
    match find_first(rows, user_has_zulip_id(entry.0)) {
        Some(row) => user_content(row) == entry.1,
        None => false,
    }
}

/// Whether every cache entry says what the table says of the same user.
pub open spec fn cache_agrees(
    entries: Seq<(i64, CachedGhostView)>,
    rows: Seq<UserMapping>,
) -> bool {
    forall|k: int| 0 <= k < entries.len() ==> entry_agrees(#[trigger] entries[k], rows)
}

/// A request for the ghost of a user.
#[derive(Clone, Debug)]
pub struct GhostRequest {
    pub zulip_user_id: i64,
    pub display_name: Option<String>,
    pub avatar_url: Option<String>,
    pub is_bot: bool,
}

/// What happened since the last step of a provisioning.
#[derive(Debug)]
pub enum GhostEvent {
    /// Nothing yet: the provisioning begins.
    Begin,
    /// The table was asked for the user's row and gave this answer.
    StoreAnswered(Option<UserMapping>),
    /// The table could not be asked.
    StoreFailed(DatabaseError),
    /// The registration on the federated side was attempted; whether it
    /// succeeded does not matter, because the ghost may exist from an
    /// earlier run.
    Registered(bool),
    /// Setting the display name was attempted; a failure is not fatal.
    DisplayNameSet(bool),
    /// The new row was stored.
    MappingStored,
    /// The new row could not be stored.
    MappingFailed(DatabaseError),
}

/// What to do next in a provisioning.
#[derive(Debug)]
pub enum GhostAction {
    /// Done: this is the ghost.
    Finished(GhostUserInfo),
    /// Given up.
    Failed(BridgeError),
    /// Ask the table for the row of this user.
    LookUpStore { zulip_user_id: i64 },
    /// Register the ghost on the federated side, with an empty password.
    Register { matrix_user_id: String, localpart: String, display_name: Option<String> },
    /// Set the ghost's display name on the federated side.
    SetDisplayName { matrix_user_id: String, display_name: String },
    /// Store this row.
    StoreMapping(NewUserMapping),
}

/// Whether `mapping` is the row to store for `request` on `domain`.
pub open spec fn mapping_for(
    mapping: NewUserMapping,
    request: GhostRequest,
    domain: Seq<char>,
) -> bool {
    &&& mapping.matrix_user_id@ == ghost_user_id_of(request.zulip_user_id as int, domain)
    &&& mapping.zulip_user_id == request.zulip_user_id
    &&& mapping.zulip_email is None
    &&& opt_view(mapping.display_name) == opt_view(request.display_name)
    &&& opt_view(mapping.avatar_url) == opt_view(request.avatar_url)
    &&& mapping.is_bot == request.is_bot
}

/// What the cache holds for a ghost that was just provisioned for `request`.
pub open spec fn fresh_content(request: GhostRequest, domain: Seq<char>) -> CachedGhostView {
    (
        ghost_user_id_of(request.zulip_user_id as int, domain),
        opt_view(request.display_name),
        opt_view(request.avatar_url),
    )
}

/// Whether `error` reports the failure `cause` of the table.
pub open spec fn reports(error: BridgeError, cause: DatabaseError) -> bool {
    error matches BridgeError::Database(m) && m@ == cause.label() + cause.detail()
}

/// The step of a provisioning: whether, with the cache holding `before`,
/// the event `event` leads to the action `action` and leaves the cache
/// holding `after`.
///
/// At the beginning a cached ghost ends the provisioning; otherwise the
/// table is asked. A row that the table has is put into the cache and ends
/// the provisioning; without one the ghost is registered. After the
/// registration, whatever its outcome, the display name is set where one
/// was given, and then, whatever the outcome of that, the row is stored.
/// Once it is stored the ghost is put into the cache and the provisioning
/// ends. A failure of the table ends it with that failure.
pub open spec fn provisioning_step(
    before: Seq<(i64, CachedGhostView)>,
    capacity: nat,
    domain: Seq<char>,
    request: GhostRequest,
    event: GhostEvent,
    action: GhostAction,
    after: Seq<(i64, CachedGhostView)>,
) -> bool {
    let z = request.zulip_user_id;
    match event {
        GhostEvent::Begin => {
            &&& after == entries_after_use(before, z)
            &&& match entry_for(before, z) {
                Some(content) => action matches GhostAction::Finished(info) && info.zulip_user_id
                    == z && info.content() == content,
                None => action matches GhostAction::LookUpStore { zulip_user_id }
                    && zulip_user_id == z,
            }
        },
        GhostEvent::StoreAnswered(Some(row)) => {
            &&& after == entries_after_put(before, capacity, z, user_content(row))
            &&& action matches GhostAction::Finished(info)
            &&& info.zulip_user_id == z
            &&& info.content() == user_content(row)
        },
        GhostEvent::StoreAnswered(None) => {
            &&& after == before
            &&& action matches GhostAction::Register { matrix_user_id, localpart, display_name }
            &&& matrix_user_id@ == ghost_user_id_of(z as int, domain)
            &&& localpart@ == ghost_localpart_of(z as int)
            &&& opt_view(display_name) == opt_view(request.display_name)
        },
        GhostEvent::StoreFailed(cause) => {
            &&& after == before
            &&& action matches GhostAction::Failed(error)
            &&& reports(error, cause)
        },
        GhostEvent::Registered(_) => {
            &&& after == before
            &&& match request.display_name {
                Some(name) => {
                    &&& action matches GhostAction::SetDisplayName { matrix_user_id, display_name }
                    &&& matrix_user_id@ == ghost_user_id_of(z as int, domain)
                    &&& display_name@ == name@
                },
                None => action matches GhostAction::StoreMapping(mapping) && mapping_for(
                    mapping,
                    request,
                    domain,
                ),
            }
        },
        GhostEvent::DisplayNameSet(_) => {
            &&& after == before
            &&& action matches GhostAction::StoreMapping(mapping)
            &&& mapping_for(mapping, request, domain)
        },
        GhostEvent::MappingStored => {
            &&& after == entries_after_put(before, capacity, z, fresh_content(request, domain))
            &&& action matches GhostAction::Finished(info)
            &&& info.zulip_user_id == z
            &&& info.content() == fresh_content(request, domain)
        },
        GhostEvent::MappingFailed(cause) => {
            &&& after == before
            &&& action matches GhostAction::Failed(error)
            &&& reports(error, cause)
        },
    }
}

/// `entry_index` lies within the entries or at their end; short of the end
/// it names the first entry for the key.
pub proof fn lemma_entry_index(entries: Seq<(i64, CachedGhostView)>, key: i64)
    ensures
        0 <= entry_index(entries, key) <= entries.len(),
        entry_index(entries, key) < entries.len() ==> entries[entry_index(entries, key)].0 == key,
        forall|k: int| 0 <= k < entry_index(entries, key) ==> (#[trigger] entries[k]).0 != key,
    decreases entries.len(),
{
    if entries.len() != 0 && entries[0].0 != key {
        let rest = entries.skip(1);
        lemma_entry_index(rest, key);
        assert forall|k: int| 0 <= k < 1 + entry_index(rest, key) implies (#[trigger] entries[k]).0
            != key by {
            if k > 0 {
                assert(rest[k - 1] == entries[k]);
            }
        }
    }
}

/// Using an entry changes no entry: a cache that agrees with the table
/// still does.
pub proof fn lemma_use_keeps_agreement(
    entries: Seq<(i64, CachedGhostView)>,
    rows: Seq<UserMapping>,
    key: i64,
)
    requires
        cache_agrees(entries, rows),
    ensures
        cache_agrees(entries_after_use(entries, key), rows),
{
    lemma_entry_index(entries, key);
    let i = entry_index(entries, key);
    let after = entries_after_use(entries, key);
    assert forall|k: int| 0 <= k < after.len() implies entry_agrees(#[trigger] after[k], rows) by {
        if 0 <= i < entries.len() {
            if k == 0 {
                assert(after[k] == entries[i]);
            } else if k - 1 < i {
                assert(after[k] == entries[k - 1]);
            } else {
                assert(after[k] == entries[k]);
            }
        }
    }
}

/// Putting an entry that agrees with the table into a cache that agrees
/// with it leaves a cache that agrees with it.
pub proof fn lemma_put_keeps_agreement(
    entries: Seq<(i64, CachedGhostView)>,
    capacity: nat,
    rows: Seq<UserMapping>,
    key: i64,
    value: CachedGhostView,
)
    requires
        cache_agrees(entries, rows),
        entry_agrees((key, value), rows),
    ensures
        cache_agrees(entries_after_put(entries, capacity, key, value), rows),
{
    lemma_entry_index(entries, key);
    let i = entry_index(entries, key);
    let after = entries_after_put(entries, capacity, key, value);
    assert forall|k: int| 0 <= k < after.len() implies entry_agrees(#[trigger] after[k], rows) by {
        if k == 0 {
            assert(after[k] == (key, value));
        } else if 0 <= i < entries.len() {
            if k - 1 < i {
                assert(after[k] == entries[k - 1]);
            } else {
                assert(after[k] == entries[k]);
            }
        } else if entries.len() == capacity && capacity > 0 {
            let head = seq![(key, value)];
            assert(after == head + entries.drop_last());
            assert(after[k] == entries.drop_last()[k - 1]);
        } else {
            let head = seq![(key, value)];
            assert(after == head + entries);
            assert(after[k] == entries[k - 1]);
        }
    }
}

/// A new row at the end of the table changes what no lookup found before:
/// a cache that agrees with the table still does.
pub proof fn lemma_new_row_keeps_agreement(
    entries: Seq<(i64, CachedGhostView)>,
    rows: Seq<UserMapping>,
    row: UserMapping,
)
    requires
        cache_agrees(entries, rows),
    ensures
        cache_agrees(entries, rows.push(row)),
{
    assert forall|k: int| 0 <= k < entries.len() implies entry_agrees(
        #[trigger] entries[k],
        rows.push(row),
    ) by {
        assert(entry_agrees(entries[k], rows));
        lemma_find_first_push(rows, user_has_zulip_id(entries[k].0), row);
    }
}

/// Whether `user_id` is among `members`.
pub open spec fn is_member(members: Seq<String>, user_id: Seq<char>) -> bool {
    exists|k: int| 0 <= k < members.len() && (#[trigger] members[k])@ == user_id
}

/// A cached content after a new profile: a display name or an avatar that
/// is given replaces the cached one.
pub open spec fn refreshed_content(
    content: CachedGhostView,
    display_name: Option<Seq<char>>,
    avatar_url: Option<Seq<char>>,
) -> CachedGhostView {
    (
        content.0,
        if display_name is Some {
            display_name
        } else {
            content.1
        },
        if avatar_url is Some {
            avatar_url
        } else {
            content.2
        },
    )
}

/// Whether `after` is what `row` becomes under a new profile: the display
/// name and the avatar as given, or kept where none is given; the bot flag
/// cleared; the instant of the update free; everything else kept.
pub open spec fn is_profiled_row(
    row: UserMapping,
    display_name: Option<Seq<char>>,
    avatar_url: Option<Seq<char>>,
    after: UserMapping,
) -> bool {
    &&& after.id == row.id
    &&& after.matrix_user_id == row.matrix_user_id
    &&& after.zulip_user_id == row.zulip_user_id
    &&& after.zulip_email == row.zulip_email
    &&& opt_view(after.display_name) == if display_name is Some {
        display_name
    } else {
        opt_view(row.display_name)
    }
    &&& opt_view(after.avatar_url) == if avatar_url is Some {
        avatar_url
    } else {
        opt_view(row.avatar_url)
    }
    &&& !after.is_bot
    &&& after.created_at == row.created_at
}

/// The user whose cached ghost has the identifier `matrix_user_id`: that of
/// the first such entry.
pub open spec fn cached_user_of(
    entries: Seq<(i64, CachedGhostView)>,
    matrix_user_id: Seq<char>,
) -> Option<i64>
    decreases entries.len(),
{
    if entries.len() == 0 {
        None
    } else if entries[0].1.0 == matrix_user_id {
        Some(entries[0].0)
    } else {
        cached_user_of(entries.skip(1), matrix_user_id)
    }
}

/// The number that the localpart of a ghost's identifier carries: what
/// follows the ghost prefix, up to the first colon, read as an integer.
pub open spec fn localpart_user_id(matrix_user_id: Seq<char>) -> Option<i64> {
    let rest = matrix_user_id.skip(8);
    parse_i64_of(rest.take(first_index_of(rest, ':')))
}

/// Reads the user id out of the localpart of a ghost's identifier; there is
/// none in an identifier outside the ghost namespace.
pub fn user_id_from_localpart(matrix_user_id: &str) -> (r: Option<i64>)
    ensures
        r == if in_ghost_namespace(matrix_user_id@) {
            localpart_user_id(matrix_user_id@)
        } else {
            None
        },
{
    if !is_namespaced_user(matrix_user_id) {
        return None;
    }
    proof {
        reveal_strlit("@_zulip_");
    }
    let all = chars_of(matrix_user_id);
    let n = all.len();
    let ghost rest = matrix_user_id@.skip(8);
    let mut i: usize = 8;
    while i < n && all[i] != ':'
        invariant
            8 <= i <= n,
            n == all@.len(),
            all@ == matrix_user_id@,
            rest == matrix_user_id@.skip(8),
            forall|k: int| 0 <= k < i - 8 ==> rest[k] != ':',
        decreases n - i,
    {
        i += 1;
    }
    proof {
        lemma_first_index_is(rest, ':', i - 8);
        assert(matrix_user_id@.subrange(8, i as int) =~= rest.take(i - 8));
    }
    parse_i64(matrix_user_id.substring_char(8, i))
}

/// The identifier that the namespace gives the ghost of a user lies in the
/// ghost namespace, and the number that its localpart carries is the
/// user's id, whatever the domain.
pub proof fn lemma_localpart_names_user(zulip_user_id: i64, domain: Seq<char>)
    ensures
        in_ghost_namespace(ghost_user_id_of(zulip_user_id as int, domain)),
        localpart_user_id(ghost_user_id_of(zulip_user_id as int, domain)) == Some(zulip_user_id),
{
    reveal_strlit("@");
    reveal_strlit("_zulip_");
    reveal_strlit(":");
    reveal_strlit("@_zulip_");
    let id = ghost_user_id_of(zulip_user_id as int, domain);
    let digits = decimal(zulip_user_id as int);
    assert("@_zulip_"@ =~= id.subrange(0, 8));
    let rest = id.skip(8);
    assert(rest =~= digits + ":"@ + domain);
    assert forall|k: int| 0 <= k < digits.len() implies digits[k] != ':' by {
        if zulip_user_id < 0 {
            crate::text::lemma_decimal_nat_value((-(zulip_user_id as int)) as nat);
            if k > 0 {
                let tail = crate::text::decimal_nat((-(zulip_user_id as int)) as nat);
                assert(digits[k] == tail[k - 1]);
                assert(crate::text::digit_value(tail[k - 1]) is Some);
            }
        } else {
            crate::text::lemma_decimal_nat_value(zulip_user_id as nat);
            assert(crate::text::digit_value(digits[k]) is Some);
        }
    }
    assert forall|k: int| 0 <= k < digits.len() implies rest[k] != ':' by {
        assert(rest[k] == digits[k]);
    }
    assert(rest[digits.len() as int] == ':');
    lemma_first_index_is(rest, ':', digits.len() as int);
    assert(rest.take(digits.len() as int) =~= digits);
    crate::text::lemma_parse_decimal(zulip_user_id);
}

/// Whether no two entries are for the same user.
pub open spec fn entries_distinct(entries: Seq<(i64, CachedGhostView)>) -> bool {
    forall|i: int, j: int|
        0 <= i < j < entries.len() ==> (#[trigger] entries[i]).0 != (#[trigger] entries[j]).0
}

/// Whether a cache is in order with a table: it holds one entry per user
/// at most, and every entry says what the table says of the same user.
pub open spec fn cache_consistent(
    entries: Seq<(i64, CachedGhostView)>,
    rows: Seq<UserMapping>,
) -> bool {
    entries_distinct(entries) && cache_agrees(entries, rows)
}

/// Using an entry leaves one entry per user at most.
pub proof fn lemma_use_keeps_distinct(entries: Seq<(i64, CachedGhostView)>, key: i64)
    requires
        entries_distinct(entries),
    ensures
        entries_distinct(entries_after_use(entries, key)),
{
    lemma_entry_index(entries, key);
    let i = entry_index(entries, key);
    let after = entries_after_use(entries, key);
    if 0 <= i < entries.len() {
        let source = |k: int|
            if k == 0 {
                i
            } else if k - 1 < i {
                k - 1
            } else {
                k
            };
        assert forall|a: int, b: int| 0 <= a < b < after.len() implies (#[trigger] after[a]).0 != (
        #[trigger] after[b]).0 by {
            assert(after[a] == entries[source(a)]);
            assert(after[b] == entries[source(b)]);
            assert(source(a) != source(b));
            if source(a) < source(b) {
                assert(entries[source(a)].0 != entries[source(b)].0);
            } else {
                assert(entries[source(b)].0 != entries[source(a)].0);
            }
        }
    }
}

/// Putting an entry leaves one entry per user at most.
pub proof fn lemma_put_keeps_distinct(
    entries: Seq<(i64, CachedGhostView)>,
    capacity: nat,
    key: i64,
    value: CachedGhostView,
)
    requires
        entries_distinct(entries),
    ensures
        entries_distinct(entries_after_put(entries, capacity, key, value)),
{
    lemma_entry_index(entries, key);
    let i = entry_index(entries, key);
    let after = entries_after_put(entries, capacity, key, value);
    let present = 0 <= i < entries.len();
    let source = |k: int|
        if present && k - 1 >= i {
            k
        } else {
            k - 1
        };
    assert forall|a: int, b: int| 0 <= a < b < after.len() implies (#[trigger] after[a]).0 != (
    #[trigger] after[b]).0 by {
        assert(after[0] == (key, value));
        assert(0 <= source(b) < entries.len());
        assert(after[b] == entries[source(b)]);
        if a == 0 {
            if present {
                assert(source(b) != i);
                if source(b) < i {
                    assert(entries[source(b)].0 != entries[i].0);
                } else {
                    assert(entries[i].0 != entries[source(b)].0);
                }
            }
        } else {
            assert(after[a] == entries[source(a)]);
            assert(source(a) < source(b));
        }
    }
}

/// The cache after the profile of the user `key` was refreshed: its entry,
/// if there is one, is brought up to the profile and moves to the front.
pub open spec fn entries_after_refresh(
    entries: Seq<(i64, CachedGhostView)>,
    capacity: nat,
    key: i64,
    display_name: Option<Seq<char>>,
    avatar_url: Option<Seq<char>>,
) -> Seq<(i64, CachedGhostView)> {
    match entry_for(entries, key) {
        Some(content) => entries_after_put(
            entries_after_use(entries, key),
            capacity,
            key,
            refreshed_content(content, display_name, avatar_url),
        ),
        None => entries_after_use(entries, key),
    }
}

/// A new profile that reaches the row of a user and then the user's cache
/// entry leaves the cache in order with the table.
pub proof fn lemma_profile_keeps_consistency(
    entries: Seq<(i64, CachedGhostView)>,
    capacity: nat,
    rows: Seq<UserMapping>,
    i: int,
    row: UserMapping,
    display_name: Option<Seq<char>>,
    avatar_url: Option<Seq<char>>,
)
    requires
        cache_consistent(entries, rows),
        user_rows_unique(rows),
        user_rows_unique(rows.update(i, row)),
        0 <= i < rows.len(),
        row.zulip_user_id == rows[i].zulip_user_id,
        user_content(row) == refreshed_content(user_content(rows[i]), display_name, avatar_url),
    ensures
        cache_consistent(
            entries_after_refresh(
                entries,
                capacity,
                rows[i].zulip_user_id,
                display_name,
                avatar_url,
            ),
            rows.update(i, row),
        ),
{
    let key = rows[i].zulip_user_id;
    let changed = rows.update(i, row);
    let after = entries_after_refresh(entries, capacity, key, display_name, avatar_url);
    let used = entries_after_use(entries, key);
    lemma_entry_index(entries, key);
    lemma_use_keeps_distinct(entries, key);
    lemma_use_keeps_agreement(entries, rows, key);
    let at = entry_index(entries, key);
    // every entry for another user finds its row unchanged
    assert forall|k: int| 0 <= k < used.len() && (#[trigger] used[k]).0 != key implies entry_agrees(
        used[k],
        changed,
    ) by {
        assert(entry_agrees(used[k], rows));
        lemma_find_first_update_other(rows, user_has_zulip_id(used[k].0), i, row);
    }
    // the row of the user is the changed row
    assert(at_most_one(changed, user_has_zulip_id(key)));
    assert(changed[i] == row);
    lemma_find_first_unique(changed, user_has_zulip_id(key), i);
    assert(at_most_one(rows, user_has_zulip_id(key)));
    lemma_find_first_unique(rows, user_has_zulip_id(key), i);
    if 0 <= at < entries.len() {
        let content = entries[at].1;
        assert(entry_agrees(entries[at], rows));
        assert(content == user_content(rows[i]));
        let fresh = refreshed_content(content, display_name, avatar_url);
        lemma_put_keeps_distinct(used, capacity, key, fresh);
        lemma_entry_index(used, key);
        assert(used[0] == entries[at]);
        assert(entry_index(used, key) == 0);
        assert(after =~= seq![(key, fresh)] + used.remove(0));
        assert forall|k: int| 0 <= k < after.len() implies entry_agrees(
            #[trigger] after[k],
            changed,
        ) by {
            if k > 0 {
                assert(after[k] == used[k]);
                assert(used[0].0 != used[k].0);
            }
        }
    } else {
        assert(used =~= entries);
        assert forall|k: int| 0 <= k < after.len() implies entry_agrees(
            #[trigger] after[k],
            changed,
        ) by {
            assert(entries[k].0 != key);
        }
    }
}

/// Whether the table `after` is what the table `before` becomes when the
/// ghost of the user `zulip_user_id` is asked for and given with the
/// content `content`: the table holds the user's row, which says what was
/// given; a user that had a row keeps it and nothing changes, and a user
/// without one gets one new row.
pub open spec fn ghost_provided(
    before: Seq<UserMapping>,
    after: Seq<UserMapping>,
    zulip_user_id: i64,
    content: CachedGhostView,
) -> bool {
    &&& find_first(after, user_has_zulip_id(zulip_user_id)) matches Some(row) && user_content(row)
        == content
    &&& match find_first(before, user_has_zulip_id(zulip_user_id)) {
        Some(_) => after == before,
        None => after.len() == before.len() + 1 && after.drop_last() == before,
    }
}

/// Whether the table refuses a ghost for the user `zulip_user_id`: the user
/// has no row, and a new one cannot be stored, because no row id is left or
/// because the identifier that the namespace gives the ghost is taken by
/// the row of another user.
pub open spec fn ghost_refused(
    rows: Seq<UserMapping>,
    next_id: i64,
    zulip_user_id: i64,
    domain: Seq<char>,
) -> bool {
    &&& find_first(rows, user_has_zulip_id(zulip_user_id)) is None
    &&& (next_id == i64::MAX || exists|i: int|
        0 <= i < rows.len() && (#[trigger] rows[i]).matrix_user_id@ == ghost_user_id_of(
            zulip_user_id as int,
            domain,
        ))
}

/// Whether exactly one row of `rows` is for the user `zulip_user_id`.
pub open spec fn one_row_for(rows: Seq<UserMapping>, zulip_user_id: i64) -> bool {
    exists|i: int|
        {
            &&& 0 <= i < rows.len()
            &&& (#[trigger] rows[i]).zulip_user_id == zulip_user_id
            &&& forall|j: int|
                0 <= j < rows.len() && j != i ==> (#[trigger] rows[j]).zulip_user_id
                    != zulip_user_id
        }
}

/// Asking for the ghost of a user again yields the same ghost and no
/// second row: where the ghost was given once, giving it again leaves the
/// table as it is, gives the same content, and the table holds exactly one
/// row for the user.
pub proof fn lemma_provisioning_again_changes_nothing(
    first: Seq<UserMapping>,
    second: Seq<UserMapping>,
    third: Seq<UserMapping>,
    zulip_user_id: i64,
    given_first: CachedGhostView,
    given_again: CachedGhostView,
)
    requires
        user_rows_unique(second),
        ghost_provided(first, second, zulip_user_id, given_first),
        ghost_provided(second, third, zulip_user_id, given_again),
    ensures
        third == second,
        given_again == given_first,
        one_row_for(third, zulip_user_id),
{
    lemma_find_first(second, user_has_zulip_id(zulip_user_id));
    let row = find_first(second, user_has_zulip_id(zulip_user_id))->0;
    let i = choose|i: int| 0 <= i < second.len() && second[i] == row;
    assert(second[i].zulip_user_id == zulip_user_id);
    assert forall|j: int| 0 <= j < second.len() && j != i implies (
    #[trigger] second[j]).zulip_user_id != zulip_user_id by {
        assert(second[i].zulip_user_id != second[j].zulip_user_id);
    }
}

/// Provisions ghosts and remembers them.
pub struct GhostUserManager {
    domain: String,
    cache: lru::LruCache<i64, CachedGhost>,
}

fn cached_of(
    matrix_user_id: &String,
    display_name: &Option<String>,
    avatar_url: &Option<String>,
) -> (r:
    CachedGhost)
    ensures
        cached_view(r) == (matrix_user_id@, opt_view(*display_name), opt_view(*avatar_url)),
{
    (matrix_user_id.clone(), clone_opt(display_name), clone_opt(avatar_url))
}

fn database_failure(cause: &DatabaseError) -> (r: BridgeError)
    ensures
        reports(r, *cause),
{
    BridgeError::Database(cause.message())
}

impl GhostUserManager {
    /// The domain on which the ghosts live.
    pub closed spec fn domain(&self) -> Seq<char> {
        self.domain@
    }

    /// The entries of the cache, the most recently used first.
    pub closed spec fn entries(&self) -> Seq<(i64, CachedGhostView)> {
        cache_entries(self.cache)
    }

    /// The number of ghosts that the cache remembers at most.
    pub closed spec fn capacity(&self) -> nat {
        cache_capacity(self.cache)
    }

    /// A manager for the ghosts on `domain`, with an empty cache.
    pub fn new(domain: &str) -> (r: Self)
        ensures
            r.domain() == domain@,
            r.entries() == Seq::<(i64, CachedGhostView)>::empty(),
            r.capacity() == GHOST_CACHE_CAPACITY,
    {
        GhostUserManager { domain: domain.to_owned(), cache: cache_new(GHOST_CACHE_CAPACITY) }
    }

    /// The identifier that the namespace gives the ghost of the user
    /// `zulip_user_id`.
    pub fn ghost_user_id(&self, zulip_user_id: i64) -> (r: String)
        ensures
            r@ == ghost_user_id_of(zulip_user_id as int, self.domain()),
    {
        ghost_user_id(zulip_user_id, self.domain.as_str())
    }

    /// Whether `matrix_user_id` lies in the ghost namespace.
    pub fn is_ghost_user(&self, matrix_user_id: &str) -> (r: bool)
        ensures
            r == in_ghost_namespace(matrix_user_id@),
    {
        is_namespaced_user(matrix_user_id)
    }

    /// Forgets every cached ghost.
    pub fn clear_cache(&mut self)
        ensures
            final(self).entries() == Seq::<(i64, CachedGhostView)>::empty(),
            final(self).capacity() == old(self).capacity(),
            final(self).domain() == old(self).domain(),
    {
        cache_clear(&mut self.cache);
    }

    /// The number of cached ghosts.
    pub fn cache_size(&self) -> (r: usize)
        ensures
            r == self.entries().len(),
    {
        cache_len(&self.cache)
    }

    fn mapping_of(&self, request: &GhostRequest) -> (r: NewUserMapping)
        ensures
            mapping_for(r, *request, self.domain()),
    {
        NewUserMapping {
            matrix_user_id: self.ghost_user_id(request.zulip_user_id),
            zulip_user_id: request.zulip_user_id,
            zulip_email: None,
            display_name: clone_opt(&request.display_name),
            avatar_url: clone_opt(&request.avatar_url),
            is_bot: request.is_bot,
        }
    }

    /// Makes one step of the provisioning of the ghost that `request` asks
    /// for: takes what happened and says what to do next.
    pub fn provision_step(&mut self, request: &GhostRequest, event: GhostEvent) -> (action:
        GhostAction)
        ensures
            provisioning_step(
                old(self).entries(),
                old(self).capacity(),
                old(self).domain(),
                *request,
                event,
                action,
                final(self).entries(),
            ),
            final(self).capacity() == old(self).capacity(),
            final(self).domain() == old(self).domain(),
    {
        let z = request.zulip_user_id;
        match event {
            GhostEvent::Begin => {
                match cache_get(&mut self.cache, z) {
                    Some(cached) => GhostAction::Finished(
                        GhostUserInfo {
                            zulip_user_id: z,
                            matrix_user_id: cached.0,
                            display_name: cached.1,
                            avatar_url: cached.2,
                        },
                    ),
                    None => GhostAction::LookUpStore { zulip_user_id: z },
                }
            },
            GhostEvent::StoreAnswered(Some(row)) => {
                let content = cached_of(&row.matrix_user_id, &row.display_name, &row.avatar_url);
                cache_put(&mut self.cache, z, content);
                GhostAction::Finished(
                    GhostUserInfo {
                        zulip_user_id: z,
                        matrix_user_id: row.matrix_user_id,
                        display_name: row.display_name,
                        avatar_url: row.avatar_url,
                    },
                )
            },
            GhostEvent::StoreAnswered(None) => GhostAction::Register {
                matrix_user_id: self.ghost_user_id(z),
                localpart: ghost_user_localpart(z),
                display_name: clone_opt(&request.display_name),
            },
            GhostEvent::StoreFailed(cause) => GhostAction::Failed(database_failure(&cause)),
            GhostEvent::Registered(_) => {
                match &request.display_name {
                    Some(name) => GhostAction::SetDisplayName {
                        matrix_user_id: self.ghost_user_id(z),
                        display_name: name.clone(),
                    },
                    None => GhostAction::StoreMapping(self.mapping_of(request)),
                }
            },
            GhostEvent::DisplayNameSet(_) => GhostAction::StoreMapping(self.mapping_of(request)),
            GhostEvent::MappingStored => {
                let matrix_user_id = self.ghost_user_id(z);
                let content = cached_of(
                    &matrix_user_id,
                    &request.display_name,
                    &request.avatar_url,
                );
                cache_put(&mut self.cache, z, content);
                GhostAction::Finished(
                    GhostUserInfo {
                        zulip_user_id: z,
                        matrix_user_id,
                        display_name: clone_opt(&request.display_name),
                        avatar_url: clone_opt(&request.avatar_url),
                    },
                )
            },
            GhostEvent::MappingFailed(cause) => GhostAction::Failed(database_failure(&cause)),
        }
    }

    /// Gives the ghost of the user `zulip_user_id`, provisioning it where the
    /// cache and the table `store` do not know it, with `store` as the
    /// table that is asked and written. The calls to the federated side are
    /// the caller's to make; what they answer changes nothing here.
    ///
    /// On success the table holds the user's row, which says what the
    /// result says. A user that had a row keeps it and the table is left as
    /// it was, so that asking again yields the same ghost and no second
    /// row; a user without one gets exactly one new row, for the ghost that
    /// the namespace gives it. Afterwards the cache holds what the result
    /// says. The provisioning fails exactly where the table refuses the
    /// ghost; the table is then left as it was.
    pub fn get_or_create_ghost(
        &mut self,
        store: &mut UserStore,
        zulip_user_id: i64,
        display_name: Option<&str>,
        avatar_url: Option<&str>,
        is_bot: bool,
    ) -> (r: Result<GhostUserInfo, BridgeError>)
        requires
            old(store).wf(),
            cache_consistent(old(self).entries(), old(store).rows()),
        ensures
            final(store).wf(),
            cache_consistent(final(self).entries(), final(store).rows()),
            final(self).capacity() == old(self).capacity(),
            final(self).domain() == old(self).domain(),
            r is Err <==> ghost_refused(
                old(store).rows(),
                old(store).next_id(),
                zulip_user_id,
                old(self).domain(),
            ),
            match r {
                Ok(info) => {
                    &&& info.zulip_user_id == zulip_user_id
                    &&& entry_for(final(self).entries(), zulip_user_id) == Some(info.content())
                    &&& ghost_provided(
                        old(store).rows(),
                        final(store).rows(),
                        zulip_user_id,
                        info.content(),
                    )
                    &&& match find_first(old(store).rows(), user_has_zulip_id(zulip_user_id)) {
                        Some(_) => true,
                        None => {
                            &&& final(store).rows().last().id == old(store).next_id()
                            &&& final(store).rows().last().zulip_user_id == zulip_user_id
                            &&& final(store).rows().last().zulip_email is None
                            &&& final(store).rows().last().is_bot == is_bot
                            &&& final(store).rows().last().updated_at
                                == final(store).rows().last().created_at
                            &&& info.matrix_user_id@ == ghost_user_id_of(
                                zulip_user_id as int,
                                old(self).domain(),
                            )
                            &&& opt_view(info.display_name) == opt_str_view(display_name)
                            &&& opt_view(info.avatar_url) == opt_str_view(avatar_url)
                        },
                    }
                },
                Err(e) => {
                    &&& e is Database
                    &&& final(store).rows() == old(store).rows()
                    &&& find_first(old(store).rows(), user_has_zulip_id(zulip_user_id)) is None
                },
            },
    {
        let request = GhostRequest {
            zulip_user_id,
            display_name: owned_opt(display_name),
            avatar_url: owned_opt(avatar_url),
            is_bot,
        };
        let ghost rows = store.rows();
        let ghost entries = self.entries();
        proof {
            lemma_entry_index(entries, zulip_user_id);
            lemma_use_keeps_agreement(entries, rows, zulip_user_id);
            lemma_use_keeps_distinct(entries, zulip_user_id);
        }
        match self.provision_step(&request, GhostEvent::Begin) {
            GhostAction::Finished(info) => {
                proof {
                    let i = entry_index(entries, zulip_user_id);
                    assert(entry_agrees(entries[i], rows));
                }
                return Ok(info);
            },
            GhostAction::LookUpStore { zulip_user_id: _ } => {},
            _ => {
                assert(false);
                return Err(BridgeError::InvalidState(String::new()));
            },
        }
        let existing = store.get_by_zulip_user(zulip_user_id);
        let found = existing.is_some();
        let ghost answered = self.entries();
        match self.provision_step(&request, GhostEvent::StoreAnswered(existing)) {
            GhostAction::Finished(info) => {
                proof {
                    assert(found);
                    let row = find_first(rows, user_has_zulip_id(zulip_user_id))->0;
                    lemma_put_keeps_agreement(
                        answered,
                        self.capacity(),
                        rows,
                        zulip_user_id,
                        user_content(row),
                    );
                    lemma_put_keeps_distinct(
                        answered,
                        self.capacity(),
                        zulip_user_id,
                        user_content(row),
                    );
                }
                return Ok(info);
            },
            GhostAction::Register { matrix_user_id: _, localpart: _, display_name: _ } => {},
            _ => {
                assert(false);
                return Err(BridgeError::InvalidState(String::new()));
            },
        }
        let mapping = match self.provision_step(&request, GhostEvent::Registered(true)) {
            GhostAction::StoreMapping(mapping) => mapping,
            GhostAction::SetDisplayName { matrix_user_id: _, display_name: _ } => {
                match self.provision_step(&request, GhostEvent::DisplayNameSet(true)) {
                    GhostAction::StoreMapping(mapping) => mapping,
                    _ => {
                        assert(false);
                        return Err(BridgeError::InvalidState(String::new()));
                    },
                }
            },
            _ => {
                assert(false);
                return Err(BridgeError::InvalidState(String::new()));
            },
        };
        let ghost wanted = mapping;
        let ghost next_id = store.next_id();
        proof {
            lemma_find_first(rows, user_has_zulip_id(zulip_user_id));
            assert(wanted.zulip_user_id == zulip_user_id);
            assert(wanted.matrix_user_id@ == ghost_user_id_of(
                zulip_user_id as int,
                self.domain(),
            ));
            assert(user_conflicts(rows, wanted) <==> exists|i: int|
                0 <= i < rows.len() && (#[trigger] rows[i]).matrix_user_id@ == ghost_user_id_of(
                    zulip_user_id as int,
                    self.domain(),
                ));
        }
        match store.create(mapping) {
            Ok(row) => {
                let ghost stored = self.entries();
                match self.provision_step(&request, GhostEvent::MappingStored) {
                    GhostAction::Finished(info) => {
                        proof {
                            lemma_find_first(rows, user_has_zulip_id(zulip_user_id));
                            let more = rows.push(row);
                            lemma_find_first_at(
                                more,
                                user_has_zulip_id(zulip_user_id),
                                rows.len() as int,
                            );
                            lemma_new_row_keeps_agreement(stored, rows, row);
                            lemma_put_keeps_agreement(
                                stored,
                                self.capacity(),
                                more,
                                zulip_user_id,
                                fresh_content(request, self.domain()),
                            );
                            lemma_put_keeps_distinct(
                                stored,
                                self.capacity(),
                                zulip_user_id,
                                fresh_content(request, self.domain()),
                            );
                            assert(more.drop_last() =~= rows);
                        }
                        Ok(info)
                    },
                    _ => {
                        assert(false);
                        Err(BridgeError::InvalidState(String::new()))
                    },
                }
            },
            Err(cause) => {
                match self.provision_step(&request, GhostEvent::MappingFailed(cause)) {
                    GhostAction::Failed(error) => Err(error),
                    _ => {
                        assert(false);
                        Err(BridgeError::InvalidState(String::new()))
                    },
                }
            },
        }
    }

    /// The identifier of the ghost of the user `zulip_user_id`: what the
    /// cache holds, else what the table `store` holds, else what the
    /// namespace gives.
    pub fn get_matrix_user_id(&mut self, store: &UserStore, zulip_user_id: i64) -> (r: Result<
        String,
        BridgeError,
    >)
        ensures
            final(self).entries() == entries_after_use(old(self).entries(), zulip_user_id),
            final(self).capacity() == old(self).capacity(),
            final(self).domain() == old(self).domain(),
            cache_consistent(old(self).entries(), store.rows()) ==> cache_consistent(
                final(self).entries(),
                store.rows(),
            ),
            r matches Ok(id) && id@ == match entry_for(old(self).entries(), zulip_user_id) {
                Some(content) => content.0,
                None => match find_first(store.rows(), user_has_zulip_id(zulip_user_id)) {
                    Some(row) => row.matrix_user_id@,
                    None => ghost_user_id_of(zulip_user_id as int, old(self).domain()),
                },
            },
    {
        proof {
            if cache_consistent(self.entries(), store.rows()) {
                lemma_use_keeps_agreement(self.entries(), store.rows(), zulip_user_id);
                lemma_use_keeps_distinct(self.entries(), zulip_user_id);
            }
        }
        if let Some(cached) = cache_get(&mut self.cache, zulip_user_id) {
            return Ok(cached.0);
        }
        if let Some(mapping) = store.get_by_zulip_user(zulip_user_id) {
            return Ok(mapping.matrix_user_id);
        }
        Ok(self.ghost_user_id(zulip_user_id))
    }

    /// The user whose ghost the cache holds under the identifier
    /// `matrix_user_id`. The cache is left as it is.
    pub fn cached_user(&self, matrix_user_id: &str) -> (r: Option<i64>)
        ensures
            r == cached_user_of(self.entries(), matrix_user_id@),
    {
        let ghosts = cache_ghosts(&self.cache);
        let ghost entries = self.entries();
        let mut i: usize = 0;
        proof {
            assert(entries.skip(0) =~= entries);
        }
        while i < ghosts.len()
            invariant
                i <= ghosts@.len(),
                entries == self.entries(),
                ghosts@.len() == entries.len(),
                forall|k: int|
                    0 <= k < ghosts@.len() ==> (#[trigger] ghosts@[k]).0 == entries[k].0
                        && ghosts@[k].1@ == entries[k].1.0,
                cached_user_of(entries, matrix_user_id@) == cached_user_of(
                    entries.skip(i as int),
                    matrix_user_id@,
                ),
            decreases ghosts@.len() - i,
        {
            proof {
                assert(entries.skip(i as int)[0] == entries[i as int]);
                assert(entries.skip(i as int).skip(1) =~= entries.skip(i + 1));
            }
            if str_eq(ghosts[i].1.as_str(), matrix_user_id) {
                return Some(ghosts[i].0);
            }
            i += 1;
        }
        None
    }

    /// The user that the ghost `matrix_user_id` stands for: none for an
    /// identifier outside the ghost namespace; else the user whose ghost
    /// the cache holds under that identifier; else the user of the row
    /// that the table `store` holds for the ghost; else the number that
    /// the identifier's localpart carries.
    pub fn get_zulip_user_id(&self, store: &UserStore, matrix_user_id: &str) -> (r: Result<
        Option<i64>,
        BridgeError,
    >)
        ensures
            r matches Ok(found) && found == if !in_ghost_namespace(matrix_user_id@) {
                None
            } else {
                match cached_user_of(self.entries(), matrix_user_id@) {
                    Some(user) => Some(user),
                    None => match find_first(store.rows(), user_has_matrix_id(matrix_user_id@)) {
                        Some(row) => Some(row.zulip_user_id),
                        None => localpart_user_id(matrix_user_id@),
                    },
                }
            },
    {
        if !self.is_ghost_user(matrix_user_id) {
            return Ok(None);
        }
        if let Some(user) = self.cached_user(matrix_user_id) {
            return Ok(Some(user));
        }
        if let Some(mapping) = store.get_by_matrix_user(matrix_user_id) {
            return Ok(Some(mapping.zulip_user_id));
        }
        Ok(user_id_from_localpart(matrix_user_id))
    }

    /// The changes that a new profile makes to a ghost's row, stamped `now`.
    pub fn profile_changes(display_name: Option<&str>, avatar_url: Option<&str>, now: i64) -> (r:
        UserMappingChangeset)
        ensures
            r.zulip_email is None,
            opt_view(r.display_name) == opt_str_view(display_name),
            opt_view(r.avatar_url) == opt_str_view(avatar_url),
            !r.is_bot,
            r.updated_at == now,
    {
        UserMappingChangeset {
            zulip_email: None,
            display_name: owned_opt(display_name),
            avatar_url: owned_opt(avatar_url),
            is_bot: false,
            updated_at: now,
        }
    }

    /// Brings the cached entry of the user `zulip_user_id`, if there is one,
    /// up to a new profile: a display name or an avatar that is given
    /// replaces the cached one. The entry becomes the most recently used.
    pub fn refresh_cached_profile(
        &mut self,
        zulip_user_id: i64,
        display_name: Option<&str>,
        avatar_url: Option<&str>,
    )
        ensures
            final(self).capacity() == old(self).capacity(),
            final(self).domain() == old(self).domain(),
            final(self).entries() == entries_after_refresh(
                old(self).entries(),
                old(self).capacity(),
                zulip_user_id,
                opt_str_view(display_name),
                opt_str_view(avatar_url),
            ),
    {
        if let Some(cached) = cache_get(&mut self.cache, zulip_user_id) {
            let name = match display_name {
                Some(n) => Some(n.to_owned()),
                None => cached.1,
            };
            let avatar = match avatar_url {
                Some(u) => Some(u.to_owned()),
                None => cached.2,
            };
            cache_put(&mut self.cache, zulip_user_id, (cached.0, name, avatar));
        }
    }

    /// Makes the profile of the ghost of the user `zulip_user_id` what is
    /// given, in the table `store` and then in the cache. The call that
    /// sets the display name on the federated side is the caller's to
    /// make; the table is updated whatever that call answered. Fails, and
    /// changes nothing, where the table holds no row for the ghost. In the
    /// cache, the entry that is brought up to the profile is that of the
    /// user whose row was changed, so that a cache that was in order with
    /// the table stays so.
    pub fn update_ghost_profile(
        &mut self,
        store: &mut UserStore,
        zulip_user_id: i64,
        display_name: Option<&str>,
        avatar_url: Option<&str>,
    ) -> (r: Result<(), BridgeError>)
        requires
            old(store).wf(),
        ensures
            final(store).wf(),
            final(self).capacity() == old(self).capacity(),
            final(self).domain() == old(self).domain(),
            match r {
                Ok(_) => {
                    &&& final(store).rows().len() == old(store).rows().len()
                    &&& find_first(
                        old(store).rows(),
                        user_has_matrix_id(
                            ghost_user_id_of(zulip_user_id as int, old(self).domain()),
                        ),
                    ) is Some
                    &&& forall|j: int|
                        0 <= j < old(store).rows().len() ==> if (#[trigger] old(
                            store,
                        ).rows()[j]).matrix_user_id@ == ghost_user_id_of(
                            zulip_user_id as int,
                            old(self).domain(),
                        ) {
                            is_profiled_row(
                                old(store).rows()[j],
                                opt_str_view(display_name),
                                opt_str_view(avatar_url),
                                final(store).rows()[j],
                            )
                        } else {
                            final(store).rows()[j] == old(store).rows()[j]
                        }
                    &&& final(self).entries() == entries_after_refresh(
                        old(self).entries(),
                        old(self).capacity(),
                        find_first(
                            old(store).rows(),
                            user_has_matrix_id(
                                ghost_user_id_of(zulip_user_id as int, old(self).domain()),
                            ),
                        )->0.zulip_user_id,
                        opt_str_view(display_name),
                        opt_str_view(avatar_url),
                    )
                    &&& cache_consistent(old(self).entries(), old(store).rows())
                        ==> cache_consistent(final(self).entries(), final(store).rows())
                },
                Err(e) => {
                    &&& e is Database
                    &&& find_first(
                        old(store).rows(),
                        user_has_matrix_id(
                            ghost_user_id_of(zulip_user_id as int, old(self).domain()),
                        ),
                    ) is None
                    &&& final(store).rows() == old(store).rows()
                    &&& final(self).entries() == old(self).entries()
                },
            },
    {
        let matrix_user_id = self.ghost_user_id(zulip_user_id);
        let now = now_millis();
        let changes = Self::profile_changes(display_name, avatar_url, now);
        proof {
            store.lemma_unique();
        }
        let owner = match store.update_by_matrix_user(matrix_user_id.as_str(), changes) {
            Ok(row) => {
                proof {
                    let i = choose|i: int|
                        {
                            &&& 0 <= i < old(store).rows().len()
                            &&& (#[trigger] old(store).rows()[i]).matrix_user_id@
                                == matrix_user_id@
                            &&& store.rows() == old(store).rows().update(
                                i,
                                changed_user_row(old(store).rows()[i], changes),
                            )
                        };
                    lemma_find_first(old(store).rows(), user_has_matrix_id(matrix_user_id@));
                    store.lemma_unique();
                    let before = old(store).rows();
                    assert(at_most_one(before, user_has_matrix_id(matrix_user_id@)));
                    lemma_find_first_unique(before, user_has_matrix_id(matrix_user_id@), i);
                    assert(row.zulip_user_id == before[i].zulip_user_id);
                    if cache_consistent(old(self).entries(), before) {
                        lemma_profile_keeps_consistency(
                            old(self).entries(),
                            old(self).capacity(),
                            before,
                            i,
                            changed_user_row(before[i], changes),
                            opt_str_view(display_name),
                            opt_str_view(avatar_url),
                        );
                    }
                }
                row.zulip_user_id
            },
            Err(cause) => {
                return Err(database_failure(&cause));
            },
        };
        self.refresh_cached_profile(owner, display_name, avatar_url);
        Ok(())
    }

    /// Whom to invite so that the ghost of the user `zulip_user_id` is in a
    /// room with the members `members`: the ghost, unless it is a member
    /// already. The bot invites; the ghost does not join by itself.
    pub fn ensure_ghost_in_room(&self, zulip_user_id: i64, members: &Vec<String>) -> (r: Option<
        String,
    >)
        ensures
            match r {
                Some(invitee) => invitee@ == ghost_user_id_of(zulip_user_id as int, self.domain())
                    && !is_member(members@, invitee@),
                None => is_member(
                    members@,
                    ghost_user_id_of(zulip_user_id as int, self.domain()),
                ),
            },
    {
        let matrix_user_id = self.ghost_user_id(zulip_user_id);
        let mut i: usize = 0;
        while i < members.len()
            invariant
                i <= members@.len(),
                matrix_user_id@ == ghost_user_id_of(zulip_user_id as int, self.domain()),
                forall|k: int| 0 <= k < i ==> (#[trigger] members@[k])@ != matrix_user_id@,
            decreases members@.len() - i,
        {
            if members[i] == matrix_user_id {
                assert(members@[i as int]@ == matrix_user_id@);
                return None;
            }
            i += 1;
        }
        Some(matrix_user_id)
    }

    /// As whom to leave a room so that the ghost of the user
    /// `zulip_user_id` is gone from it: as the ghost itself.
    pub fn remove_ghost_from_room(&self, zulip_user_id: i64) -> (r: String)
        ensures
            r@ == ghost_user_id_of(zulip_user_id as int, self.domain()),
    {
        self.ghost_user_id(zulip_user_id)
    }
}

} // verus!
