use crate::code_gen::{normalize_code, normalized_code};
use crate::error::{bad_request, not_found, AppError};
use crate::text::{chars_of, has_prefix, opt_view, starts_with_chars, str_eq, string_from_chars, trim_chars, trimmed};
use vstd::prelude::*;

verus! {

/// How the codes of a group may be used.
#[derive(Clone, Copy, Debug, PartialEq, Eq, Structural)]
pub enum BatchKind {
    /// Each code can be used once, by one member.
    UniquePerCode,
    /// A code can be used up to its cap, but once per member.
    UniquePerUser,
    /// One code for many members, up to the group's total cap or expiry.
    SharedUnlimited,
}

/// The kind that a stored kind name stands for, if any.
pub open spec fn kind_named(s: Seq<char>) -> Option<BatchKind> {
    if s == "unique_per_code"@ {
        Some(BatchKind::UniquePerCode)
    } else if s == "unique_per_user"@ {
        Some(BatchKind::UniquePerUser)
    } else if s == "shared_unlimited"@ {
        Some(BatchKind::SharedUnlimited)
    } else {
        None
    }
}

/// Reads a stored kind name.
pub fn parse_batch_kind(s: &str) -> (r: Option<BatchKind>)
    ensures
        r == kind_named(s@),
{
    if str_eq(s, "unique_per_code") {
        Some(BatchKind::UniquePerCode)
    } else if str_eq(s, "unique_per_user") {
        Some(BatchKind::UniquePerUser)
    } else if str_eq(s, "shared_unlimited") {
        Some(BatchKind::SharedUnlimited)
    } else {
        None
    }
}

/// The name under which `k` is stored.
pub open spec fn kind_name(k: BatchKind) -> Seq<char> {
    match k {
        BatchKind::UniquePerCode => "unique_per_code"@,
        BatchKind::UniquePerUser => "unique_per_user"@,
        BatchKind::SharedUnlimited => "shared_unlimited"@,
    }
}

impl BatchKind {
    /// The name under which the kind is stored.
    pub fn name(&self) -> (r: &'static str)
        ensures
            r@ == kind_name(*self),
    {
        match self {
            BatchKind::UniquePerCode => "unique_per_code",
            BatchKind::UniquePerUser => "unique_per_user",
            BatchKind::SharedUnlimited => "shared_unlimited",
        }
    }
}

/// Each kind's stored name reads back as that kind.
pub proof fn law_kind_name_round_trip(k: BatchKind)
    ensures
        kind_named(kind_name(k)) == Some(k),
{
    reveal_strlit("unique_per_code");
    reveal_strlit("unique_per_user");
    reveal_strlit("shared_unlimited");
    match k {
        BatchKind::UniquePerCode => assert(kind_name(k) =~= "unique_per_code"@),
        BatchKind::UniquePerUser => {
            assert(kind_name(k) =~= "unique_per_user"@);
            assert(kind_name(k)[11] != "unique_per_code"@[11]);
        },
        BatchKind::SharedUnlimited => {
            assert(kind_name(k) =~= "shared_unlimited"@);
            assert(kind_name(k)[0] != "unique_per_code"@[0]);
            assert(kind_name(k)[0] != "unique_per_user"@[0]);
        },
    }
}

/// The longest role duration a code group may grant: ten years of hours.
pub const MAX_ROLE_DURATION_HOURS: i32 = 87600;

/// Checks a requested role duration. A missing or non-positive duration means a
/// permanent role (`None`); one above ten years is refused.
pub fn validate_role_duration(hours: Option<i32>) -> (r: Result<Option<i32>, AppError>)
    ensures
        match hours {
            None => r matches Ok(None),
            Some(h) => if h <= 0 {
                r matches Ok(None)
            } else if h > MAX_ROLE_DURATION_HOURS {
                r matches Err(e) && e is BadRequest && e.text()
                    == "Role duration is too long (max 10 years)"@
            } else {
                r matches Ok(Some(v)) && v == h
            },
        },
{
    match hours {
        None => Ok(None),
        Some(h) => {
            if h <= 0 {
                Ok(None)
            } else if h > MAX_ROLE_DURATION_HOURS {
                Err(bad_request("Role duration is too long (max 10 years)"))
            } else {
                Ok(Some(h))
            }
        },
    }
}

/// An invite URL is accepted when it starts with one of these schemes.
pub open spec fn is_web_url(t: Seq<char>) -> bool {
    has_prefix(t, "https://"@) || has_prefix(t, "http://"@)
}

/// Checks an optional Discord invite URL: blank means none, anything else must be
/// an `https://` or `http://` URL and is kept without surrounding white space.
pub fn normalize_invite_url(raw: Option<String>) -> (r: Result<Option<String>, AppError>)
    ensures
        match raw {
            None => r matches Ok(None),
            Some(s) => if trimmed(s@).len() == 0 {
                r matches Ok(None)
            } else if is_web_url(trimmed(s@)) {
                r matches Ok(Some(u)) && u@ == trimmed(s@)
            } else {
                r matches Err(e) && e is BadRequest && e.text()
                    == "Invite URL must start with https:// or http://"@
            },
        },
{
    match raw {
        None => Ok(None),
        Some(s) => {
            let t = trim_chars(&chars_of(s.as_str()));
            if t.len() == 0 {
                return Ok(None);
            }
            let https = chars_of("https://");
            let http = chars_of("http://");
            if !(starts_with_chars(&t, &https) || starts_with_chars(&t, &http)) {
                return Err(bad_request("Invite URL must start with https:// or http://"));
            }
            Ok(Some(string_from_chars(t.as_slice())))
        },
    }
}

/// What `normalize_invite_url` makes of an optional invite URL: the URL to store,
/// or a refusal.
pub open spec fn invite_rule(raw: Option<Seq<char>>) -> Result<Option<Seq<char>>, ()> {
    match raw {
        None => Ok(None),
        Some(s) => if trimmed(s).len() == 0 {
            Ok(None)
        } else if is_web_url(trimmed(s)) {
            Ok(Some(trimmed(s)))
        } else {
            Err(())
        },
    }
}

/// What `validate_role_duration` makes of a requested duration: the duration to store,
/// or a refusal.
pub open spec fn duration_rule(hours: Option<i32>) -> Result<Option<i32>, ()> {
    match hours {
        None => Ok(None),
        Some(h) => if h <= 0 {
            Ok(None)
        } else if h > MAX_ROLE_DURATION_HOURS {
            Err(())
        } else {
            Ok(Some(h))
        },
    }
}

/// The invite URL check in the shape of `invite_rule`.
proof fn lemma_invite_rule(raw: Option<String>, r: Result<Option<String>, AppError>)
    requires
        match raw {
            None => r matches Ok(None),
            Some(s) => if trimmed(s@).len() == 0 {
                r matches Ok(None)
            } else if is_web_url(trimmed(s@)) {
                r matches Ok(Some(u)) && u@ == trimmed(s@)
            } else {
                r is Err
            },
        },
    ensures
        match invite_rule(opt_view(raw)) {
            Ok(v) => r matches Ok(u) && opt_view(u) == v,
            Err(_) => r is Err,
        },
{
}

/// A group as an admin asks to create it. Times are microseconds since the Unix epoch.
pub struct CreateBatchBody {
    pub name: String,
    pub description: Option<String>,
    pub kind: String,
    pub max_redemptions_per_code: Option<i32>,
    pub max_redemptions_total: Option<i32>,
    pub expires_at: Option<i64>,
    pub invite_url: Option<String>,
    pub role_duration_hours: Option<i32>,
}

/// A group that passed the checks, ready to be stored.
pub struct NewBatch {
    pub name: String,
    pub description: Option<String>,
    pub kind: BatchKind,
    pub max_redemptions_per_code: Option<i32>,
    pub max_redemptions_total: Option<i32>,
    pub expires_at: Option<i64>,
    pub invite_url: Option<String>,
    pub role_duration_hours: Option<i32>,
}

/// Checks a request to create a group, in the order the service makes the checks:
/// a known kind, a name that is not blank, a valid invite URL, a valid duration.
pub fn validate_new_batch(body: CreateBatchBody) -> (r: Result<NewBatch, AppError>)
    ensures
        kind_named(body.kind@) is None ==> (r matches Err(e) && e is BadRequest && e.text()
            == "Invalid kind"@),
        kind_named(body.kind@) is Some && trimmed(body.name@).len() == 0 ==> (r matches Err(e)
            && e is BadRequest && e.text() == "Name required"@),
        kind_named(body.kind@) is Some && trimmed(body.name@).len() > 0 && invite_rule(
            opt_view(body.invite_url),
        ) is Err ==> (r matches Err(e) && e is BadRequest && e.text()
            == "Invite URL must start with https:// or http://"@),
        kind_named(body.kind@) is Some && trimmed(body.name@).len() > 0 && invite_rule(
            opt_view(body.invite_url),
        ) is Ok && duration_rule(body.role_duration_hours) is Err ==> (r matches Err(e)
            && e is BadRequest && e.text() == "Role duration is too long (max 10 years)"@),
        kind_named(body.kind@) is Some && trimmed(body.name@).len() > 0 && invite_rule(
            opt_view(body.invite_url),
        ) is Ok && duration_rule(body.role_duration_hours) is Ok ==> (r matches Ok(b) && {
            &&& b.name@ == trimmed(body.name@)
            &&& b.description == body.description
            &&& Some(b.kind) == kind_named(body.kind@)
            &&& b.max_redemptions_per_code == body.max_redemptions_per_code
            &&& b.max_redemptions_total == body.max_redemptions_total
            &&& b.expires_at == body.expires_at
            &&& Ok::<Option<Seq<char>>, ()>(opt_view(b.invite_url)) == invite_rule(
                opt_view(body.invite_url),
            )
            &&& Ok::<Option<i32>, ()>(b.role_duration_hours) == duration_rule(
                body.role_duration_hours,
            )
        }),
{
    let kind = match parse_batch_kind(body.kind.as_str()) {
        Some(k) => k,
        None => {
            return Err(bad_request("Invalid kind"));
        },
    };
    let name = trim_chars(&chars_of(body.name.as_str()));
    if name.len() == 0 {
        return Err(bad_request("Name required"));
    }
    let ghost raw_invite = body.invite_url;
    let invite = normalize_invite_url(body.invite_url);
    proof {
        lemma_invite_rule(raw_invite, invite);
    }
    let invite_url = match invite {
        Ok(u) => u,
        Err(e) => {
            return Err(e);
        },
    };
    let role_duration_hours = match validate_role_duration(body.role_duration_hours) {
        Ok(h) => h,
        Err(e) => {
            return Err(e);
        },
    };
    Ok(
        NewBatch {
            name: string_from_chars(name.as_slice()),
            description: body.description,
            kind,
            max_redemptions_per_code: body.max_redemptions_per_code,
            max_redemptions_total: body.max_redemptions_total,
            expires_at: body.expires_at,
            invite_url,
            role_duration_hours,
        },
    )
}

/// The answer to an insert refused because a group of that name already exists.
pub fn batch_name_taken() -> (e: AppError)
    ensures
        e is BadRequest,
        e.text() == "A batch with that name already exists"@,
{
    bad_request("A batch with that name already exists")
}

/// Changes an admin asks for on a group. An absent field stays as it is; for the
/// fields that may be cleared, `Some(None)` clears them. Times are microseconds since
/// the Unix epoch.
pub struct UpdateBatchBody {
    pub name: Option<String>,
    pub description: Option<String>,
    pub expires_at: Option<Option<i64>>,
    pub max_redemptions_total: Option<Option<i32>>,
    pub invite_url: Option<Option<String>>,
    pub role_duration_hours: Option<Option<i32>>,
}

/// The updates to store, field by field in the order the service stores them, and the
/// refusal that stops them. The fields before a refused one are stored all the same.
pub struct BatchChanges {
    pub name: Option<String>,
    pub description: Option<String>,
    pub expires_at: Option<Option<i64>>,
    pub max_redemptions_total: Option<Option<i32>>,
    pub invite_url: Option<Option<String>>,
    pub role_duration_hours: Option<Option<i32>>,
    pub error: Option<AppError>,
}

/// Plans the updates of a group: the name is stored trimmed, the invite URL and the
/// role duration are checked as on creation, and a refusal of the invite URL stops the
/// role duration from being looked at.
pub fn plan_batch_update(body: UpdateBatchBody) -> (r: BatchChanges)
    ensures
        match body.name {
            Some(n) => r.name matches Some(m) && m@ == trimmed(n@),
            None => r.name is None,
        },
        r.description == body.description,
        r.expires_at == body.expires_at,
        r.max_redemptions_total == body.max_redemptions_total,
        match body.invite_url {
            None => r.invite_url is None,
            Some(inv) => match invite_rule(opt_view(inv)) {
                Ok(v) => r.invite_url matches Some(x) && opt_view(x) == v,
                Err(_) => {
                    &&& r.invite_url is None
                    &&& r.role_duration_hours is None
                    &&& r.error matches Some(e) && e is BadRequest && e.text()
                        == "Invite URL must start with https:// or http://"@
                },
            },
        },
        !(body.invite_url matches Some(inv) && invite_rule(opt_view(inv)) is Err) ==> match body.role_duration_hours {
            None => r.role_duration_hours is None && r.error is None,
            Some(d) => match duration_rule(d) {
                Ok(v) => r.role_duration_hours == Some(v) && r.error is None,
                Err(_) => {
                    &&& r.role_duration_hours is None
                    &&& r.error matches Some(e) && e is BadRequest && e.text()
                        == "Role duration is too long (max 10 years)"@
                },
            },
        },
{
    let name = match body.name {
        Some(n) => Some(string_from_chars(trim_chars(&chars_of(n.as_str())).as_slice())),
        None => None,
    };
    let mut changes = BatchChanges {
        name,
        description: body.description,
        expires_at: body.expires_at,
        max_redemptions_total: body.max_redemptions_total,
        invite_url: None,
        role_duration_hours: None,
        error: None,
    };
    if let Some(inv) = body.invite_url {
        let ghost raw = inv;
        let checked = normalize_invite_url(inv);
        proof {
            lemma_invite_rule(raw, checked);
        }
        match checked {
            Ok(u) => {
                changes.invite_url = Some(u);
            },
            Err(e) => {
                changes.error = Some(e);
                return changes;
            },
        }
    }
    if let Some(d) = body.role_duration_hours {
        match validate_role_duration(d) {
            Ok(h) => {
                changes.role_duration_hours = Some(h);
            },
            Err(e) => {
                changes.error = Some(e);
            },
        }
    }
    changes
}

/// The page asked for, 1 when absent or below 1.
pub open spec fn page_number(page: Option<i64>) -> int {
    match page {
        Some(p) => if p < 1 {
            1
        } else {
            p as int
        },
        None => 1,
    }
}

/// The page size asked for, 50 when absent, kept within `1..=500`.
pub open spec fn page_size_of(size: Option<i64>) -> int {
    match size {
        Some(s) => if s < 1 {
            1
        } else if s > 500 {
            500
        } else {
            s as int
        },
        None => 50,
    }
}

/// A page of a listing: its number, its size and the rows it skips.
#[derive(Clone, Copy, Debug, PartialEq, Eq, Structural)]
pub struct PageWindow {
    pub page: i64,
    pub page_size: i64,
    pub offset: i64,
}

/// The page of a listing of codes or redemptions that the query asks for.
pub fn page_window(page: Option<i64>, page_size: Option<i64>) -> (r: PageWindow)
    requires
        (page_number(page) - 1) * page_size_of(page_size) <= i64::MAX,
    ensures
        r.page == page_number(page),
        r.page_size == page_size_of(page_size),
        r.offset == (page_number(page) - 1) * page_size_of(page_size),
{
    let p: i64 = match page {
        Some(p) => if p < 1 {
            1
        } else {
            p
        },
        None => 1,
    };
    let size: i64 = match page_size {
        Some(s) => if s < 1 {
            1
        } else if s > 500 {
            500
        } else {
            s
        },
        None => 50,
    };
    assert(0 <= (p - 1) * size) by (nonlinear_arith)
        requires
            p >= 1,
            size >= 1,
    ;
    PageWindow { page: p, page_size: size, offset: (p - 1) * size }
}

/// A stored group. Times are microseconds since the Unix epoch.
pub struct BatchRow {
    pub id: i64,
    pub name: String,
    pub description: Option<String>,
    pub kind: String,
    pub max_redemptions_per_code: Option<i32>,
    pub max_redemptions_total: Option<i32>,
    pub expires_at: Option<i64>,
    pub revoked_at: Option<i64>,
    pub created_at: i64,
    pub invite_url: Option<String>,
    pub role_duration_hours: Option<i32>,
}

/// A group as the admin listing shows it, with its counts and the redemptions left
/// under its total cap.
pub struct BatchView {
    pub id: i64,
    pub name: String,
    pub description: Option<String>,
    pub kind: String,
    pub max_redemptions_per_code: Option<i32>,
    pub max_redemptions_total: Option<i32>,
    pub expires_at: Option<i64>,
    pub revoked_at: Option<i64>,
    pub created_at: i64,
    pub invite_url: Option<String>,
    pub role_duration_hours: Option<i32>,
    pub total_codes: i64,
    pub total_redemptions: i64,
    pub remaining: Option<i64>,
}

/// The listing entry of a group with `total_codes` codes and `total_redemptions`
/// redemptions: what is left under the total cap, when there is one, may be negative
/// once an admin lowered the cap.
pub fn batch_view(row: BatchRow, total_codes: i64, total_redemptions: i64) -> (r: BatchView)
    requires
        row.max_redemptions_total matches Some(cap) ==> i64::MIN <= cap - total_redemptions <= i64::MAX,
    ensures
        r.id == row.id,
        r.name == row.name,
        r.description == row.description,
        r.kind == row.kind,
        r.max_redemptions_per_code == row.max_redemptions_per_code,
        r.max_redemptions_total == row.max_redemptions_total,
        r.expires_at == row.expires_at,
        r.revoked_at == row.revoked_at,
        r.created_at == row.created_at,
        r.invite_url == row.invite_url,
        r.role_duration_hours == row.role_duration_hours,
        r.total_codes == total_codes,
        r.total_redemptions == total_redemptions,
        r.remaining == match row.max_redemptions_total {
            Some(cap) => Some((cap - total_redemptions) as i64),
            None => None::<i64>,
        },
{
    let remaining = match row.max_redemptions_total {
        Some(cap) => Some(cap as i64 - total_redemptions),
        None => None,
    };
    BatchView {
        id: row.id,
        name: row.name,
        description: row.description,
        kind: row.kind,
        max_redemptions_per_code: row.max_redemptions_per_code,
        max_redemptions_total: row.max_redemptions_total,
        expires_at: row.expires_at,
        revoked_at: row.revoked_at,
        created_at: row.created_at,
        invite_url: row.invite_url,
        role_duration_hours: row.role_duration_hours,
        total_codes,
        total_redemptions,
        remaining,
    }
}

/// Only a manager of the guild may use the admin endpoints.
pub fn manager_check(is_manager: bool) -> (r: Result<(), AppError>)
    ensures
        is_manager ==> r is Ok,
        !is_manager ==> (r matches Err(e) && e is Forbidden),
{
    if is_manager {
        Ok(())
    } else {
        Err(AppError::Forbidden)
    }
}

/// Checks that a group belongs to the guild the admin manages, given the guild it is
/// stored under (`None` when there is no such group).
pub fn ensure_batch_in_guild(stored_guild: Option<String>, guild_id: &str) -> (r: Result<(), AppError>)
    ensures
        match stored_guild {
            Some(g) => if g@ == guild_id@ {
                r is Ok
            } else {
                r matches Err(e) && e is Forbidden
            },
            None => r matches Err(e) && e is NotFound && e.text() == "Batch not found"@,
        },
{
    match stored_guild {
        Some(g) => {
            if str_eq(g.as_str(), guild_id) {
                Ok(())
            } else {
                Err(AppError::Forbidden)
            }
        },
        None => Err(not_found("Batch not found")),
    }
}

/// Checks that a code belongs to the guild the admin manages, given its group and the
/// guild that group is stored under (`None` when there is no such code); answers with
/// the group.
pub fn ensure_code_in_guild(stored: Option<(i64, String)>, guild_id: &str) -> (r: Result<i64, AppError>)
    ensures
        match stored {
            Some((batch_id, g)) => if g@ == guild_id@ {
                r == Ok::<i64, AppError>(batch_id)
            } else {
                r matches Err(e) && e is Forbidden
            },
            None => r matches Err(e) && e is NotFound && e.text() == "Code not found"@,
        },
{
    match stored {
        Some((batch_id, g)) => {
            if str_eq(g.as_str(), guild_id) {
                Ok(batch_id)
            } else {
                Err(AppError::Forbidden)
            }
        },
        None => Err(not_found("Code not found")),
    }
}

/// How many random codes to make, 0 when absent, kept within `0..=1000`.
pub open spec fn code_count_of(count: Option<i32>) -> int {
    match count {
        Some(c) => if c < 0 {
            0
        } else if c > 1000 {
            1000
        } else {
            c as int
        },
        None => 0,
    }
}

/// The length of the random part of a code, 12 when absent, kept within `6..=20`.
pub open spec fn code_length_of(length: Option<i32>) -> int {
    match length {
        Some(l) => if l < 6 {
            6
        } else if l > 20 {
            20
        } else {
            l as int
        },
        None => 12,
    }
}

/// The number and the length of the random codes an admin asks for.
pub fn code_generation_sizes(count: Option<i32>, length: Option<i32>) -> (r: (usize, usize))
    ensures
        r.0 == code_count_of(count),
        r.1 == code_length_of(length),
{
    let c: i32 = match count {
        Some(c) => if c < 0 {
            0
        } else if c > 1000 {
            1000
        } else {
            c
        },
        None => 0,
    };
    let l: i32 = match length {
        Some(l) => if l < 6 {
            6
        } else if l > 20 {
            20
        } else {
            l
        },
        None => 12,
    };
    (c as usize, l as usize)
}

/// The sizes an admin asks for are used as they are when in range, and otherwise moved
/// to the nearest bound: a count within `0..=1000`, 0 when absent; a length within
/// `6..=20`, 12 when absent.
pub proof fn law_generation_sizes(count: Option<i32>, length: Option<i32>)
    ensures
        0 <= code_count_of(count) <= 1000,
        6 <= code_length_of(length) <= 20,
        count matches Some(c) ==> (0 <= c <= 1000 ==> code_count_of(count) == c),
        count matches Some(c) ==> (c < 0 ==> code_count_of(count) == 0),
        count matches Some(c) ==> (c > 1000 ==> code_count_of(count) == 1000),
        count is None ==> code_count_of(count) == 0,
        length matches Some(l) ==> (6 <= l <= 20 ==> code_length_of(length) == l),
        length matches Some(l) ==> (l < 6 ==> code_length_of(length) == 6),
        length matches Some(l) ==> (l > 20 ==> code_length_of(length) == 20),
        length is None ==> code_length_of(length) == 12,
{
}

/// A listing page starts right after the rows of the pages before it: its offset is
/// the number of the page before it times the page size, the number is at least 1 and
/// the size lies within `1..=500`, each as asked when in range.
pub proof fn law_page_bounds(page: Option<i64>, size: Option<i64>)
    ensures
        page_number(page) >= 1,
        1 <= page_size_of(size) <= 500,
        page matches Some(p) ==> (p >= 1 ==> page_number(page) == p),
        size matches Some(z) ==> (1 <= z <= 500 ==> page_size_of(size) == z),
        page is None ==> page_number(page) == 1,
        size is None ==> page_size_of(size) == 50,
{
}

/// How often a fresh random code is tried before the request is refused.
pub const MAX_CODE_ATTEMPTS: u32 = 5;

/// What follows the insert of a fresh random code.
#[derive(Clone, Copy, Debug, PartialEq, Eq, Structural)]
pub enum InsertStep {
    /// The code was stored; go on with the next one.
    Accept,
    /// The code existed already; try another.
    Retry,
    /// Too many collisions: refuse the request.
    GiveUp,
}

/// What follows the `attempts`-th try to store a fresh code, which was stored or not.
pub fn after_code_insert(attempts: u32, inserted: bool) -> (r: InsertStep)
    ensures
        inserted ==> r == InsertStep::Accept,
        !inserted && attempts >= MAX_CODE_ATTEMPTS ==> r == InsertStep::GiveUp,
        !inserted && attempts < MAX_CODE_ATTEMPTS ==> r == InsertStep::Retry,
{
    if inserted {
        InsertStep::Accept
    } else if attempts >= MAX_CODE_ATTEMPTS {
        InsertStep::GiveUp
    } else {
        InsertStep::Retry
    }
}

/// The answer when fresh codes keep colliding with stored ones.
pub fn code_collision_error() -> (e: AppError)
    ensures
        e is BadRequest,
        e.text() == "Code length too short for the requested count (collisions)"@,
{
    bad_request("Code length too short for the requested count (collisions)")
}

/// The codes an admin pastes, normalized, without those that normalize to nothing.
pub open spec fn custom_code_list(raws: Seq<String>) -> Seq<Seq<char>>
    decreases raws.len(),
{
    if raws.len() == 0 {
        Seq::empty()
    } else {
        let rest = custom_code_list(raws.drop_last());
        let c = normalized_code(raws.last()@);
        if c.len() > 0 {
            rest.push(c)
        } else {
            rest
        }
    }
}

/// The pasted codes that are kept are exactly the normalized forms that are not empty,
/// in the order pasted: every kept code is the normalized form of a pasted one and is
/// not empty, and a pasted code whose normalized form is not empty is kept.
pub proof fn law_custom_codes_kept(raws: Seq<String>)
    ensures
        custom_code_list(raws).len() <= raws.len(),
        forall|j: int|
            0 <= j < custom_code_list(raws).len() ==> (#[trigger] custom_code_list(raws)[j]).len() > 0
                && exists|i: int| 0 <= i < raws.len() && custom_code_list(raws)[j] == normalized_code(
                #[trigger] raws[i]@,
            ),
        forall|i: int|
            0 <= i < raws.len() && normalized_code(#[trigger] raws[i]@).len() > 0 ==> custom_code_list(
                raws,
            ).contains(normalized_code(raws[i]@)),
    decreases raws.len(),
{
    if raws.len() > 0 {
        let d = raws.drop_last();
        law_custom_codes_kept(d);
        let rest = custom_code_list(d);
        let c = normalized_code(raws.last()@);
        assert forall|j: int| 0 <= j < custom_code_list(raws).len() implies (#[trigger] custom_code_list(raws)[j]).len() > 0
            && exists|i: int| 0 <= i < raws.len() && custom_code_list(raws)[j] == normalized_code(
            #[trigger] raws[i]@,
        ) by {
            if j < rest.len() {
                assert(custom_code_list(raws)[j] == rest[j]);
                let i = choose|i: int| 0 <= i < d.len() && rest[j] == normalized_code(#[trigger] d[i]@);
                assert(raws[i] == d[i]);
            } else {
                assert(custom_code_list(raws)[j] == c);
                assert(raws[raws.len() - 1] == raws.last());
            }
        }
        assert forall|i: int| 0 <= i < raws.len() && normalized_code(#[trigger] raws[i]@).len() > 0 implies custom_code_list(
            raws,
        ).contains(normalized_code(raws[i]@)) by {
            if i < d.len() {
                assert(d[i] == raws[i]);
                let j = choose|j: int| 0 <= j < rest.len() && rest[j] == normalized_code(raws[i]@);
                if c.len() > 0 {
                    assert(custom_code_list(raws)[j] == rest[j]);
                } else {
                    assert(custom_code_list(raws) == rest);
                }
            } else {
                assert(raws[i] == raws.last());
                assert(custom_code_list(raws)[rest.len() as int] == c);
            }
        }
    }
}

/// The views of a list of strings.
pub open spec fn str_views(v: Seq<String>) -> Seq<Seq<char>> {
    v.map_values(|s: String| s@)
}

/// Normalizes the codes an admin pastes, dropping those that normalize to nothing.
pub fn custom_codes(raws: &Vec<String>) -> (r: Vec<String>)
    ensures
        str_views(r@) == custom_code_list(raws@),
{
    let mut out: Vec<String> = Vec::new();
    let mut i: usize = 0;
    while i < raws.len()
        invariant
            0 <= i <= raws@.len(),
            str_views(out@) == custom_code_list(raws@.take(i as int)),
        decreases raws@.len() - i,
    {
        let c = normalize_code(raws[i].as_str());
        let ghost before = out@;
        assert(raws@.take(i + 1).drop_last() =~= raws@.take(i as int));
        if !c.as_str().is_empty() {
            out.push(c);
            assert(str_views(out@) =~= str_views(before).push(out@[out@.len() - 1]@));
        }
        i = i + 1;
    }
    assert(raws@.take(i as int) =~= raws@);
    out
}

/// The query of the admin endpoints that act on one guild.
pub struct GuildQuery {
    pub guild_id: String,
}

/// The query of the paged admin listings.
pub struct ListCodesQuery {
    pub guild_id: String,
    pub page: Option<i64>,
    pub page_size: Option<i64>,
    pub q: Option<String>,
}

/// A request for codes: pasted codes, or `count` random ones of `length` characters
/// after an optional `prefix`.
pub struct GenerateCodesBody {
    pub count: Option<i32>,
    pub length: Option<i32>,
    pub prefix: Option<String>,
    pub custom_codes: Option<Vec<String>>,
}

} // verus!
