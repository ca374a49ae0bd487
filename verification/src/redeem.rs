use crate::batch_rules::{kind_named, parse_batch_kind, BatchKind};
use crate::code_gen::{normalize_code, normalized_code};
use crate::outside::{hex_encode, hex_lower, sha256, sha256_of};
use crate::text::{chars_of, contains_str, opt_view, string_from_chars, trim_chars, trimmed};
use vstd::prelude::*;

verus! {

/// The characters of `s` before its first comma (all of `s` when it has none).
pub open spec fn first_field(s: Seq<char>) -> Seq<char>
    decreases s.len(),
{
    if s.len() == 0 {
        s
    } else if s[0] == ',' {
        Seq::empty()
    } else {
        seq![s[0]] + first_field(s.drop_first())
    }
}

/// The client address that the proxy headers give: `CF-Connecting-IP`, else
/// `X-Real-IP`, else the first entry of `X-Forwarded-For`, each without surrounding
/// white space and only when not blank.
pub open spec fn client_ip(
    cf_connecting_ip: Option<Seq<char>>,
    x_real_ip: Option<Seq<char>>,
    x_forwarded_for: Option<Seq<char>>,
) -> Option<Seq<char>> {
    if nonblank_trimmed(cf_connecting_ip) is Some {
        nonblank_trimmed(cf_connecting_ip)
    } else if nonblank_trimmed(x_real_ip) is Some {
        nonblank_trimmed(x_real_ip)
    } else {
        match x_forwarded_for {
            Some(v) => nonblank_trimmed(Some(first_field(v))),
            None => None,
        }
    }
}

/// A header value without surrounding white space, when that leaves something.
pub open spec fn nonblank_trimmed(v: Option<Seq<char>>) -> Option<Seq<char>> {
    match v {
        Some(s) => if trimmed(s).len() > 0 {
            Some(trimmed(s))
        } else {
            None
        },
        None => None,
    }
}

/// The characters of `s` before its first comma.
fn first_field_chars(s: &Vec<char>) -> (r: Vec<char>)
    ensures
        r@ == first_field(s@),
{
    let mut out: Vec<char> = Vec::new();
    let mut i: usize = 0;
    assert(s@.skip(0) =~= s@);
    while i < s.len() && s[i] != ','
        invariant
            0 <= i <= s@.len(),
            out@ == s@.take(i as int),
            first_field(s@) == s@.take(i as int) + first_field(s@.skip(i as int)),
        decreases s@.len() - i,
    {
        assert(s@.skip(i as int).drop_first() =~= s@.skip(i + 1));
        assert(s@.take(i + 1) =~= s@.take(i as int) + seq![s@[i as int]]);
        out.push(s[i]);
        i = i + 1;
    }
    assert(first_field(s@.skip(i as int)) =~= Seq::<char>::empty());
    assert(s@.take(i as int) + Seq::<char>::empty() =~= s@.take(i as int));
    out
}

/// The non-blank, trimmed value of an optional header.
fn trimmed_header(v: &Option<String>) -> (r: Option<Vec<char>>)
    ensures
        match v {
            Some(s) => if trimmed(s@).len() > 0 {
                r matches Some(t) && t@ == trimmed(s@)
            } else {
                r is None
            },
            None => r is None,
        },
{
    match v {
        Some(s) => {
            let t = trim_chars(&chars_of(s.as_str()));
            if t.len() > 0 {
                Some(t)
            } else {
                None
            }
        },
        None => None,
    }
}

/// The client address behind the reverse proxy, from the values of the
/// `CF-Connecting-IP`, `X-Real-IP` and `X-Forwarded-For` headers.
pub fn extract_ip(
    cf_connecting_ip: Option<String>,
    x_real_ip: Option<String>,
    x_forwarded_for: Option<String>,
) -> (r: Option<String>)
    ensures
        opt_view(r) == client_ip(
            opt_view(cf_connecting_ip),
            opt_view(x_real_ip),
            opt_view(x_forwarded_for),
        ),
{
    if let Some(t) = trimmed_header(&cf_connecting_ip) {
        return Some(string_from_chars(t.as_slice()));
    }
    if let Some(t) = trimmed_header(&x_real_ip) {
        return Some(string_from_chars(t.as_slice()));
    }
    if let Some(v) = &x_forwarded_for {
        let first = first_field_chars(&chars_of(v.as_str()));
        let t = trim_chars(&first);
        if t.len() > 0 {
            return Some(string_from_chars(t.as_slice()));
        }
    }
    None
}

/// The stored form of a client address: the lower-case hex SHA-256 of its UTF-8 bytes.
pub fn hash_ip(ip: &str) -> (r: String)
    ensures
        r@ == hex_lower(sha256_of(vstd::utf8::encode_utf8(ip@))),
{
    let digest = sha256(ip.as_bytes());
    hex_encode(digest.as_slice())
}

/// The text a typed code is looked up by: its normalized form, or `None` when nothing
/// is left of it, which is refused as `invalid` without a lookup.
pub fn lookup_key(input: &str) -> (r: Option<String>)
    ensures
        match r {
            Some(k) => k@ == normalized_code(input@) && k@.len() > 0,
            None => normalized_code(input@).len() == 0,
        },
{
    let k = normalize_code(input);
    if k.as_str().is_empty() {
        None
    } else {
        Some(k)
    }
}

/// A member who made `attempts` redemption attempts within the last hour may try no
/// more once `attempts` reaches `max_per_hour`.
pub fn user_rate_limited(attempts: i64, max_per_hour: i64) -> (r: bool)
    ensures
        r == (attempts >= max_per_hour),
{
    attempts >= max_per_hour
}

/// A client address is allowed five times the per-member limit.
pub fn ip_rate_limited(attempts: i64, max_per_hour: i64) -> (r: bool)
    requires
        i64::MIN <= 5 * max_per_hour <= i64::MAX,
    ensures
        r == (attempts >= 5 * max_per_hour),
{
    attempts >= max_per_hour * 5
}

/// Microseconds in an hour.
pub const MICROS_PER_HOUR: i64 = 3600000000;

/// When the role granted by a redemption at `now` ends: `hours` later for a positive
/// duration, never otherwise. Times are microseconds since the Unix epoch.
pub fn role_expiry(hours: Option<i32>, now: i64) -> (r: Option<i64>)
    requires
        i64::MIN + 2147483648 * MICROS_PER_HOUR <= now <= i64::MAX - 2147483647 * MICROS_PER_HOUR,
    ensures
        match hours {
            Some(h) => if h > 0 {
                r == Some((now + h * MICROS_PER_HOUR) as i64)
            } else {
                r is None
            },
            None => r is None,
        },
{
    match hours {
        Some(h) => {
            if h > 0 {
                assert(0 < h * MICROS_PER_HOUR <= 2147483647 * MICROS_PER_HOUR) by (nonlinear_arith)
                    requires
                        0 < h <= 2147483647,
                ;
                Some(now + (h as i64) * MICROS_PER_HOUR)
            } else {
                None
            }
        },
        None => None,
    }
}

/// Whether a redemption waits for the member to join the guild `guild_id`: when the
/// member's guilds are known and do not include it. When they could not be fetched the
/// redemption is not held back.
pub fn pending_flag(member_guilds: &Option<Vec<String>>, guild_id: &str) -> (r: bool)
    ensures
        match member_guilds {
            Some(gs) => r == !(exists|i: int| 0 <= i < gs@.len() && #[trigger] gs@[i]@ == guild_id@),
            None => !r,
        },
{
    match member_guilds {
        Some(gs) => !contains_str(gs, guild_id),
        None => false,
    }
}

/// Whether the insert of a redemption took place; none takes place when the member
/// redeemed the same code concurrently, which is then refused as already redeemed.
pub fn redemption_inserted(rows_affected: u64) -> (r: Result<(), RedeemError>)
    ensures
        rows_affected == 0 ==> r == Err::<(), RedeemError>(RedeemError::AlreadyRedeemedByYou),
        rows_affected != 0 ==> r is Ok,
{
    if rows_affected == 0 {
        Err(RedeemError::AlreadyRedeemedByYou)
    } else {
        Ok(())
    }
}

/// Why a typed code was not redeemed, as the redemption page reports it.
#[derive(Clone, Copy, Debug, PartialEq, Eq, Structural)]
pub enum RedeemError {
    /// No usable code of that text exists.
    Invalid,
    /// The code's group has expired.
    Expired,
    /// The code's group reached its total cap.
    Exhausted,
    /// The code itself has been used up.
    AlreadyUsed,
    /// The member already redeemed this code.
    AlreadyRedeemedByYou,
}

/// The wire name of each refusal.
pub open spec fn redeem_error_name(e: RedeemError) -> Seq<char> {
    match e {
        RedeemError::Invalid => "invalid"@,
        RedeemError::Expired => "expired"@,
        RedeemError::Exhausted => "exhausted"@,
        RedeemError::AlreadyUsed => "already_used"@,
        RedeemError::AlreadyRedeemedByYou => "already_redeemed_by_you"@,
    }
}

impl RedeemError {
    /// The wire name of the refusal, which the page maps to a message.
    pub fn code(&self) -> (r: &'static str)
        ensures
            r@ == redeem_error_name(*self),
    {
        match self {
            RedeemError::Invalid => "invalid",
            RedeemError::Expired => "expired",
            RedeemError::Exhausted => "exhausted",
            RedeemError::AlreadyUsed => "already_used",
            RedeemError::AlreadyRedeemedByYou => "already_redeemed_by_you",
        }
    }
}

/// A stored code whose text matches what the member typed, joined with its group.
/// Times are microseconds since the Unix epoch.
pub struct CodeCandidate {
    pub code_id: i64,
    pub batch_id: i64,
    pub uses_count: i32,
    pub code_revoked: bool,
    pub guild_id: String,
    pub kind: String,
    pub max_redemptions_per_code: Option<i32>,
    pub max_redemptions_total: Option<i32>,
    pub expires_at: Option<i64>,
    pub batch_name: String,
    pub invite_url: Option<String>,
    pub role_duration_hours: Option<i32>,
}

/// The group of `c` expired before `now`.
pub open spec fn is_expired(c: CodeCandidate, now: i64) -> bool {
    c.expires_at matches Some(exp) && exp < now
}

/// The code `c` itself has no use left: a one-time code used once, or a one-time or
/// per-person code that reached its per-code cap.
pub open spec fn uses_spent(c: CodeCandidate) -> bool {
    let k = kind_named(c.kind@);
    ||| (k == Some(BatchKind::UniquePerCode) && c.uses_count >= 1)
    ||| {
        &&& (k == Some(BatchKind::UniquePerCode) || k == Some(BatchKind::UniquePerUser))
        &&& c.max_redemptions_per_code matches Some(cap)
        &&& c.uses_count >= cap
    }
}

/// The group total cap of `c` is reached when the group has `total` redemptions.
pub open spec fn total_reached(c: CodeCandidate, total: int) -> bool {
    c.max_redemptions_total matches Some(cap) && total >= cap
}

/// Whether the member's earlier redemptions are looked up in the whole group of `c`:
/// a per-person code may be claimed once per member across its whole group.
pub open spec fn asks_group(c: CodeCandidate) -> bool {
    kind_named(c.kind@) == Some(BatchKind::UniquePerUser)
}

/// Whether the member already redeemed what `c` allows once: any code of its group
/// for a per-person code (`by_group`), the code itself otherwise (`by_code`).
pub open spec fn redeemed_before(c: CodeCandidate, by_code: bool, by_group: bool) -> bool {
    if asks_group(c) {
        by_group
    } else {
        by_code
    }
}

/// Why `c` cannot be redeemed by the member at `now`, if it can't, when its group
/// has `total` redemptions, `by_code` tells whether the member redeemed `c` and
/// `by_group` whether the member redeemed any code of its group.
/// The checks stand in the order in which the service makes them.
pub open spec fn verdict(c: CodeCandidate, now: i64, total: int, by_code: bool, by_group: bool) -> Option<
    RedeemError,
> {
    if c.code_revoked {
        Some(RedeemError::Invalid)
    } else if is_expired(c, now) {
        Some(RedeemError::Expired)
    } else if total_reached(c, total) {
        Some(RedeemError::Exhausted)
    } else if uses_spent(c) {
        Some(RedeemError::AlreadyUsed)
    } else if redeemed_before(c, by_code, by_group) {
        Some(RedeemError::AlreadyRedeemedByYou)
    } else {
        None
    }
}

/// Which candidate a redemption uses, from the `i`-th on, when `totals[j]` is the
/// redemption count of candidate `j`'s group, `by_code[j]` whether the member redeemed
/// candidate `j` and `by_group[j]` whether the member redeemed any code of its group:
/// the first that passes every check, or else the refusal of the last candidate
/// (`last` when none is left).
pub open spec fn scan_outcome(
    cands: Seq<CodeCandidate>,
    now: i64,
    totals: Seq<int>,
    by_code: Seq<bool>,
    by_group: Seq<bool>,
    i: int,
    last: RedeemError,
) -> Result<int, RedeemError>
    decreases cands.len() - i,
{
    if i < 0 || i >= cands.len() {
        Err(last)
    } else {
        match verdict(cands[i], now, totals[i], by_code[i], by_group[i]) {
            None => Ok(i),
            Some(e) => scan_outcome(cands, now, totals, by_code, by_group, i + 1, e),
        }
    }
}

/// The candidate that a redemption uses among `cands`, or the refusal it answers with;
/// with no candidate at all the code is `invalid`.
pub open spec fn redeem_choice(
    cands: Seq<CodeCandidate>,
    now: i64,
    totals: Seq<int>,
    by_code: Seq<bool>,
    by_group: Seq<bool>,
) -> Result<int, RedeemError> {
    scan_outcome(cands, now, totals, by_code, by_group, 0, RedeemError::Invalid)
}

/// Where the scan over the candidates stands: a question for the database about
/// candidate `at`, or the end.
#[derive(Clone, Copy, Debug, PartialEq, Eq, Structural)]
pub enum ScanStep {
    /// Count the redemptions of group `batch_id` and answer with `scan_after_total`.
    CountBatchRedemptions { at: usize, batch_id: i64 },
    /// Ask whether the member redeemed code `code_id` and answer with `scan_after_redeemed`.
    CheckAlreadyRedeemed { at: usize, code_id: i64 },
    /// Ask whether the member redeemed any code of group `batch_id` and answer with
    /// `scan_after_redeemed`.
    CheckRedeemedInGroup { at: usize, batch_id: i64 },
    /// Redeem candidate `at`.
    Chosen(usize),
    /// Refuse the redemption.
    Rejected(RedeemError),
}

/// The scan from candidate `i` on, after the checks that need no database answer.
pub open spec fn advance_spec(cands: Seq<CodeCandidate>, now: i64, i: int, last: RedeemError) -> ScanStep
    decreases cands.len() - i, 1int,
{
    if i < 0 || i >= cands.len() {
        ScanStep::Rejected(last)
    } else if cands[i].code_revoked {
        advance_spec(cands, now, i + 1, RedeemError::Invalid)
    } else if is_expired(cands[i], now) {
        advance_spec(cands, now, i + 1, RedeemError::Expired)
    } else if cands[i].max_redemptions_total is Some {
        ScanStep::CountBatchRedemptions { at: i as usize, batch_id: cands[i].batch_id }
    } else {
        after_caps_spec(cands, now, i)
    }
}

/// The question about the member's earlier redemptions that candidate `i` needs.
pub open spec fn redeemed_question(cands: Seq<CodeCandidate>, i: int) -> ScanStep {
    if asks_group(cands[i]) {
        ScanStep::CheckRedeemedInGroup { at: i as usize, batch_id: cands[i].batch_id }
    } else {
        ScanStep::CheckAlreadyRedeemed { at: i as usize, code_id: cands[i].code_id }
    }
}

/// The scan at candidate `i` once its group total is known to be below the cap.
pub open spec fn after_caps_spec(cands: Seq<CodeCandidate>, now: i64, i: int) -> ScanStep
    decreases cands.len() - i, 0int,
{
    if 0 <= i < cands.len() && uses_spent(cands[i]) {
        advance_spec(cands, now, i + 1, RedeemError::AlreadyUsed)
    } else {
        redeemed_question(cands, i)
    }
}

/// Whether a one-time or per-person code has no use left.
fn uses_spent_exec(c: &CodeCandidate) -> (r: bool)
    ensures
        r == uses_spent(*c),
{
    let k = parse_batch_kind(c.kind.as_str());
    let one_time = match k {
        Some(BatchKind::UniquePerCode) => true,
        _ => false,
    };
    let per_person = match k {
        Some(BatchKind::UniquePerUser) => true,
        _ => false,
    };
    if one_time && c.uses_count >= 1 {
        return true;
    }
    if one_time || per_person {
        if let Some(cap) = c.max_redemptions_per_code {
            if c.uses_count >= cap {
                return true;
            }
        }
    }
    false
}

/// The question about the member's earlier redemptions for candidate `i`.
fn ask_redeemed(cands: &Vec<CodeCandidate>, i: usize) -> (r: ScanStep)
    requires
        i < cands.len(),
    ensures
        r == redeemed_question(cands@, i as int),
{
    let c = &cands[i];
    match parse_batch_kind(c.kind.as_str()) {
        Some(BatchKind::UniquePerUser) => ScanStep::CheckRedeemedInGroup { at: i, batch_id: c.batch_id },
        _ => ScanStep::CheckAlreadyRedeemed { at: i, code_id: c.code_id },
    }
}

/// Scans the candidates from `from` on, skipping those that the checks without
/// database answers refuse, up to the first that needs an answer.
fn advance(cands: &Vec<CodeCandidate>, now: i64, from: usize, prior: RedeemError) -> (r: ScanStep)
    ensures
        r == advance_spec(cands@, now, from as int, prior),
{
    let mut i = from;
    let mut last = prior;
    while i < cands.len()
        invariant
            from <= i,
            advance_spec(cands@, now, from as int, prior) == advance_spec(cands@, now, i as int, last),
        decreases cands@.len() - i,
    {
        let c = &cands[i];
        if c.code_revoked {
            last = RedeemError::Invalid;
            i = i + 1;
        } else if match c.expires_at {
            Some(exp) => exp < now,
            None => false,
        } {
            last = RedeemError::Expired;
            i = i + 1;
        } else if c.max_redemptions_total.is_some() {
            return ScanStep::CountBatchRedemptions { at: i, batch_id: c.batch_id };
        } else if uses_spent_exec(c) {
            assert(after_caps_spec(cands@, now, i as int) == advance_spec(
                cands@,
                now,
                i + 1,
                RedeemError::AlreadyUsed,
            ));
            last = RedeemError::AlreadyUsed;
            i = i + 1;
        } else {
            assert(after_caps_spec(cands@, now, i as int) == redeemed_question(cands@, i as int));
            return ask_redeemed(cands, i);
        }
    }
    ScanStep::Rejected(last)
}

/// The scan at candidate `at` once its group is known to hold `total` redemptions.
pub open spec fn after_total_spec(cands: Seq<CodeCandidate>, now: i64, at: int, total: int) -> ScanStep {
    if total_reached(cands[at], total) {
        advance_spec(cands, now, at + 1, RedeemError::Exhausted)
    } else {
        after_caps_spec(cands, now, at)
    }
}

/// The scan at candidate `at` once the member's earlier redemptions are known:
/// `already` answers the question that the candidate needed.
pub open spec fn after_redeemed_spec(cands: Seq<CodeCandidate>, now: i64, at: int, already: bool) -> ScanStep {
    if already {
        advance_spec(cands, now, at + 1, RedeemError::AlreadyRedeemedByYou)
    } else {
        ScanStep::Chosen(at as usize)
    }
}

/// Starts the scan over the codes that match a typed code, at time `now`.
pub fn scan_start(cands: &Vec<CodeCandidate>, now: i64) -> (r: ScanStep)
    ensures
        r == advance_spec(cands@, now, 0, RedeemError::Invalid),
{
    advance(cands, now, 0, RedeemError::Invalid)
}

/// Goes on with the scan after `CountBatchRedemptions { at, .. }`, with the group's
/// redemption count `total`.
pub fn scan_after_total(cands: &Vec<CodeCandidate>, now: i64, at: usize, total: i64) -> (r: ScanStep)
    requires
        at < cands.len(),
    ensures
        r == after_total_spec(cands@, now, at as int, total as int),
{
    let c = &cands[at];
    let reached = match c.max_redemptions_total {
        Some(cap) => total >= cap as i64,
        None => false,
    };
    if reached {
        advance(cands, now, at + 1, RedeemError::Exhausted)
    } else if uses_spent_exec(c) {
        advance(cands, now, at + 1, RedeemError::AlreadyUsed)
    } else {
        ask_redeemed(cands, at)
    }
}

/// Goes on with the scan after `CheckAlreadyRedeemed { at, .. }` or
/// `CheckRedeemedInGroup { at, .. }`, with the answer to that question.
pub fn scan_after_redeemed(cands: &Vec<CodeCandidate>, now: i64, at: usize, already: bool) -> (r: ScanStep)
    requires
        at < cands.len(),
    ensures
        r == after_redeemed_spec(cands@, now, at as int, already),
{
    if already {
        advance(cands, now, at + 1, RedeemError::AlreadyRedeemedByYou)
    } else {
        ScanStep::Chosen(at)
    }
}

/// The question a step asks concerns a candidate that passed every check before it,
/// when `totals` are the true group counts, and it is the question that candidate needs.
pub open spec fn step_ready(cands: Seq<CodeCandidate>, now: i64, totals: Seq<int>, s: ScanStep) -> bool {
    match s {
        ScanStep::CountBatchRedemptions { at, batch_id } => {
            &&& at < cands.len()
            &&& !cands[at as int].code_revoked
            &&& !is_expired(cands[at as int], now)
            &&& cands[at as int].max_redemptions_total is Some
            &&& batch_id == cands[at as int].batch_id
        },
        ScanStep::CheckAlreadyRedeemed { at, code_id } => {
            &&& at < cands.len()
            &&& !cands[at as int].code_revoked
            &&& !is_expired(cands[at as int], now)
            &&& !total_reached(cands[at as int], totals[at as int])
            &&& !uses_spent(cands[at as int])
            &&& !asks_group(cands[at as int])
            &&& code_id == cands[at as int].code_id
        },
        ScanStep::CheckRedeemedInGroup { at, batch_id } => {
            &&& at < cands.len()
            &&& !cands[at as int].code_revoked
            &&& !is_expired(cands[at as int], now)
            &&& !total_reached(cands[at as int], totals[at as int])
            &&& !uses_spent(cands[at as int])
            &&& asks_group(cands[at as int])
            &&& batch_id == cands[at as int].batch_id
        },
        _ => true,
    }
}

/// The true answer to the question of a step about earlier redemptions.
pub open spec fn true_answer(s: ScanStep, by_code: Seq<bool>, by_group: Seq<bool>) -> bool {
    match s {
        ScanStep::CheckAlreadyRedeemed { at, .. } => by_code[at as int],
        ScanStep::CheckRedeemedInGroup { at, .. } => by_group[at as int],
        _ => false,
    }
}

/// The candidate a step asks about.
pub open spec fn step_at(s: ScanStep) -> int {
    match s {
        ScanStep::CountBatchRedemptions { at, .. } => at as int,
        ScanStep::CheckAlreadyRedeemed { at, .. } => at as int,
        ScanStep::CheckRedeemedInGroup { at, .. } => at as int,
        ScanStep::Chosen(at) => at as int,
        ScanStep::Rejected(_) => 0,
    }
}

/// Where a step leads when the database answers truthfully: the candidate chosen or
/// the refusal.
pub open spec fn step_outcome(
    cands: Seq<CodeCandidate>,
    now: i64,
    totals: Seq<int>,
    by_code: Seq<bool>,
    by_group: Seq<bool>,
    s: ScanStep,
) -> Result<int, RedeemError> {
    match s {
        ScanStep::Chosen(i) => Ok(i as int),
        ScanStep::Rejected(e) => Err(e),
        _ => scan_outcome(cands, now, totals, by_code, by_group, step_at(s), RedeemError::Invalid),
    }
}

/// The checks without database answers lead where the full scan leads.
proof fn lemma_advance_outcome(
    cands: Seq<CodeCandidate>,
    now: i64,
    totals: Seq<int>,
    by_code: Seq<bool>,
    by_group: Seq<bool>,
    j: int,
    last: RedeemError,
)
    requires
        0 <= j,
        cands.len() <= usize::MAX,
        totals.len() == cands.len(),
        by_code.len() == cands.len(),
        by_group.len() == cands.len(),
    ensures
        step_ready(cands, now, totals, advance_spec(cands, now, j, last)),
        step_outcome(cands, now, totals, by_code, by_group, advance_spec(cands, now, j, last))
            == scan_outcome(cands, now, totals, by_code, by_group, j, last),
    decreases cands.len() - j,
{
    if j < cands.len() {
        let c = cands[j];
        if c.code_revoked {
            lemma_advance_outcome(cands, now, totals, by_code, by_group, j + 1, RedeemError::Invalid);
        } else if is_expired(c, now) {
            lemma_advance_outcome(cands, now, totals, by_code, by_group, j + 1, RedeemError::Expired);
        } else if c.max_redemptions_total is Some {
            assert(advance_spec(cands, now, j, last) == ScanStep::CountBatchRedemptions {
                at: j as usize,
                batch_id: c.batch_id,
            });
            assert(scan_outcome(cands, now, totals, by_code, by_group, j, last) == scan_outcome(
                cands,
                now,
                totals,
                by_code,
                by_group,
                j,
                RedeemError::Invalid,
            ));
        } else if uses_spent(c) {
            assert(advance_spec(cands, now, j, last) == after_caps_spec(cands, now, j));
            lemma_advance_outcome(cands, now, totals, by_code, by_group, j + 1, RedeemError::AlreadyUsed);
        } else {
            assert(advance_spec(cands, now, j, last) == after_caps_spec(cands, now, j));
            assert(advance_spec(cands, now, j, last) == redeemed_question(cands, j));
            assert(scan_outcome(cands, now, totals, by_code, by_group, j, last) == scan_outcome(
                cands,
                now,
                totals,
                by_code,
                by_group,
                j,
                RedeemError::Invalid,
            ));
        }
    }
}

/// The scan starts out heading for the redemption's outcome.
pub proof fn law_scan_start(
    cands: Seq<CodeCandidate>,
    now: i64,
    totals: Seq<int>,
    by_code: Seq<bool>,
    by_group: Seq<bool>,
)
    requires
        cands.len() <= usize::MAX,
        totals.len() == cands.len(),
        by_code.len() == cands.len(),
        by_group.len() == cands.len(),
    ensures
        step_ready(cands, now, totals, advance_spec(cands, now, 0, RedeemError::Invalid)),
        step_outcome(cands, now, totals, by_code, by_group, advance_spec(cands, now, 0, RedeemError::Invalid))
            == redeem_choice(cands, now, totals, by_code, by_group),
{
    lemma_advance_outcome(cands, now, totals, by_code, by_group, 0, RedeemError::Invalid);
}

/// Answering a count question with the true count keeps the scan heading for the
/// same outcome.
pub proof fn law_scan_after_total(
    cands: Seq<CodeCandidate>,
    now: i64,
    totals: Seq<int>,
    by_code: Seq<bool>,
    by_group: Seq<bool>,
    s: ScanStep,
)
    requires
        cands.len() <= usize::MAX,
        totals.len() == cands.len(),
        by_code.len() == cands.len(),
        by_group.len() == cands.len(),
        s is CountBatchRedemptions,
        step_ready(cands, now, totals, s),
    ensures
        step_ready(cands, now, totals, after_total_spec(cands, now, step_at(s), totals[step_at(s)])),
        step_outcome(cands, now, totals, by_code, by_group, after_total_spec(cands, now, step_at(s), totals[step_at(s)]))
            == step_outcome(cands, now, totals, by_code, by_group, s),
{
    let at = step_at(s);
    let c = cands[at];
    if total_reached(c, totals[at]) {
        lemma_advance_outcome(cands, now, totals, by_code, by_group, at + 1, RedeemError::Exhausted);
    } else if uses_spent(c) {
        lemma_advance_outcome(cands, now, totals, by_code, by_group, at + 1, RedeemError::AlreadyUsed);
    }
}

/// Answering the question about earlier redemptions truthfully, for the code or for
/// its whole group as the step asks, keeps the scan heading for the same outcome.
pub proof fn law_scan_after_redeemed(
    cands: Seq<CodeCandidate>,
    now: i64,
    totals: Seq<int>,
    by_code: Seq<bool>,
    by_group: Seq<bool>,
    s: ScanStep,
)
    requires
        cands.len() <= usize::MAX,
        totals.len() == cands.len(),
        by_code.len() == cands.len(),
        by_group.len() == cands.len(),
        s is CheckAlreadyRedeemed || s is CheckRedeemedInGroup,
        step_ready(cands, now, totals, s),
    ensures
        step_ready(cands, now, totals, after_redeemed_spec(cands, now, step_at(s), true_answer(s, by_code, by_group))),
        step_outcome(cands, now, totals, by_code, by_group, after_redeemed_spec(cands, now, step_at(s), true_answer(s, by_code, by_group)))
            == step_outcome(cands, now, totals, by_code, by_group, s),
{
    let at = step_at(s);
    if true_answer(s, by_code, by_group) {
        lemma_advance_outcome(cands, now, totals, by_code, by_group, at + 1, RedeemError::AlreadyRedeemedByYou);
    }
}

/// The candidate a redemption uses passes every check and comes first among those
/// that do; a refusal means that every candidate fails a check, and it names the
/// failure of the last one (`invalid` when there is no candidate).
pub proof fn law_choice_is_first_usable(
    cands: Seq<CodeCandidate>,
    now: i64,
    totals: Seq<int>,
    by_code: Seq<bool>,
    by_group: Seq<bool>,
    i: int,
    last: RedeemError,
)
    requires
        0 <= i,
    ensures
        scan_outcome(cands, now, totals, by_code, by_group, i, last) matches Ok(k) ==> {
            &&& i <= k < cands.len()
            &&& verdict(cands[k], now, totals[k], by_code[k], by_group[k]) is None
            &&& forall|j: int| i <= j < k ==> verdict(cands[j], now, totals[j], by_code[j], by_group[j]) is Some
        },
        scan_outcome(cands, now, totals, by_code, by_group, i, last) matches Err(e) ==> {
            &&& forall|j: int| i <= j < cands.len() ==> verdict(cands[j], now, totals[j], by_code[j], by_group[j]) is Some
            &&& (i < cands.len() ==> Some(e) == verdict(
                cands[cands.len() - 1],
                now,
                totals[cands.len() - 1],
                by_code[cands.len() - 1],
                by_group[cands.len() - 1],
            ))
            &&& (i >= cands.len() ==> e == last)
        },
    decreases cands.len() - i,
{
    if i < cands.len() {
        match verdict(cands[i], now, totals[i], by_code[i], by_group[i]) {
            None => {},
            Some(e) => {
                law_choice_is_first_usable(cands, now, totals, by_code, by_group, i + 1, e);
            },
        }
    }
}

/// A candidate is refused only for one of the reasons the redemption page lists, and
/// a candidate that no reason refuses is redeemable. The reasons, in the order they are
/// checked: the code is revoked (`invalid`); its group expired before `now`
/// (`expired`); its group reached its total cap (`exhausted`); a one-time code was
/// used at all, or a one-time or per-person code reached its per-code cap
/// (`already_used`); the member redeemed the code, or, for a per-person code, any code
/// of its group (`already_redeemed_by_you`). A shared code has no per-code limit.
pub proof fn law_refusal_reasons(c: CodeCandidate, now: i64, total: int, by_code: bool, by_group: bool)
    ensures
        (verdict(c, now, total, by_code, by_group) == Some(RedeemError::Invalid)) <==> c.code_revoked,
        (verdict(c, now, total, by_code, by_group) == Some(RedeemError::Expired)) <==> (
        !c.code_revoked && (c.expires_at matches Some(exp) && exp < now)),
        (verdict(c, now, total, by_code, by_group) == Some(RedeemError::Exhausted)) <==> (
        !c.code_revoked && !(c.expires_at matches Some(exp) && exp < now) && (
        c.max_redemptions_total matches Some(cap) && total >= cap)),
        (verdict(c, now, total, by_code, by_group) == Some(RedeemError::AlreadyUsed)) <==> (
        !c.code_revoked && !(c.expires_at matches Some(exp) && exp < now) && !(
        c.max_redemptions_total matches Some(cap) && total >= cap) && (
        (kind_named(c.kind@) == Some(BatchKind::UniquePerCode) && c.uses_count >= 1) || (
        (kind_named(c.kind@) == Some(BatchKind::UniquePerCode) || kind_named(c.kind@) == Some(
            BatchKind::UniquePerUser,
        )) && (c.max_redemptions_per_code matches Some(cap) && c.uses_count >= cap)))),
        (verdict(c, now, total, by_code, by_group) == Some(RedeemError::AlreadyRedeemedByYou))
            <==> (!c.code_revoked && !(c.expires_at matches Some(exp) && exp < now) && !(
        c.max_redemptions_total matches Some(cap) && total >= cap) && !(
        (kind_named(c.kind@) == Some(BatchKind::UniquePerCode) && c.uses_count >= 1) || (
        (kind_named(c.kind@) == Some(BatchKind::UniquePerCode) || kind_named(c.kind@) == Some(
            BatchKind::UniquePerUser,
        )) && (c.max_redemptions_per_code matches Some(cap) && c.uses_count >= cap))) && (
        (kind_named(c.kind@) == Some(BatchKind::UniquePerUser) && by_group) || (kind_named(c.kind@)
            != Some(BatchKind::UniquePerUser) && by_code))),
{
}

/// A per-person code may be used by many members: one that is not revoked, whose group
/// has not expired and is below its total cap, and that is below its per-code cap (or
/// has none) is redeemed by any member who holds no redemption of its group, however
/// often others used it.
pub proof fn law_per_person_code_serves_many(c: CodeCandidate, now: i64, total: int, by_code: bool)
    requires
        kind_named(c.kind@) == Some(BatchKind::UniquePerUser),
        !c.code_revoked,
        !(c.expires_at matches Some(exp) && exp < now),
        !(c.max_redemptions_total matches Some(cap) && total >= cap),
        !(c.max_redemptions_per_code matches Some(cap) && c.uses_count >= cap),
    ensures
        verdict(c, now, total, by_code, false) is None,
        verdict(c, now, total, by_code, true) == Some(RedeemError::AlreadyRedeemedByYou),
{
}

/// A one-time code is redeemed at most once: once used it is refused to everybody.
pub proof fn law_one_time_code_used_once(c: CodeCandidate, now: i64, total: int, by_code: bool, by_group: bool)
    requires
        kind_named(c.kind@) == Some(BatchKind::UniquePerCode),
        c.uses_count >= 1,
    ensures
        verdict(c, now, total, by_code, by_group) is Some,
{
}

/// A shared code has no per-code limit: however often it was used, it is redeemed by a
/// member who did not redeem it, while its group is live and below its total cap.
pub proof fn law_shared_code_unlimited_per_code(c: CodeCandidate, now: i64, total: int, by_group: bool)
    requires
        kind_named(c.kind@) == Some(BatchKind::SharedUnlimited),
        !c.code_revoked,
        !(c.expires_at matches Some(exp) && exp < now),
        !(c.max_redemptions_total matches Some(cap) && total >= cap),
    ensures
        verdict(c, now, total, false, by_group) is None,
{
}

/// With one matching code, the redemption uses it exactly when no listed reason refuses
/// it, and otherwise answers with that reason.
pub proof fn law_single_candidate(c: CodeCandidate, now: i64, total: int, by_code: bool, by_group: bool)
    ensures
        redeem_choice(seq![c], now, seq![total], seq![by_code], seq![by_group]) == match verdict(
            c,
            now,
            total,
            by_code,
            by_group,
        ) {
            None => Ok::<int, RedeemError>(0),
            Some(e) => Err(e),
        },
{
    assert(scan_outcome(seq![c], now, seq![total], seq![by_code], seq![by_group], 1, RedeemError::Invalid)
        == Err::<int, RedeemError>(RedeemError::Invalid));
    match verdict(c, now, total, by_code, by_group) {
        None => {},
        Some(e) => {
            assert(scan_outcome(seq![c], now, seq![total], seq![by_code], seq![by_group], 1, e)
                == Err::<int, RedeemError>(e));
        },
    }
}

/// A redeemed code keeps to the rules of its group: the code is not revoked, the group
/// has not expired and is below its total cap, a one-time code was never used, a
/// one-time or per-person code is below its per-code cap, the member had not redeemed
/// the code before, and a per-person code goes only to a member who holds no
/// redemption of any code of its group.
pub proof fn law_redeemed_code_keeps_the_rules(
    cands: Seq<CodeCandidate>,
    now: i64,
    totals: Seq<int>,
    by_code: Seq<bool>,
    by_group: Seq<bool>,
    k: int,
)
    requires
        redeem_choice(cands, now, totals, by_code, by_group) == Ok::<int, RedeemError>(k),
    ensures
        0 <= k < cands.len(),
        !cands[k].code_revoked,
        !is_expired(cands[k], now),
        (cands[k].max_redemptions_total matches Some(cap) ==> totals[k] < cap),
        kind_named(cands[k].kind@) == Some(BatchKind::UniquePerCode) ==> cands[k].uses_count < 1,
        ((kind_named(cands[k].kind@) == Some(BatchKind::UniquePerCode) || kind_named(cands[k].kind@)
            == Some(BatchKind::UniquePerUser)) ==> (cands[k].max_redemptions_per_code matches Some(
            cap,
        ) ==> cands[k].uses_count < cap)),
        kind_named(cands[k].kind@) == Some(BatchKind::UniquePerUser) ==> !by_group[k],
        kind_named(cands[k].kind@) != Some(BatchKind::UniquePerUser) ==> !by_code[k],
{
    law_choice_is_first_usable(cands, now, totals, by_code, by_group, 0, RedeemError::Invalid);
}

} // verus!
