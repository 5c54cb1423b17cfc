//! The commercialization quota: how the upstream's numbers become a snapshot.

use crate::error::{BridgeError, BridgeErrorView};
use crate::status::{is_success_code, status_text, Status};
use crate::text::{
    decimal, optional_text, push_signed_decimal, signed_decimal,
    signed_decimal_has_a_sign_where_negative,
};
use vstd::prelude::*;

verus! {

/// The part of the quota that is used up, as a fraction.
#[derive(Debug, Clone, Copy, PartialEq, Eq)]
pub struct UsageRatio {
    pub numerator: u64,
    pub denominator: u64,
}

/// The quota of an account as it was at one moment.
#[derive(Debug, Clone, PartialEq)]
pub struct QuotaSnapshot {
    pub membership_level: u64,
    pub membership_level_name: Option<String>,
    pub membership_type: Option<String>,
    pub membership_expire_at: Option<i64>,
    pub auto_renewal: Option<bool>,
    pub points_limit: u64,
    pub points_used: u64,
    pub points_remaining: u64,
    pub usage_ratio: UsageRatio,
    pub quota_reset_at: i64,
    pub can_upgrade: bool,
    pub abnormal: bool,
    pub status: String,
    pub observed_at: i64,
}

/// The body of a quota reply.
#[derive(Debug)]
pub struct QuotaEnvelope {
    pub code: i64,
    pub data: Option<QuotaData>,
}

/// The numbers of a quota reply.
#[derive(Debug)]
pub struct QuotaData {
    pub level: u64,
    pub level_name: Option<String>,
    pub expire_time: Option<i64>,
    pub auto_renewal: Option<bool>,
    pub credit_amount: u64,
    pub used_amount: u64,
    pub credit_expire_time: i64,
    pub can_upgrade: bool,
    pub abnormal: Option<u8>,
}

/// How an account stands with its quota.
#[derive(Debug, Clone, Copy, PartialEq, Eq, Structural)]
pub enum Standing {
    /// There is quota to spend.
    Available,
    /// Less than a fifth of the quota remains.
    Low,
    /// Nothing remains.
    Exhausted,
}

/// A [`QuotaSnapshot`] with its texts as sequences of characters.
pub struct QuotaSnapshotView {
    pub membership_level: u64,
    pub membership_level_name: Option<Seq<char>>,
    pub membership_type: Option<Seq<char>>,
    pub membership_expire_at: Option<i64>,
    pub auto_renewal: Option<bool>,
    pub points_limit: u64,
    pub points_used: u64,
    pub points_remaining: u64,
    pub usage_ratio: UsageRatio,
    pub quota_reset_at: i64,
    pub can_upgrade: bool,
    pub abnormal: bool,
    pub status: Seq<char>,
    pub observed_at: i64,
}

impl View for QuotaSnapshot {
    type V = QuotaSnapshotView;

    open spec fn view(&self) -> QuotaSnapshotView {
        QuotaSnapshotView {
            membership_level: self.membership_level,
            membership_level_name: optional_text(self.membership_level_name),
            membership_type: optional_text(self.membership_type),
            membership_expire_at: self.membership_expire_at,
            auto_renewal: self.auto_renewal,
            points_limit: self.points_limit,
            points_used: self.points_used,
            points_remaining: self.points_remaining,
            usage_ratio: self.usage_ratio,
            quota_reset_at: self.quota_reset_at,
            can_upgrade: self.can_upgrade,
            abnormal: self.abnormal,
            status: self.status@,
            observed_at: self.observed_at,
        }
    }
}

/// The points that remain of a limit: none where the limit is overspent.
pub open spec fn remaining_points(limit: nat, used: nat) -> nat {
    if used < limit {
        (limit - used) as nat
    } else {
        0
    }
}

/// The part of a limit that is used, capped at the whole. A limit of zero counts
/// as used up.
pub open spec fn usage_of(limit: u64, used: u64) -> UsageRatio {
    if used < limit {
        UsageRatio { numerator: used, denominator: limit }
    } else {
        UsageRatio { numerator: 1, denominator: 1 }
    }
}

/// How an account stands. One whose numbers the upstream calls abnormal is not
/// held to them.
pub open spec fn standing_of(limit: nat, used: nat, abnormal: bool) -> Standing {
    let remaining = remaining_points(limit, used);
    if abnormal {
        Standing::Available
    } else if remaining == 0 {
        Standing::Exhausted
    } else if remaining * 5 < limit {
        Standing::Low
    } else {
        Standing::Available
    }
}

impl Standing {
    /// The word for a standing.
    pub open spec fn word(self) -> Seq<char> {
        match self {
            Standing::Available => "available"@,
            Standing::Low => "low"@,
            Standing::Exhausted => "exhausted"@,
        }
    }

    /// The standings from best to worst.
    pub open spec fn rank(self) -> nat {
        match self {
            Standing::Available => 0,
            Standing::Low => 1,
            Standing::Exhausted => 2,
        }
    }

    /// The word for this standing.
    pub fn label(self) -> (label: &'static str)
        ensures
            label@ == self.word(),
    {
        match self {
            Standing::Available => "available",
            Standing::Low => "low",
            Standing::Exhausted => "exhausted",
        }
    }
}

/// The membership that a level number stands for, where it stands for one.
pub open spec fn membership_of(level: u64) -> Option<Seq<char>> {
    if level == 0 {
        Some("free"@)
    } else if level == 5_000 {
        Some("starter"@)
    } else if level == 10_000 {
        Some("standard"@)
    } else if level == 20_000 {
        Some("professional"@)
    } else if level == 30_000 {
        Some("ultimate"@)
    } else {
        None
    }
}

/// The snapshot that the numbers of a quota reply make at one moment.
pub open spec fn snapshot_of(data: QuotaData, observed_at: i64) -> QuotaSnapshotView {
    let abnormal = data.abnormal == Some(1u8);
    QuotaSnapshotView {
        membership_level: data.level,
        membership_level_name: optional_text(data.level_name),
        membership_type: membership_of(data.level),
        membership_expire_at: data.expire_time,
        auto_renewal: data.auto_renewal,
        points_limit: data.credit_amount,
        points_used: data.used_amount,
        points_remaining: remaining_points(
            data.credit_amount as nat,
            data.used_amount as nat,
        ) as u64,
        usage_ratio: usage_of(data.credit_amount, data.used_amount),
        quota_reset_at: data.credit_expire_time,
        can_upgrade: data.can_upgrade,
        abnormal,
        status: standing_of(
            data.credit_amount as nat,
            data.used_amount as nat,
            abnormal,
        ).word(),
        observed_at,
    }
}

/// How an account stands.
fn standing(limit: u64, remaining: u64, abnormal: bool) -> (standing: Standing)
    requires
        remaining <= limit,
    ensures
        standing == standing_of(limit as nat, (limit - remaining) as nat, abnormal),
{
    if abnormal {
        Standing::Available
    } else if remaining == 0 {
        Standing::Exhausted
    } else {
        match remaining.checked_mul(5) {
            Some(product) if product < limit => Standing::Low,
            _ => Standing::Available,
        }
    }
}

/// The membership that a level number stands for, where it stands for one.
fn membership(level: u64) -> (membership: Option<String>)
    ensures
        optional_text(membership) == membership_of(level),
{
    match level {
        0 => Some("free".to_owned()),
        5_000 => Some("starter".to_owned()),
        10_000 => Some("standard".to_owned()),
        20_000 => Some("professional".to_owned()),
        30_000 => Some("ultimate".to_owned()),
        _ => None,
    }
}

/// Calls `chrono::Utc::now` and `timestamp_millis`: the milliseconds since the
/// start of 1970. The clock decides the result, so nothing is claimed of it.
/// `chrono` panics where the system clock is set before 1970.
#[verifier::external_body]
fn now_millis() -> (millis: i64) {
    chrono::Utc::now().timestamp_millis()
}

impl QuotaData {
    /// The snapshot that these numbers make at the given moment.
    pub fn into_snapshot_at(self, observed_at: i64) -> (snapshot: QuotaSnapshot)
        ensures
            snapshot@ == snapshot_of(self, observed_at),
    {
        let points_remaining: u64 = self.credit_amount.saturating_sub(self.used_amount);
        let usage_ratio = if self.used_amount < self.credit_amount {
            UsageRatio { numerator: self.used_amount, denominator: self.credit_amount }
        } else {
            UsageRatio { numerator: 1, denominator: 1 }
        };
        let abnormal = match self.abnormal {
            Some(flag) => flag == 1,
            None => false,
        };
        let standing = standing(self.credit_amount, points_remaining, abnormal);
        QuotaSnapshot {
            membership_level: self.level,
            membership_level_name: self.level_name,
            membership_type: membership(self.level),
            membership_expire_at: self.expire_time,
            auto_renewal: self.auto_renewal,
            points_limit: self.credit_amount,
            points_used: self.used_amount,
            points_remaining,
            usage_ratio,
            quota_reset_at: self.credit_expire_time,
            can_upgrade: self.can_upgrade,
            abnormal,
            status: standing.label().to_owned(),
            observed_at,
        }
    }

    /// The snapshot that these numbers make now.
    pub fn into_snapshot(self) -> (snapshot: QuotaSnapshot)
        ensures
            snapshot@ == snapshot_of(self, snapshot.observed_at),
    {
        self.into_snapshot_at(now_millis())
    }
}

/// What a quota reply's body says at one moment: a snapshot, or why there is none.
pub open spec fn envelope_result(envelope: QuotaEnvelope, observed_at: i64) -> Result<
    QuotaSnapshotView,
    BridgeErrorView,
> {
    if envelope.code != 0 {
        Err(
            BridgeErrorView::Proxy(
                "quota endpoint returned code "@ + signed_decimal(envelope.code as int),
            ),
        )
    } else {
        match envelope.data {
            Some(data) => Ok(snapshot_of(data, observed_at)),
            None => Err(BridgeErrorView::Proxy("quota endpoint returned no data"@)),
        }
    }
}

/// A result with its snapshot and its error viewed.
pub open spec fn quota_result_view(result: Result<QuotaSnapshot, BridgeError>) -> Result<
    QuotaSnapshotView,
    BridgeErrorView,
> {
    match result {
        Ok(snapshot) => Ok(snapshot@),
        Err(error) => Err(error@),
    }
}

impl QuotaEnvelope {
    /// The numbers of this reply, or why there are none.
    fn into_data(self) -> (data: Result<QuotaData, BridgeError>)
        ensures
            self.code == 0 && self.data is Some ==> data == Ok::<QuotaData, BridgeError>(
                self.data->0,
            ),
            self.code != 0 || self.data is None ==> (data matches Err(error) && forall|t: i64|
                #![auto]
                envelope_result(self, t) == Err::<QuotaSnapshotView, BridgeErrorView>(error@)),
    {
        if self.code != 0 {
            let mut message: String = "quota endpoint returned code ".to_owned();
            push_signed_decimal(&mut message, self.code);
            return Err(BridgeError::Proxy(message));
        }
        match self.data {
            Some(data) => Ok(data),
            None => Err(BridgeError::Proxy("quota endpoint returned no data".to_owned())),
        }
    }

    /// The snapshot that this reply makes at the given moment, or why there is none.
    pub fn into_result_at(self, observed_at: i64) -> (result: Result<QuotaSnapshot, BridgeError>)
        ensures
            quota_result_view(result) == envelope_result(self, observed_at),
    {
        match self.into_data() {
            Ok(data) => Ok(data.into_snapshot_at(observed_at)),
            Err(error) => Err(error),
        }
    }

    /// The snapshot that this reply makes now, or why there is none.
    pub fn into_result(self) -> (result: Result<QuotaSnapshot, BridgeError>)
        ensures
            result is Ok <==> self.code == 0 && self.data is Some,
            result matches Ok(snapshot) ==> quota_result_view(result) == envelope_result(
                self,
                snapshot.observed_at,
            ),
            result is Err ==> forall|t: i64|
                quota_result_view(result) == #[trigger] envelope_result(self, t),
    {
        match self.into_data() {
            Ok(data) => Ok(data.into_snapshot()),
            Err(error) => Err(error),
        }
    }
}

/// Accepts the status of a quota reply, or says why the reply is refused.
pub fn check_quota_status(status: &Status) -> (result: Result<(), BridgeError>)
    ensures
        result is Ok <==> is_success_code(status@),
        result matches Err(error) ==> error@ == refused_status(status@),
{
    if status.is_success() {
        return Ok(());
    }
    let mut message: String = "quota endpoint returned ".to_owned();
    let text = status.describe();
    message.append(text.as_str());
    Err(BridgeError::Proxy(message))
}

/// What a quota call fails with once the upstream has answered.
#[derive(Debug, PartialEq, Eq)]
pub enum QuotaError<E> {
    /// The answer is refused.
    Bridge(BridgeError),
    /// The body is no quota reply, for this reason.
    Undecoded(E),
}

/// A [`QuotaError`] with its message as a sequence of characters.
pub enum QuotaErrorView<E> {
    /// The answer is refused.
    Bridge(BridgeErrorView),
    /// The body is no quota reply, for this reason.
    Undecoded(E),
}

impl<E> View for QuotaError<E> {
    type V = QuotaErrorView<E>;

    open spec fn view(&self) -> QuotaErrorView<E> {
        match self {
            QuotaError::Bridge(error) => QuotaErrorView::Bridge(error@),
            QuotaError::Undecoded(error) => QuotaErrorView::Undecoded(*error),
        }
    }
}

/// What a quota reply is refused with for its status.
pub open spec fn refused_status(status: u16) -> BridgeErrorView {
    BridgeErrorView::Proxy("quota endpoint returned "@ + status_text(status))
}

/// What a quota reply comes to at one moment. Its status is looked at first, then whether
/// its body could be decoded, then the body's code, then its data.
pub open spec fn reply_result<E>(
    status: u16,
    decoded: Result<QuotaEnvelope, E>,
    observed_at: i64,
) -> Result<QuotaSnapshotView, QuotaErrorView<E>> {
    if !is_success_code(status) {
        Err(QuotaErrorView::Bridge(refused_status(status)))
    } else {
        match decoded {
            Err(error) => Err(QuotaErrorView::Undecoded(error)),
            Ok(envelope) => match envelope_result(envelope, observed_at) {
                Ok(snapshot) => Ok(snapshot),
                Err(error) => Err(QuotaErrorView::Bridge(error)),
            },
        }
    }
}

/// A result with its snapshot and its error viewed.
pub open spec fn reply_result_view<E>(result: Result<QuotaSnapshot, QuotaError<E>>) -> Result<
    QuotaSnapshotView,
    QuotaErrorView<E>,
> {
    match result {
        Ok(snapshot) => Ok(snapshot@),
        Err(error) => Err(error@),
    }
}

/// The envelope of a quota reply, where its status is accepted and its body decoded.
fn accepted_envelope<E>(status: &Status, decoded: Result<QuotaEnvelope, E>) -> (result: Result<
    QuotaEnvelope,
    QuotaError<E>,
>)
    ensures
        match result {
            Ok(envelope) => is_success_code(status@) && decoded == Ok::<QuotaEnvelope, E>(envelope),
            Err(error) => forall|t: i64|
                #[trigger] reply_result(status@, decoded, t) == Err::<
                    QuotaSnapshotView,
                    QuotaErrorView<E>,
                >(error@),
        },
{
    match check_quota_status(status) {
        Err(error) => Err(QuotaError::Bridge(error)),
        Ok(()) => match decoded {
            Ok(envelope) => Ok(envelope),
            Err(error) => Err(QuotaError::Undecoded(error)),
        },
    }
}

/// What a quota reply comes to at the given moment: the snapshot, or why there is none. A
/// refused status wins over any body.
pub fn read_quota_reply_at<E>(
    status: &Status,
    decoded: Result<QuotaEnvelope, E>,
    observed_at: i64,
) -> (result: Result<QuotaSnapshot, QuotaError<E>>)
    ensures
        reply_result_view(result) == reply_result(status@, decoded, observed_at),
{
    match accepted_envelope(status, decoded) {
        Ok(envelope) => match envelope.into_result_at(observed_at) {
            Ok(snapshot) => Ok(snapshot),
            Err(error) => Err(QuotaError::Bridge(error)),
        },
        Err(error) => Err(error),
    }
}

/// What a quota reply comes to now: the snapshot, or why there is none. A refused status
/// wins over any body.
pub fn read_quota_reply<E>(status: &Status, decoded: Result<QuotaEnvelope, E>) -> (result: Result<
    QuotaSnapshot,
    QuotaError<E>,
>)
    ensures
        result is Ok <==> is_success_code(status@) && (decoded matches Ok(envelope)
            && envelope.code == 0 && envelope.data is Some),
        result matches Ok(snapshot) ==> reply_result_view(result) == reply_result(
            status@,
            decoded,
            snapshot.observed_at,
        ),
        result is Err ==> forall|t: i64|
            reply_result_view(result) == #[trigger] reply_result(status@, decoded, t),
{
    match accepted_envelope(status, decoded) {
        Ok(envelope) => match envelope.into_result() {
            Ok(snapshot) => Ok(snapshot),
            Err(error) => Err(QuotaError::Bridge(error)),
        },
        Err(error) => Err(error),
    }
}

/// A refused status decides: whatever the body, and whether or not it can be decoded, the
/// reply comes to the same error, which names the status.
pub proof fn refused_status_wins<E>(
    status: u16,
    first: Result<QuotaEnvelope, E>,
    second: Result<QuotaEnvelope, E>,
    observed_at: i64,
)
    requires
        !is_success_code(status),
    ensures
        reply_result(status, first, observed_at) == Err::<QuotaSnapshotView, QuotaErrorView<E>>(
            QuotaErrorView::Bridge(refused_status(status)),
        ),
        reply_result(status, first, observed_at) == reply_result(status, second, observed_at),
{
}

/// The points of a snapshot add up: what is used and what remains make the limit,
/// and an overspent limit leaves exactly nothing.
pub proof fn quota_points_add_up(data: QuotaData, observed_at: i64)
    ensures
        ({
            let snapshot = snapshot_of(data, observed_at);
            &&& snapshot.points_remaining <= snapshot.points_limit
            &&& snapshot.points_used <= snapshot.points_limit ==> snapshot.points_used
                + snapshot.points_remaining == snapshot.points_limit
            &&& snapshot.points_used >= snapshot.points_limit ==> snapshot.points_remaining == 0
        }),
{
}

/// The usage ratio is a fraction from nothing to the whole. It is the used part of
/// the limit where that is less than the whole, and it is the whole exactly where
/// nothing remains.
pub proof fn usage_ratio_is_capped(data: QuotaData, observed_at: i64)
    ensures
        ({
            let snapshot = snapshot_of(data, observed_at);
            let ratio = snapshot.usage_ratio;
            &&& 0 < ratio.denominator
            &&& ratio.numerator <= ratio.denominator
            &&& ratio.numerator == ratio.denominator <==> snapshot.points_remaining == 0
            &&& snapshot.points_used < snapshot.points_limit ==> ratio.numerator
                * snapshot.points_limit == snapshot.points_used * ratio.denominator
        }),
{
}

/// The three words for a standing differ, so a snapshot's status tells the
/// standing: an account that is abnormal is available, and any other is exhausted
/// exactly where nothing remains, and low exactly where something remains but less
/// than a fifth of the limit.
pub proof fn status_tells_the_standing(data: QuotaData, observed_at: i64)
    ensures
        ({
            let snapshot = snapshot_of(data, observed_at);
            let remaining = snapshot.points_remaining;
            &&& snapshot.abnormal ==> snapshot.status == "available"@
            &&& snapshot.status == "exhausted"@ <==> !snapshot.abnormal && remaining == 0
            &&& snapshot.status == "low"@ <==> !snapshot.abnormal && 0 < remaining && remaining * 5
                < snapshot.points_limit
            &&& snapshot.status == "available"@ <==> snapshot.abnormal || (0 < remaining
                && remaining * 5 >= snapshot.points_limit)
        }),
{
    reveal_strlit("available");
    reveal_strlit("low");
    reveal_strlit("exhausted");
    assert("available"@[0] == 'a');
    assert("exhausted"@[0] == 'e');
}

/// Spending more of the same limit never improves how an account stands.
pub proof fn spending_never_improves_the_standing(
    limit: nat,
    used: nat,
    used_later: nat,
    abnormal: bool,
)
    requires
        used <= used_later,
    ensures
        standing_of(limit, used, abnormal).rank() <= standing_of(
            limit,
            used_later,
            abnormal,
        ).rank(),
{
}

/// Whether one usage ratio is at most another, as fractions.
pub open spec fn ratio_at_most(first: UsageRatio, second: UsageRatio) -> bool {
    first.numerator * second.denominator <= second.numerator * first.denominator
}

/// The status words from best to worst.
pub open spec fn status_rank(word: Seq<char>) -> nat {
    if word == "available"@ {
        0
    } else if word == "low"@ {
        1
    } else {
        2
    }
}

/// Where more of a quota is used and all else is the same, no more points remain, the
/// usage ratio is no smaller, and the status is no better.
pub proof fn spending_never_helps(
    data: QuotaData,
    later: QuotaData,
    observed_at: i64,
    observed_later: i64,
)
    requires
        later == (QuotaData { used_amount: later.used_amount, ..data }),
        data.used_amount <= later.used_amount,
    ensures
        ({
            let first = snapshot_of(data, observed_at);
            let second = snapshot_of(later, observed_later);
            &&& second.points_remaining <= first.points_remaining
            &&& ratio_at_most(first.usage_ratio, second.usage_ratio)
            &&& status_rank(first.status) <= status_rank(second.status)
        }),
{
    let limit = data.credit_amount;
    let abnormal = data.abnormal == Some(1u8);
    spending_never_improves_the_standing(
        limit as nat,
        data.used_amount as nat,
        later.used_amount as nat,
        abnormal,
    );
    status_tells_the_standing(data, observed_at);
    status_tells_the_standing(later, observed_later);
    assert(data.used_amount * limit <= later.used_amount * limit) by (nonlinear_arith)
        requires
            data.used_amount <= later.used_amount,
    ;
    let first = snapshot_of(data, observed_at);
    let second = snapshot_of(later, observed_later);
    assert(ratio_at_most(first.usage_ratio, second.usage_ratio));
}

/// When a reply was read changes nothing but the moment that its snapshot holds.
pub proof fn observation_time_changes_nothing_else(data: QuotaData, first: i64, second: i64)
    ensures
        snapshot_of(data, second) == (QuotaSnapshotView {
            observed_at: second,
            ..snapshot_of(data, first)
        }),
{
}

/// The points of a snapshot are those of the reply, whatever the level and the rest of it say:
/// the limit is the credit, what is used is what the reply says is used, and what remains makes
/// up the rest of the credit, or nothing where more is used than there is.
pub proof fn snapshot_points_are_those_of_the_reply(data: QuotaData, observed_at: i64)
    ensures
        ({
            let snapshot = snapshot_of(data, observed_at);
            &&& snapshot.points_limit == data.credit_amount
            &&& snapshot.points_used == data.used_amount
            &&& data.used_amount <= data.credit_amount ==> snapshot.points_remaining
                + data.used_amount == data.credit_amount
            &&& data.used_amount > data.credit_amount ==> snapshot.points_remaining == 0
        }),
{
}

/// The usage ratio is the used amount over the credit where something of the credit remains, and
/// the whole where nothing does, an empty credit among it.
pub proof fn snapshot_ratio_is_that_of_the_reply(data: QuotaData, observed_at: i64)
    ensures
        ({
            let ratio = snapshot_of(data, observed_at).usage_ratio;
            &&& data.used_amount < data.credit_amount ==> ratio.numerator == data.used_amount
                && ratio.denominator == data.credit_amount
            &&& data.used_amount >= data.credit_amount ==> ratio.numerator == 1
                && ratio.denominator == 1
        }),
{
}

/// The status follows from the reply's amounts alone, whatever the level: an account whose flag
/// is one is abnormal and always available; any other is exhausted exactly where its credit is
/// used up, low exactly where something remains but less than a fifth of the credit, and
/// otherwise available.
pub proof fn snapshot_status_is_that_of_the_reply(data: QuotaData, observed_at: i64)
    ensures
        ({
            let snapshot = snapshot_of(data, observed_at);
            let left = data.credit_amount - data.used_amount;
            &&& snapshot.abnormal <==> (data.abnormal matches Some(flag) && flag == 1)
            &&& snapshot.status == "exhausted"@ <==> !snapshot.abnormal && left <= 0
            &&& snapshot.status == "low"@ <==> !snapshot.abnormal && left > 0 && left * 5
                < data.credit_amount
            &&& snapshot.status == "available"@ <==> snapshot.abnormal || (left > 0 && left * 5
                >= data.credit_amount)
        }),
{
    status_tells_the_standing(data, observed_at);
}

/// The membership follows from the level alone: five levels have a name, and no other has one.
pub proof fn snapshot_membership_follows_from_the_level(data: QuotaData, observed_at: i64)
    ensures
        ({
            let snapshot = snapshot_of(data, observed_at);
            let membership = snapshot.membership_type;
            &&& snapshot.membership_level == data.level
            &&& data.level == 0 <==> membership == Some("free"@)
            &&& data.level == 5_000 <==> membership == Some("starter"@)
            &&& data.level == 10_000 <==> membership == Some("standard"@)
            &&& data.level == 20_000 <==> membership == Some("professional"@)
            &&& data.level == 30_000 <==> membership == Some("ultimate"@)
            &&& membership is Some ==> data.level == 0 || data.level == 5_000 || data.level
                == 10_000 || data.level == 20_000 || data.level == 30_000
        }),
{
    reveal_strlit("free");
    reveal_strlit("starter");
    reveal_strlit("standard");
    reveal_strlit("professional");
    reveal_strlit("ultimate");
    assert("free"@.len() == 4);
    assert("starter"@.len() == 7);
    assert("standard"@.len() == 8);
    assert("professional"@.len() == 12);
    assert("ultimate"@.len() == 8);
    assert("standard"@[0] == 's');
    assert("ultimate"@[0] == 'u');
}

/// What a snapshot does not work out it hands on: the level's name, when the membership ends,
/// whether it renews, when the quota starts anew, whether there is an upgrade, and the moment.
pub proof fn snapshot_hands_on_the_rest_of_the_reply(data: QuotaData, observed_at: i64)
    ensures
        ({
            let snapshot = snapshot_of(data, observed_at);
            &&& data.level_name is None <==> snapshot.membership_level_name is None
            &&& data.level_name matches Some(name) ==> snapshot.membership_level_name == Some(name@)
            &&& snapshot.membership_expire_at == data.expire_time
            &&& snapshot.auto_renewal == data.auto_renewal
            &&& snapshot.quota_reset_at == data.credit_expire_time
            &&& snapshot.can_upgrade == data.can_upgrade
            &&& snapshot.observed_at == observed_at
        }),
{
}

/// A snapshot is viewed as it is, field by field.
pub proof fn snapshot_view_keeps_the_snapshot(snapshot: QuotaSnapshot)
    ensures
        snapshot@.membership_level == snapshot.membership_level,
        snapshot.membership_level_name is None <==> snapshot@.membership_level_name is None,
        snapshot.membership_level_name matches Some(name) ==> snapshot@.membership_level_name
            == Some(name@),
        snapshot.membership_type is None <==> snapshot@.membership_type is None,
        snapshot.membership_type matches Some(name) ==> snapshot@.membership_type == Some(name@),
        snapshot@.membership_expire_at == snapshot.membership_expire_at,
        snapshot@.auto_renewal == snapshot.auto_renewal,
        snapshot@.points_limit == snapshot.points_limit,
        snapshot@.points_used == snapshot.points_used,
        snapshot@.points_remaining == snapshot.points_remaining,
        snapshot@.usage_ratio == snapshot.usage_ratio,
        snapshot@.quota_reset_at == snapshot.quota_reset_at,
        snapshot@.can_upgrade == snapshot.can_upgrade,
        snapshot@.abnormal == snapshot.abnormal,
        snapshot@.status == snapshot.status@,
        snapshot@.observed_at == snapshot.observed_at,
{
}

/// Each standing has its own word.
pub proof fn standing_words(standing: Standing)
    ensures
        standing is Available <==> standing.word() == "available"@,
        standing is Low <==> standing.word() == "low"@,
        standing is Exhausted <==> standing.word() == "exhausted"@,
{
    reveal_strlit("available");
    reveal_strlit("low");
    reveal_strlit("exhausted");
    assert("available"@[0] == 'a');
    assert("low"@[0] == 'l');
    assert("exhausted"@[0] == 'e');
}

/// A reply with a code is refused by the code, whatever its data; one without a code and without
/// data is refused for want of them; and any other gives the snapshot of its data.
pub proof fn envelope_gives_its_data_where_the_code_is_zero(
    envelope: QuotaEnvelope,
    observed_at: i64,
)
    ensures
        ({
            let result = envelope_result(envelope, observed_at);
            &&& result is Ok <==> envelope.code == 0 && envelope.data is Some
            &&& result is Ok ==> result->Ok_0 == snapshot_of(envelope.data->0, observed_at)
            &&& envelope.code > 0 ==> result->Err_0 == BridgeErrorView::Proxy(
                "quota endpoint returned code "@ + decimal(envelope.code as nat),
            )
            &&& envelope.code < 0 ==> result->Err_0 == BridgeErrorView::Proxy(
                "quota endpoint returned code "@ + ("-"@ + decimal((-envelope.code) as nat)),
            )
            &&& envelope.code == 0 && envelope.data is None ==> result->Err_0
                == BridgeErrorView::Proxy("quota endpoint returned no data"@)
        }),
{
    if envelope.code < 0 {
        signed_decimal_has_a_sign_where_negative((-envelope.code) as nat);
    } else {
        signed_decimal_has_a_sign_where_negative(envelope.code as nat);
    }
}

/// A reply is read exactly where its status starts with a two, and then as its body says; where
/// it does not, the error names the status, and where the body could not be decoded, it is the
/// reason for that.
pub proof fn reply_is_read_where_its_status_starts_with_two<E>(
    status: u16,
    decoded: Result<QuotaEnvelope, E>,
    observed_at: i64,
)
    ensures
        ({
            let result = reply_result(status, decoded, observed_at);
            let accepted = status / 100 == 2;
            &&& !accepted ==> result == Err::<QuotaSnapshotView, QuotaErrorView<E>>(
                QuotaErrorView::Bridge(
                    BridgeErrorView::Proxy("quota endpoint returned "@ + status_text(status)),
                ),
            )
            &&& accepted && decoded is Err ==> result == Err::<
                QuotaSnapshotView,
                QuotaErrorView<E>,
            >(QuotaErrorView::Undecoded(decoded->Err_0))
            &&& accepted && decoded is Ok ==> {
                let body = envelope_result(decoded->Ok_0, observed_at);
                &&& body is Ok ==> result is Ok && result->Ok_0 == body->Ok_0
                &&& body is Err ==> result == Err::<QuotaSnapshotView, QuotaErrorView<E>>(
                    QuotaErrorView::Bridge(body->Err_0),
                )
            }
        }),
{
}

/// The status of a reply is refused with words that name it.
pub proof fn refused_status_names_the_status(status: u16)
    ensures
        refused_status(status) == BridgeErrorView::Proxy(
            "quota endpoint returned "@ + status_text(status),
        ),
{
}

/// Results and errors are viewed as they are.
pub proof fn quota_views_keep_the_result<E>(
    body: Result<QuotaSnapshot, BridgeError>,
    reply: Result<QuotaSnapshot, QuotaError<E>>,
)
    ensures
        body matches Ok(snapshot) ==> quota_result_view(body) == Ok::<
            QuotaSnapshotView,
            BridgeErrorView,
        >(snapshot@),
        body matches Err(error) ==> quota_result_view(body) == Err::<
            QuotaSnapshotView,
            BridgeErrorView,
        >(error@),
        reply matches Ok(snapshot) ==> reply_result_view(reply) == Ok::<
            QuotaSnapshotView,
            QuotaErrorView<E>,
        >(snapshot@),
        reply matches Err(QuotaError::Bridge(error)) ==> reply_result_view(reply) == Err::<
            QuotaSnapshotView,
            QuotaErrorView<E>,
        >(QuotaErrorView::Bridge(error@)),
        reply matches Err(QuotaError::Undecoded(error)) ==> reply_result_view(reply) == Err::<
            QuotaSnapshotView,
            QuotaErrorView<E>,
        >(QuotaErrorView::Undecoded(error)),
{
}

} // verus!
