//! The foreign-API helpers that belong to the core: the receive account,
//! the version information and the swap clock. Settings that are
//! process-wide elsewhere are explicit values here.
use vstd::prelude::*;

verus! {

/// Version of the foreign API.
pub const FOREIGN_API_VERSION: u16 = 2;

/// Slate formats this wallet reads.
#[derive(Debug, Clone, Copy, PartialEq, Eq, Structural)]
pub enum SlateVersion {
    V3,
    V2,
}

/// What `check_version` reports.
#[derive(Debug, Clone)]
pub struct VersionInfo {
    pub foreign_api_version: u16,
    pub supported_slate_versions: Vec<SlateVersion>,
}

/// A serialized transaction, hex encoded.
#[derive(Debug, Clone)]
pub struct TxWrapper {
    pub tx_hex: String,
}

/// The account that all receive operations credit, when one is set.
#[derive(Debug, Clone)]
pub struct ReceiveConfig {
    pub recv_account: Option<String>,
}

/// The clock the swap schedule is read against. A test time, once set,
/// is the only time source.
#[derive(Debug, Clone, Copy)]
pub struct SwapClock {
    pub test_time: Option<i64>,
}

/// The current receive account.
pub fn get_receive_account(config: &ReceiveConfig) -> (r: Option<String>)
    ensures
        r.is_some() == config.recv_account.is_some(),
        r.is_some() ==> r.unwrap()@ == config.recv_account.unwrap()@,
{
    match &config.recv_account {
        Some(a) => Some(a.clone()),
        None => None,
    }
}

/// Sets the account that receive operations credit.
pub fn set_receive_account(config: &mut ReceiveConfig, account: String)
    ensures
        final(config).recv_account == Some(account),
{
    config.recv_account = Some(account);
}

/// The foreign API version and the slate versions it supports.
pub fn check_version() -> (r: VersionInfo)
    ensures
        r.foreign_api_version == FOREIGN_API_VERSION,
        r.supported_slate_versions@ == seq![SlateVersion::V3, SlateVersion::V2],
{
    let mut versions: Vec<SlateVersion> = Vec::new();
    versions.push(SlateVersion::V3);
    versions.push(SlateVersion::V2);
    VersionInfo { foreign_api_version: FOREIGN_API_VERSION, supported_slate_versions: versions }
}

/// Makes `cur_time` the only time the clock reports.
pub fn set_testing_cur_time(clock: &mut SwapClock, cur_time: i64)
    ensures
        final(clock).test_time == Some(cur_time),
{
    clock.test_time = Some(cur_time);
}

/// Returns the clock to the system time.
pub fn reset_testing_cur_time(clock: &mut SwapClock)
    ensures
        final(clock).test_time.is_none(),
{
    clock.test_time = None;
}

/// The time the clock reports when the system time is `system_now`.
pub fn cur_time_at(clock: &SwapClock, system_now: i64) -> (r: i64)
    ensures
        r == match clock.test_time {
            Some(t) => t,
            None => system_now,
        },
{
    match clock.test_time {
        Some(t) => t,
        None => system_now,
    }
}

/// Relies on chrono's `Utc::now().timestamp()`: the system time in Unix
/// seconds. Nothing is known of its value.
#[verifier::external_body]
fn system_time_now() -> (r: i64) {
    chrono::Utc::now().timestamp()
}

/// Current time: the test time when one is set, else the system time.
pub fn get_cur_time(clock: &SwapClock) -> (r: i64)
    ensures
        clock.test_time.is_some() ==> r == clock.test_time.unwrap(),
{
    let now = system_time_now();
    cur_time_at(clock, now)
}

} // verus!
