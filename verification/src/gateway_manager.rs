//! The life of the gateway config: it is validated, backed up, recorded and told of
//! to the agents.

use crate::events::{Emission, KING_CONFIG_UPDATE, public_event, to_everyone};
use crate::json::{Fields, JsonTree, uint};
use crate::paths::{join_path, joined_path};
use crate::sql::Statement;
use crate::stamp::{Instant, clock, file_stamp, is_hex, is_time, is_uuid, stamp_text};
use crate::task_db::{log_config_change_statement, log_config_event};
use crate::text::{concat2, concat3};
use std::collections::hash_map::DefaultHasher;
use std::hash::{Hash, Hasher};
use vstd::prelude::*;
use vstd::std_specs::hash::DefaultHasherAdditionalSpecFns;

verus! {

/// The number of providers of the gateway config that a text holds, or the error,
/// as `evo_common::config::GatewayConfig` reads it.
pub uninterp spec fn gateway_config(text: Seq<char>) -> Result<usize, Seq<char>>;

/// `evo_common::config::GatewayConfig::from_json` reads the gateway config, or says
/// why the text is none.
#[verifier::external_body]
pub(crate) fn read_gateway_config(text: &str) -> (r: Result<usize, String>)
    ensures
        match r {
            Ok(providers) => gateway_config(text@) == Ok::<usize, Seq<char>>(providers),
            Err(error) => gateway_config(text@) == Err::<usize, Seq<char>>(error@),
        },
{
    match evo_common::config::GatewayConfig::from_json(text) {
        Ok(config) => Ok(config.providers.len()),
        Err(error) => Err(error.to_string()),
    }
}

/// What a hasher holds once std's `Hash` has written a text to it, given what it held
/// before.
pub uninterp spec fn hashed(state: Seq<Seq<u8>>, text: Seq<char>) -> Seq<Seq<u8>>;

/// std's `Hash::hash` writes a text to a `DefaultHasher`. The text alone decides what is
/// written; which bytes these are std leaves open.
#[verifier::external_body]
pub(crate) fn hash_into(text: &str, hasher: &mut DefaultHasher)
    ensures
        final(hasher)@ == hashed(old(hasher)@, text@),
{
    text.hash(hasher);
}

/// The hash of a text: what a new `DefaultHasher` makes of it.
pub open spec fn text_hash(text: Seq<char>) -> u64 {
    DefaultHasher::spec_finish(hashed(Seq::empty(), text))
}

/// The hexadecimal digit of a number below sixteen.
pub open spec fn hex_digit(n: nat) -> char {
    if n < 10 {
        (48 + n) as char
    } else {
        (87 + n) as char
    }
}

/// The last `count` hexadecimal digits of a number.
pub open spec fn hex_digits(n: nat, count: nat) -> Seq<char>
    decreases count,
{
    if count == 0 {
        Seq::empty()
    } else {
        hex_digits(n / 16, (count - 1) as nat).push(hex_digit(n % 16))
    }
}

fn hex_char(n: u64) -> (r: char)
    requires
        n < 16,
    ensures
        r == hex_digit(n as nat),
{
    if n < 10 {
        (48 + n as u8) as char
    } else {
        (87 + n as u8) as char
    }
}

/// The last `count` hexadecimal digits of a number.
pub fn hex_text(n: u64, count: u32) -> (r: String)
    ensures
        r@ == hex_digits(n as nat, count as nat),
    decreases count,
{
    if count == 0 {
        String::new()
    } else {
        let mut out = hex_text(n / 16, count - 1);
        out.push(hex_char(n % 16));
        out
    }
}

/// A short hash of a text: sixteen hexadecimal digits.
pub fn quick_hash(s: &str) -> (r: String)
    ensures
        r@ == hex_digits(text_hash(s@) as nat, 16),
{
    let mut hasher = DefaultHasher::new();
    hash_into(s, &mut hasher);
    hex_text(hasher.finish(), 16)
}

/// A number has as many hexadecimal digits as asked for, all of them in lower case.
pub proof fn law_hex_digits(n: nat, count: nat)
    ensures
        hex_digits(n, count).len() == count,
        forall|i: int| 0 <= i < count ==> is_hex(#[trigger] hex_digits(n, count)[i]),
    decreases count,
{
    if count > 0 {
        law_hex_digits(n / 16, (count - 1) as nat);
        let head = hex_digits(n / 16, (count - 1) as nat);
        assert(is_hex(hex_digit(n % 16)));
        assert forall|i: int| 0 <= i < count implies is_hex(#[trigger] hex_digits(n, count)[i]) by {
            if i < count - 1 {
                assert(hex_digits(n, count)[i] == head[i]);
            }
        }
    }
}

/// A changed gateway config that is valid.
pub struct ConfigChange {
    pub config_hash: String,
    pub providers: usize,
    pub backup_dir: String,
    pub backup_path: String,
}

/// The path of a backup of the gateway config below a directory.
pub open spec fn backup_file(dir: Seq<char>, stamp: Seq<char>) -> Seq<char> {
    joined_path(joined_path(dir, "backups"@), "gateway-backup-"@ + stamp + ".json"@)
}

/// The path of a backup of the gateway config that is made at a time.
pub fn backup_path_at(dir: &str, at: Instant) -> (r: String)
    requires
        at.valid(),
    ensures
        file_stamp(at.secs) is Some,
        r@ == backup_file(dir@, file_stamp(at.secs)->0),
{
    let stamp = stamp_text(at);
    let name = concat3("gateway-backup-", stamp.as_str(), ".json");
    let backups = join_path(dir, "backups");
    join_path(backups.as_str(), name.as_str())
}

/// Handles a change of the gateway config: its hash, its number of providers and
/// where it is backed up, or the error where it is not valid. `dir` is the directory
/// of the config.
pub fn on_config_change(config_path: &str, dir: &str, content: &str) -> (r: Result<ConfigChange, String>)
    ensures
        match r {
            Ok(change) => {
                &&& gateway_config(content@) == Ok::<usize, Seq<char>>(change.providers)
                &&& change.config_hash@ == hex_digits(text_hash(content@) as nat, 16)
                &&& change.backup_dir@ == joined_path(dir@, "backups"@)
                &&& exists|now: Instant| #[trigger]
                    now.valid() && now.secs >= 0 && file_stamp(now.secs) is Some
                        && change.backup_path@ == backup_file(dir@, file_stamp(now.secs)->0)
            },
            Err(message) => gateway_config(content@) is Err && message@ == "Invalid JSON in "@
                + config_path@,
        },
{
    match read_gateway_config(content) {
        Ok(providers) => {
            let now = clock();
            assert(now.valid());
            Ok(
                ConfigChange {
                    config_hash: quick_hash(content),
                    providers,
                    backup_dir: join_path(dir, "backups"),
                    backup_path: backup_path_at(dir, now),
                },
            )
        },
        Err(_) => Err(concat2("Invalid JSON in ", config_path)),
    }
}

/// What is told of a changed gateway config.
pub open spec fn config_news(config_hash: Seq<char>, providers: usize) -> JsonTree {
    JsonTree::empty().text("config_hash"@, config_hash).with(
        "providers"@,
        JsonTree::UInt(providers as u64),
    )
}

/// What follows on the backup of a changed gateway config: the statement that
/// records the change, with the path of the backup where one was made, and the event
/// that tells all agents.
pub fn config_backed_up(change: &ConfigChange, backed_up: bool) -> (r: (Statement, Emission))
    ensures
        exists|id: Seq<char>, now: Seq<char>|
            #![trigger is_uuid(id), is_time(now)]
            is_uuid(id) && is_time(now) && r.0@ == log_config_change_statement(
                id,
                now,
                change.config_hash@,
                "config_changed"@,
                if backed_up {
                    change.backup_path@
                } else {
                    ""@
                },
            ),
        r.1@ == public_event(
            KING_CONFIG_UPDATE@,
            config_news(change.config_hash@, change.providers),
        ),
{
    let backup = if backed_up {
        Some(change.backup_path.as_str())
    } else {
        None
    };
    let statement = log_config_event(change.config_hash.as_str(), "config_changed", backup);
    let payload = Fields::new().text("config_hash", change.config_hash.as_str()).with(
        "providers",
        uint(change.providers as u64),
    ).done();
    (statement, to_everyone(KING_CONFIG_UPDATE, payload))
}

} // verus!
