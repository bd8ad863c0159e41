//! The closed sets that label every metric: command kinds, the stages a
//! command passes through, and priority classes. A metric is tagged with a
//! value of these sets, never with a free-form string.

use vstd::prelude::*;

verus! {

/// Number of command kinds.
pub const COMMAND_KIND_COUNT: u64 = 29;

/// The closed set of storage operations, used as the `type` label.
#[allow(non_camel_case_types)]
#[derive(Clone, Copy, Debug, PartialEq, Eq, Hash, Structural)]
pub enum CommandKind {
    get,
    batch_get_command,
    batch_get,
    scan,
    raw_batch_get_command,
    prewrite,
    acquire_pessimistic_lock,
    commit,
    cleanup,
    rollback,
    pessimistic_rollback,
    txn_heart_beat,
    check_txn_status,
    scan_lock,
    resolve_lock,
    resolve_lock_lite,
    delete_range,
    pause,
    key_mvcc,
    start_ts_mvcc,
    raw_get,
    raw_batch_get,
    raw_scan,
    raw_batch_scan,
    raw_put,
    raw_batch_put,
    raw_delete,
    raw_delete_range,
    raw_batch_delete,
}

/// The closed set of lifecycle stages a command passes through, used as the `stage` label.
#[allow(non_camel_case_types)]
#[derive(Clone, Copy, Debug, PartialEq, Eq, Hash, Structural)]
pub enum CommandStageKind {
    new,
    snapshot,
    async_snapshot_err,
    snapshot_ok,
    snapshot_err,
    read_finish,
    next_cmd,
    lock_wait,
    process,
    prepare_write_err,
    write,
    write_finish,
    async_write_err,
    error,
}

/// The closed set of priority classes, used as the `priority` label.
#[allow(non_camel_case_types)]
#[derive(Clone, Copy, Debug, PartialEq, Eq, Hash, Structural)]
pub enum CommandPriority {
    low,
    normal,
    high,
}

impl CommandKind {
    /// The label value under which this variant appears in every metric.
    pub open spec fn label(self) -> Seq<char> {
        match self {
            CommandKind::get => "get"@,
            CommandKind::batch_get_command => "batch_get_command"@,
            CommandKind::batch_get => "batch_get"@,
            CommandKind::scan => "scan"@,
            CommandKind::raw_batch_get_command => "raw_batch_get_command"@,
            CommandKind::prewrite => "prewrite"@,
            CommandKind::acquire_pessimistic_lock => "acquire_pessimistic_lock"@,
            CommandKind::commit => "commit"@,
            CommandKind::cleanup => "cleanup"@,
            CommandKind::rollback => "rollback"@,
            CommandKind::pessimistic_rollback => "pessimistic_rollback"@,
            CommandKind::txn_heart_beat => "txn_heart_beat"@,
            CommandKind::check_txn_status => "check_txn_status"@,
            CommandKind::scan_lock => "scan_lock"@,
            CommandKind::resolve_lock => "resolve_lock"@,
            CommandKind::resolve_lock_lite => "resolve_lock_lite"@,
            CommandKind::delete_range => "delete_range"@,
            CommandKind::pause => "pause"@,
            CommandKind::key_mvcc => "key_mvcc"@,
            CommandKind::start_ts_mvcc => "start_ts_mvcc"@,
            CommandKind::raw_get => "raw_get"@,
            CommandKind::raw_batch_get => "raw_batch_get"@,
            CommandKind::raw_scan => "raw_scan"@,
            CommandKind::raw_batch_scan => "raw_batch_scan"@,
            CommandKind::raw_put => "raw_put"@,
            CommandKind::raw_batch_put => "raw_batch_put"@,
            CommandKind::raw_delete => "raw_delete"@,
            CommandKind::raw_delete_range => "raw_delete_range"@,
            CommandKind::raw_batch_delete => "raw_batch_delete"@,
        }
    }

    /// The label value, as the metrics registry takes it.
    pub fn get_str(&self) -> (s: &'static str)
        ensures
            s@ == self.label(),
    {
        match self {
            CommandKind::get => "get",
            CommandKind::batch_get_command => "batch_get_command",
            CommandKind::batch_get => "batch_get",
            CommandKind::scan => "scan",
            CommandKind::raw_batch_get_command => "raw_batch_get_command",
            CommandKind::prewrite => "prewrite",
            CommandKind::acquire_pessimistic_lock => "acquire_pessimistic_lock",
            CommandKind::commit => "commit",
            CommandKind::cleanup => "cleanup",
            CommandKind::rollback => "rollback",
            CommandKind::pessimistic_rollback => "pessimistic_rollback",
            CommandKind::txn_heart_beat => "txn_heart_beat",
            CommandKind::check_txn_status => "check_txn_status",
            CommandKind::scan_lock => "scan_lock",
            CommandKind::resolve_lock => "resolve_lock",
            CommandKind::resolve_lock_lite => "resolve_lock_lite",
            CommandKind::delete_range => "delete_range",
            CommandKind::pause => "pause",
            CommandKind::key_mvcc => "key_mvcc",
            CommandKind::start_ts_mvcc => "start_ts_mvcc",
            CommandKind::raw_get => "raw_get",
            CommandKind::raw_batch_get => "raw_batch_get",
            CommandKind::raw_scan => "raw_scan",
            CommandKind::raw_batch_scan => "raw_batch_scan",
            CommandKind::raw_put => "raw_put",
            CommandKind::raw_batch_put => "raw_batch_put",
            CommandKind::raw_delete => "raw_delete",
            CommandKind::raw_delete_range => "raw_delete_range",
            CommandKind::raw_batch_delete => "raw_batch_delete",
        }
    }

    /// Position of the variant in declaration order.
    pub open spec fn index(self) -> nat {
        match self {
            CommandKind::get => 0,
            CommandKind::batch_get_command => 1,
            CommandKind::batch_get => 2,
            CommandKind::scan => 3,
            CommandKind::raw_batch_get_command => 4,
            CommandKind::prewrite => 5,
            CommandKind::acquire_pessimistic_lock => 6,
            CommandKind::commit => 7,
            CommandKind::cleanup => 8,
            CommandKind::rollback => 9,
            CommandKind::pessimistic_rollback => 10,
            CommandKind::txn_heart_beat => 11,
            CommandKind::check_txn_status => 12,
            CommandKind::scan_lock => 13,
            CommandKind::resolve_lock => 14,
            CommandKind::resolve_lock_lite => 15,
            CommandKind::delete_range => 16,
            CommandKind::pause => 17,
            CommandKind::key_mvcc => 18,
            CommandKind::start_ts_mvcc => 19,
            CommandKind::raw_get => 20,
            CommandKind::raw_batch_get => 21,
            CommandKind::raw_scan => 22,
            CommandKind::raw_batch_scan => 23,
            CommandKind::raw_put => 24,
            CommandKind::raw_batch_put => 25,
            CommandKind::raw_delete => 26,
            CommandKind::raw_delete_range => 27,
            CommandKind::raw_batch_delete => 28,
        }
    }

    /// The variant at a position, if the position is below the number of variants.
    pub open spec fn of_index(i: nat) -> Option<CommandKind> {
        if i == 0 {
            Some(CommandKind::get)
        } else if i == 1 {
            Some(CommandKind::batch_get_command)
        } else if i == 2 {
            Some(CommandKind::batch_get)
        } else if i == 3 {
            Some(CommandKind::scan)
        } else if i == 4 {
            Some(CommandKind::raw_batch_get_command)
        } else if i == 5 {
            Some(CommandKind::prewrite)
        } else if i == 6 {
            Some(CommandKind::acquire_pessimistic_lock)
        } else if i == 7 {
            Some(CommandKind::commit)
        } else if i == 8 {
            Some(CommandKind::cleanup)
        } else if i == 9 {
            Some(CommandKind::rollback)
        } else if i == 10 {
            Some(CommandKind::pessimistic_rollback)
        } else if i == 11 {
            Some(CommandKind::txn_heart_beat)
        } else if i == 12 {
            Some(CommandKind::check_txn_status)
        } else if i == 13 {
            Some(CommandKind::scan_lock)
        } else if i == 14 {
            Some(CommandKind::resolve_lock)
        } else if i == 15 {
            Some(CommandKind::resolve_lock_lite)
        } else if i == 16 {
            Some(CommandKind::delete_range)
        } else if i == 17 {
            Some(CommandKind::pause)
        } else if i == 18 {
            Some(CommandKind::key_mvcc)
        } else if i == 19 {
            Some(CommandKind::start_ts_mvcc)
        } else if i == 20 {
            Some(CommandKind::raw_get)
        } else if i == 21 {
            Some(CommandKind::raw_batch_get)
        } else if i == 22 {
            Some(CommandKind::raw_scan)
        } else if i == 23 {
            Some(CommandKind::raw_batch_scan)
        } else if i == 24 {
            Some(CommandKind::raw_put)
        } else if i == 25 {
            Some(CommandKind::raw_batch_put)
        } else if i == 26 {
            Some(CommandKind::raw_delete)
        } else if i == 27 {
            Some(CommandKind::raw_delete_range)
        } else if i == 28 {
            Some(CommandKind::raw_batch_delete)
        } else {
            None
        }
    }

    /// Position of the variant in declaration order.
    pub fn ordinal(&self) -> (i: u64)
        ensures
            i == self.index(),
            i < COMMAND_KIND_COUNT,
    {
        match self {
            CommandKind::get => 0,
            CommandKind::batch_get_command => 1,
            CommandKind::batch_get => 2,
            CommandKind::scan => 3,
            CommandKind::raw_batch_get_command => 4,
            CommandKind::prewrite => 5,
            CommandKind::acquire_pessimistic_lock => 6,
            CommandKind::commit => 7,
            CommandKind::cleanup => 8,
            CommandKind::rollback => 9,
            CommandKind::pessimistic_rollback => 10,
            CommandKind::txn_heart_beat => 11,
            CommandKind::check_txn_status => 12,
            CommandKind::scan_lock => 13,
            CommandKind::resolve_lock => 14,
            CommandKind::resolve_lock_lite => 15,
            CommandKind::delete_range => 16,
            CommandKind::pause => 17,
            CommandKind::key_mvcc => 18,
            CommandKind::start_ts_mvcc => 19,
            CommandKind::raw_get => 20,
            CommandKind::raw_batch_get => 21,
            CommandKind::raw_scan => 22,
            CommandKind::raw_batch_scan => 23,
            CommandKind::raw_put => 24,
            CommandKind::raw_batch_put => 25,
            CommandKind::raw_delete => 26,
            CommandKind::raw_delete_range => 27,
            CommandKind::raw_batch_delete => 28,
        }
    }

    /// The variant at a position, if the position is below the number of variants.
    pub fn from_ordinal(i: u64) -> (kind: Option<CommandKind>)
        ensures
            kind == Self::of_index(i as nat),
    {
        match i {
            0 => Some(CommandKind::get),
            1 => Some(CommandKind::batch_get_command),
            2 => Some(CommandKind::batch_get),
            3 => Some(CommandKind::scan),
            4 => Some(CommandKind::raw_batch_get_command),
            5 => Some(CommandKind::prewrite),
            6 => Some(CommandKind::acquire_pessimistic_lock),
            7 => Some(CommandKind::commit),
            8 => Some(CommandKind::cleanup),
            9 => Some(CommandKind::rollback),
            10 => Some(CommandKind::pessimistic_rollback),
            11 => Some(CommandKind::txn_heart_beat),
            12 => Some(CommandKind::check_txn_status),
            13 => Some(CommandKind::scan_lock),
            14 => Some(CommandKind::resolve_lock),
            15 => Some(CommandKind::resolve_lock_lite),
            16 => Some(CommandKind::delete_range),
            17 => Some(CommandKind::pause),
            18 => Some(CommandKind::key_mvcc),
            19 => Some(CommandKind::start_ts_mvcc),
            20 => Some(CommandKind::raw_get),
            21 => Some(CommandKind::raw_batch_get),
            22 => Some(CommandKind::raw_scan),
            23 => Some(CommandKind::raw_batch_scan),
            24 => Some(CommandKind::raw_put),
            25 => Some(CommandKind::raw_batch_put),
            26 => Some(CommandKind::raw_delete),
            27 => Some(CommandKind::raw_delete_range),
            28 => Some(CommandKind::raw_batch_delete),
            _ => None,
        }
    }
}

impl CommandStageKind {
    /// The label value under which this variant appears in every metric.
    pub open spec fn label(self) -> Seq<char> {
        match self {
            CommandStageKind::new => "new"@,
            CommandStageKind::snapshot => "snapshot"@,
            CommandStageKind::async_snapshot_err => "async_snapshot_err"@,
            CommandStageKind::snapshot_ok => "snapshot_ok"@,
            CommandStageKind::snapshot_err => "snapshot_err"@,
            CommandStageKind::read_finish => "read_finish"@,
            CommandStageKind::next_cmd => "next_cmd"@,
            CommandStageKind::lock_wait => "lock_wait"@,
            CommandStageKind::process => "process"@,
            CommandStageKind::prepare_write_err => "prepare_write_err"@,
            CommandStageKind::write => "write"@,
            CommandStageKind::write_finish => "write_finish"@,
            CommandStageKind::async_write_err => "async_write_err"@,
            CommandStageKind::error => "error"@,
        }
    }

    /// The label value, as the metrics registry takes it.
    pub fn get_str(&self) -> (s: &'static str)
        ensures
            s@ == self.label(),
    {
        match self {
            CommandStageKind::new => "new",
            CommandStageKind::snapshot => "snapshot",
            CommandStageKind::async_snapshot_err => "async_snapshot_err",
            CommandStageKind::snapshot_ok => "snapshot_ok",
            CommandStageKind::snapshot_err => "snapshot_err",
            CommandStageKind::read_finish => "read_finish",
            CommandStageKind::next_cmd => "next_cmd",
            CommandStageKind::lock_wait => "lock_wait",
            CommandStageKind::process => "process",
            CommandStageKind::prepare_write_err => "prepare_write_err",
            CommandStageKind::write => "write",
            CommandStageKind::write_finish => "write_finish",
            CommandStageKind::async_write_err => "async_write_err",
            CommandStageKind::error => "error",
        }
    }
}

impl CommandPriority {
    /// The label value under which this variant appears in every metric.
    pub open spec fn label(self) -> Seq<char> {
        match self {
            CommandPriority::low => "low"@,
            CommandPriority::normal => "normal"@,
            CommandPriority::high => "high"@,
        }
    }

    /// The label value, as the metrics registry takes it.
    pub fn get_str(&self) -> (s: &'static str)
        ensures
            s@ == self.label(),
    {
        match self {
            CommandPriority::low => "low",
            CommandPriority::normal => "normal",
            CommandPriority::high => "high",
        }
    }
}

/// A kind and its position determine each other, and positions stay below
/// the number of kinds.
pub proof fn lemma_kind_index_bijection(kind: CommandKind, i: nat)
    ensures
        kind.index() < COMMAND_KIND_COUNT,
        CommandKind::of_index(kind.index()) == Some(kind),
        CommandKind::of_index(i) is Some <==> i < COMMAND_KIND_COUNT,
        CommandKind::of_index(i) matches Some(k) ==> k.index() == i,
{
}

/// No two command kinds share a label: a label names its kind.
pub proof fn lemma_kind_labels_distinct(a: CommandKind, b: CommandKind)
    ensures
        a.label() == b.label() <==> a == b,
{
    reveal_strlit("get");
    reveal_strlit("batch_get_command");
    reveal_strlit("batch_get");
    reveal_strlit("scan");
    reveal_strlit("raw_batch_get_command");
    reveal_strlit("prewrite");
    reveal_strlit("acquire_pessimistic_lock");
    reveal_strlit("commit");
    reveal_strlit("cleanup");
    reveal_strlit("rollback");
    reveal_strlit("pessimistic_rollback");
    reveal_strlit("txn_heart_beat");
    reveal_strlit("check_txn_status");
    reveal_strlit("scan_lock");
    reveal_strlit("resolve_lock");
    reveal_strlit("resolve_lock_lite");
    reveal_strlit("delete_range");
    reveal_strlit("pause");
    reveal_strlit("key_mvcc");
    reveal_strlit("start_ts_mvcc");
    reveal_strlit("raw_get");
    reveal_strlit("raw_batch_get");
    reveal_strlit("raw_scan");
    reveal_strlit("raw_batch_scan");
    reveal_strlit("raw_put");
    reveal_strlit("raw_batch_put");
    reveal_strlit("raw_delete");
    reveal_strlit("raw_delete_range");
    reveal_strlit("raw_batch_delete");
    assert("get"@.len() == 3);
    assert("batch_get_command"@.len() == 17 && "batch_get_command"@[4] == 'h' && "batch_get_command"@[10] == 'c');
    assert("batch_get"@.len() == 9 && "batch_get"@[4] == 'h');
    assert("scan"@.len() == 4);
    assert("raw_batch_get_command"@.len() == 21 && "raw_batch_get_command"@[4] == 'b' && "raw_batch_get_command"@[10] == 'g');
    assert("prewrite"@.len() == 8 && "prewrite"@[4] == 'r');
    assert("acquire_pessimistic_lock"@.len() == 24 && "acquire_pessimistic_lock"@[4] == 'i' && "acquire_pessimistic_lock"@[10] == 's');
    assert("commit"@.len() == 6 && "commit"@[4] == 'i');
    assert("cleanup"@.len() == 7 && "cleanup"@[4] == 'n');
    assert("rollback"@.len() == 8 && "rollback"@[4] == 'b');
    assert("pessimistic_rollback"@.len() == 20 && "pessimistic_rollback"@[4] == 'i' && "pessimistic_rollback"@[10] == 'c');
    assert("txn_heart_beat"@.len() == 14 && "txn_heart_beat"@[4] == 'h' && "txn_heart_beat"@[10] == 'b');
    assert("check_txn_status"@.len() == 16 && "check_txn_status"@[4] == 'k' && "check_txn_status"@[10] == 's');
    assert("scan_lock"@.len() == 9 && "scan_lock"@[4] == '_');
    assert("resolve_lock"@.len() == 12 && "resolve_lock"@[4] == 'l' && "resolve_lock"@[10] == 'c');
    assert("resolve_lock_lite"@.len() == 17 && "resolve_lock_lite"@[4] == 'l' && "resolve_lock_lite"@[10] == 'c');
    assert("delete_range"@.len() == 12 && "delete_range"@[4] == 't' && "delete_range"@[10] == 'g');
    assert("pause"@.len() == 5 && "pause"@[4] == 'e');
    assert("key_mvcc"@.len() == 8 && "key_mvcc"@[4] == 'm');
    assert("start_ts_mvcc"@.len() == 13 && "start_ts_mvcc"@[4] == 't' && "start_ts_mvcc"@[10] == 'v');
    assert("raw_get"@.len() == 7 && "raw_get"@[4] == 'g');
    assert("raw_batch_get"@.len() == 13 && "raw_batch_get"@[4] == 'b' && "raw_batch_get"@[10] == 'g');
    assert("raw_scan"@.len() == 8 && "raw_scan"@[4] == 's');
    assert("raw_batch_scan"@.len() == 14 && "raw_batch_scan"@[4] == 'b' && "raw_batch_scan"@[10] == 's');
    assert("raw_put"@.len() == 7 && "raw_put"@[4] == 'p');
    assert("raw_batch_put"@.len() == 13 && "raw_batch_put"@[4] == 'b' && "raw_batch_put"@[10] == 'p');
    assert("raw_delete"@.len() == 10 && "raw_delete"@[4] == 'd');
    assert("raw_delete_range"@.len() == 16 && "raw_delete_range"@[4] == 'd' && "raw_delete_range"@[10] == '_');
    assert("raw_batch_delete"@.len() == 16 && "raw_batch_delete"@[4] == 'b' && "raw_batch_delete"@[10] == 'd');
}

/// No two stages share a label: a label names its stage.
pub proof fn lemma_stage_labels_distinct(a: CommandStageKind, b: CommandStageKind)
    ensures
        a.label() == b.label() <==> a == b,
{
    reveal_strlit("new");
    reveal_strlit("snapshot");
    reveal_strlit("async_snapshot_err");
    reveal_strlit("snapshot_ok");
    reveal_strlit("snapshot_err");
    reveal_strlit("read_finish");
    reveal_strlit("next_cmd");
    reveal_strlit("lock_wait");
    reveal_strlit("process");
    reveal_strlit("prepare_write_err");
    reveal_strlit("write");
    reveal_strlit("write_finish");
    reveal_strlit("async_write_err");
    reveal_strlit("error");
    assert("new"@.len() == 3 && "new"@[0] == 'n');
    assert("snapshot"@.len() == 8 && "snapshot"@[0] == 's');
    assert("async_snapshot_err"@.len() == 18 && "async_snapshot_err"@[0] == 'a');
    assert("snapshot_ok"@.len() == 11 && "snapshot_ok"@[0] == 's');
    assert("snapshot_err"@.len() == 12 && "snapshot_err"@[0] == 's');
    assert("read_finish"@.len() == 11 && "read_finish"@[0] == 'r');
    assert("next_cmd"@.len() == 8 && "next_cmd"@[0] == 'n');
    assert("lock_wait"@.len() == 9 && "lock_wait"@[0] == 'l');
    assert("process"@.len() == 7 && "process"@[0] == 'p');
    assert("prepare_write_err"@.len() == 17 && "prepare_write_err"@[0] == 'p');
    assert("write"@.len() == 5 && "write"@[0] == 'w');
    assert("write_finish"@.len() == 12 && "write_finish"@[0] == 'w');
    assert("async_write_err"@.len() == 15 && "async_write_err"@[0] == 'a');
    assert("error"@.len() == 5 && "error"@[0] == 'e');
}

/// No two priorities share a label: a label names its priority.
pub proof fn lemma_priority_labels_distinct(a: CommandPriority, b: CommandPriority)
    ensures
        a.label() == b.label() <==> a == b,
{
    reveal_strlit("low");
    reveal_strlit("normal");
    reveal_strlit("high");
    assert("low"@.len() == 3);
    assert("normal"@.len() == 6);
    assert("high"@.len() == 4);
}

} // verus!
