//! The published statistics record, the kernel's raw record, and the mapping
//! from the second to the first.

use crate::bintime::bintime_ns;
pub use crate::bintime::{bintime_to_ns, Bintime};
pub use crate::rpc::PerRPC;
use crate::rpc::{RpcOp, OP_SLOTS};
use vstd::prelude::*;

verus! {

/// A pair of totals, one for reads and one for writes.
#[derive(Clone, Copy, Debug, Default, PartialEq, Eq, Structural)]
pub struct PerRW {
    pub read: u64,
    pub write: u64,
}

/// Totals for reads, writes and commits.
#[derive(Clone, Copy, Debug, Default, PartialEq, Eq, Structural)]
pub struct PerRWC {
    pub read: u64,
    pub write: u64,
    pub commit: u64,
}

/// Server cache statistics.
#[derive(Clone, Copy, Debug, Default, PartialEq, Eq, Structural)]
pub struct ServerCache {
    pub inprog: u64,
    pub nonidem: u64,
    pub misses: u64,
    /// Entries in the cache.  Never negative, whatever the kernel reported.
    pub size: u64,
    pub tcp_peak: u64,
}

/// Miscellaneous NFS server stats.
#[derive(Clone, Copy, Debug, Default, PartialEq, Eq, Structural)]
pub struct ServerMisc {
    /// Number of currently connected NFS v4.0+ clients.
    pub clients: u64,
    pub delegs: u64,
    pub lock_owner: u64,
    pub locks: u64,
    pub open_owner: u64,
    pub opens: u64,
}

/// One snapshot of the server's statistics.  Every counter is cumulative since
/// boot and may wrap at 2^64.
#[derive(Clone, Copy, Debug, Default, PartialEq, Eq, Structural)]
pub struct NfsStat {
    /// Total time in ns that nfsd was busy with at least one operation.
    /// May wrap!
    pub busytime: u64,
    /// Total bytes processed by each operation.
    pub bytes: PerRW,
    /// Total number of operations that have completed since boot.
    pub donecnt: u64,
    /// Cumulative duration spent processing each operation, in nanoseconds.
    /// May wrap!
    pub duration: PerRWC,
    pub server_cache: ServerCache,
    pub server_misc: ServerMisc,
    /// Count of each RPC processed by the server.
    pub server_rpcs: PerRPC,
    /// Total number of operations that have been started since boot.
    pub startcnt: u64,
}

/// The error code of a failed privileged read.
#[derive(Clone, Copy, Debug, PartialEq, Eq, Structural)]
pub struct OsError {
    pub code: i32,
}

/// The server's part of the kernel's statistics record, as the kernel lays it
/// out: three tables with one slot per operation code, and scalar counters.
#[derive(Clone, Copy, Debug)]
pub struct RawStats {
    pub srvrpccnt: [u64; OP_SLOTS],
    pub srvbytes: [u64; OP_SLOTS],
    pub srvduration: [Bintime; OP_SLOTS],
    pub srvstartcnt: u64,
    pub srvdonecnt: u64,
    pub busytime: Bintime,
    pub srvcache_inproghits: u64,
    pub srvcache_nonidemdonehits: u64,
    pub srvcache_misses: u64,
    pub srvcache_tcppeak: u64,
    /// The kernel keeps this one as a signed integer, and it can be seen
    /// below zero.
    pub srvcache_size: i32,
    pub srvclients: u64,
    pub srvopenowners: u64,
    pub srvopens: u64,
    pub srvlockowners: u64,
    pub srvlocks: u64,
    pub srvdelegates: u64,
}

impl RawStats {
    /// Whether every table and counter of the record is zero.
    pub open spec fn is_zero(self) -> bool {
        &&& forall|i: int| 0 <= i < OP_SLOTS ==> self.srvrpccnt[i] == 0
        &&& forall|i: int| 0 <= i < OP_SLOTS ==> self.srvbytes[i] == 0
        &&& forall|i: int| 0 <= i < OP_SLOTS ==> self.srvduration[i] == (Bintime { sec: 0, frac: 0 })
        &&& self.srvstartcnt == 0
        &&& self.srvdonecnt == 0
        &&& self.busytime == (Bintime { sec: 0, frac: 0 })
        &&& self.srvcache_inproghits == 0
        &&& self.srvcache_nonidemdonehits == 0
        &&& self.srvcache_misses == 0
        &&& self.srvcache_tcppeak == 0
        &&& self.srvcache_size == 0
        &&& self.srvclients == 0
        &&& self.srvopenowners == 0
        &&& self.srvopens == 0
        &&& self.srvlockowners == 0
        &&& self.srvlocks == 0
        &&& self.srvdelegates == 0
    }

    /// A record of zeros, as the kernel would report right after boot.
    pub fn new() -> (raw: RawStats)
        ensures
            raw.is_zero(),
    {
        let zero = Bintime { sec: 0, frac: 0 };
        RawStats {
            srvrpccnt: [0u64; OP_SLOTS],
            srvbytes: [0u64; OP_SLOTS],
            srvduration: [zero; OP_SLOTS],
            srvstartcnt: 0,
            srvdonecnt: 0,
            busytime: zero,
            srvcache_inproghits: 0,
            srvcache_nonidemdonehits: 0,
            srvcache_misses: 0,
            srvcache_tcppeak: 0,
            srvcache_size: 0,
            srvclients: 0,
            srvopenowners: 0,
            srvopens: 0,
            srvlockowners: 0,
            srvlocks: 0,
            srvdelegates: 0,
        }
    }
}

/// The cache size that is published for the kernel's signed value: a negative
/// value counts as an empty cache.
pub open spec fn cache_entries(raw: i32) -> u64 {
    if raw < 0 {
        0
    } else {
        raw as u64
    }
}

/// The statistics that a raw record stands for.
pub open spec fn normalized(raw: RawStats) -> NfsStat {
    NfsStat {
        busytime: bintime_ns(raw.busytime),
        bytes: PerRW {
            read: raw.srvbytes[RpcOp::Read.code() as int],
            write: raw.srvbytes[RpcOp::Write.code() as int],
        },
        donecnt: raw.srvdonecnt,
        duration: PerRWC {
            read: bintime_ns(raw.srvduration[RpcOp::Read.code() as int]),
            write: bintime_ns(raw.srvduration[RpcOp::Write.code() as int]),
            commit: bintime_ns(raw.srvduration[RpcOp::Commit.code() as int]),
        },
        server_cache: ServerCache {
            inprog: raw.srvcache_inproghits,
            nonidem: raw.srvcache_nonidemdonehits,
            misses: raw.srvcache_misses,
            size: cache_entries(raw.srvcache_size),
            tcp_peak: raw.srvcache_tcppeak,
        },
        server_misc: ServerMisc {
            clients: raw.srvclients,
            delegs: raw.srvdelegates,
            lock_owner: raw.srvlockowners,
            locks: raw.srvlocks,
            open_owner: raw.srvopenowners,
            opens: raw.srvopens,
        },
        server_rpcs: PerRPC::tabulate(|op: RpcOp| raw.srvrpccnt[op.code() as int]),
        startcnt: raw.srvstartcnt,
    }
}

/// Clamps the kernel's signed cache size at zero.
pub fn clamp_cache_size(raw: i32) -> (size: u64)
    ensures
        size == cache_entries(raw),
        raw < 0 ==> size == 0,
        raw >= 0 ==> size == raw,
{
    if raw < 0 {
        0
    } else {
        raw as u64
    }
}

/// Maps the kernel's raw record to the published one.  Nothing is filtered and
/// nothing can fail: times are converted to nanoseconds, the cache size is
/// clamped at zero, and every operation's count is read from its own slot.
pub fn normalize(raw: &RawStats) -> (stat: NfsStat)
    ensures
        stat == normalized(*raw),
        forall|op: RpcOp| stat.server_rpcs.count(op) == raw.srvrpccnt[op.code() as int],
        raw.srvcache_size < 0 ==> stat.server_cache.size == 0,
        raw.srvcache_size >= 0 ==> stat.server_cache.size == raw.srvcache_size,
{
    let bytes = PerRW {
        read: raw.srvbytes[RpcOp::Read.code()],
        write: raw.srvbytes[RpcOp::Write.code()],
    };
    let duration = PerRWC {
        read: bintime_to_ns(&raw.srvduration[RpcOp::Read.code()]),
        write: bintime_to_ns(&raw.srvduration[RpcOp::Write.code()]),
        commit: bintime_to_ns(&raw.srvduration[RpcOp::Commit.code()]),
    };
    let server_cache = ServerCache {
        inprog: raw.srvcache_inproghits,
        nonidem: raw.srvcache_nonidemdonehits,
        misses: raw.srvcache_misses,
        size: clamp_cache_size(raw.srvcache_size),
        tcp_peak: raw.srvcache_tcppeak,
    };
    let server_misc = ServerMisc {
        clients: raw.srvclients,
        delegs: raw.srvdelegates,
        lock_owner: raw.srvlockowners,
        locks: raw.srvlocks,
        open_owner: raw.srvopenowners,
        opens: raw.srvopens,
    };
    let server_rpcs = PerRPC::from_table(&raw.srvrpccnt);
    NfsStat {
        bytes,
        duration,
        startcnt: raw.srvstartcnt,
        donecnt: raw.srvdonecnt,
        busytime: bintime_to_ns(&raw.busytime),
        server_cache,
        server_misc,
        server_rpcs,
    }
}

/// Turns the outcome of the privileged read into the outcome of a query: a
/// record that was read is normalized, and a failed read keeps its error code.
pub fn collect(read: Result<RawStats, OsError>) -> (result: Result<NfsStat, OsError>)
    ensures
        match read {
            Ok(raw) => result == Ok::<NfsStat, OsError>(normalized(raw)),
            Err(e) => result == Err::<NfsStat, OsError>(e),
        },
{
    match read {
        Ok(raw) => Ok(normalize(&raw)),
        Err(e) => Err(e),
    }
}

} // verus!
