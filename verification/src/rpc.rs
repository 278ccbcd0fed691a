//! The operations that the server counts, the slot of the kernel's tables
//! that backs each of them, and the record of their counts.

use vstd::prelude::*;

verus! {

/// Number of protocol operations up to and including NFSv4.2.  Their codes are
/// the operation numbers of the protocol itself.
pub const NFSV42_NOPS: usize = 76;

/// Number of synthetic codes.  The kernel files NFSv3 procedures that have no
/// NFSv4 operation of their own under codes that follow the protocol's.
pub const NFSV4OP_FAKENOPS: usize = 9;

/// Number of slots in each per-operation table: one for every code, used or not.
pub const OP_SLOTS: usize = 85;

/// Number of operations that are counted.
pub const OP_COUNT: usize = 65;

pub const NFSV4OP_ACCESS: usize = 3;
pub const NFSV4OP_BACKCHANNELCTL: usize = 40;
pub const NFSV4OP_BINDCONNTOSESS: usize = 41;
pub const NFSV4OP_CLOSE: usize = 4;
pub const NFSV4OP_COMMIT: usize = 5;
pub const NFSV4OP_CREATE: usize = 6;
pub const NFSV4OP_CREATESESSION: usize = 43;
pub const NFSV4OP_DELEGPURGE: usize = 7;
pub const NFSV4OP_DELEGRETURN: usize = 8;
pub const NFSV4OP_DESTROYCLIENTID: usize = 57;
pub const NFSV4OP_DESTROYSESSION: usize = 44;
pub const NFSV4OP_EXCHANGEID: usize = 42;
pub const NFSV4OP_FREESTATEID: usize = 45;
/// Synthetic: `NFSV42_NOPS + 6`.
pub const NFSV4OP_FSINFO: usize = 82;
/// Synthetic: `NFSV42_NOPS + 5`.
pub const NFSV4OP_FSSTAT: usize = 81;
pub const NFSV4OP_GETATTR: usize = 9;
pub const NFSV4OP_GETDEVINFO: usize = 47;
pub const NFSV4OP_GETDEVLIST: usize = 48;
pub const NFSV4OP_GETDIRDELEG: usize = 46;
pub const NFSV4OP_GETFH: usize = 10;
pub const NFSV4OP_LAYOUTCOMMIT: usize = 49;
pub const NFSV4OP_LAYOUTGET: usize = 50;
pub const NFSV4OP_LAYOUTRETURN: usize = 51;
pub const NFSV4OP_LINK: usize = 11;
pub const NFSV4OP_LOCK: usize = 12;
pub const NFSV4OP_LOCKT: usize = 13;
pub const NFSV4OP_LOCKU: usize = 14;
pub const NFSV4OP_LOOKUP: usize = 15;
pub const NFSV4OP_LOOKUPP: usize = 16;
/// Synthetic: `NFSV42_NOPS + 1`.
pub const NFSV4OP_MKDIR: usize = 77;
/// Synthetic: `NFSV42_NOPS + 4`.
pub const NFSV4OP_MKNOD: usize = 80;
pub const NFSV4OP_NVERIFY: usize = 17;
pub const NFSV4OP_OPEN: usize = 18;
pub const NFSV4OP_OPENATTR: usize = 19;
pub const NFSV4OP_OPENCONFIRM: usize = 20;
pub const NFSV4OP_OPENDOWNGRADE: usize = 21;
/// Synthetic: `NFSV42_NOPS + 7`.
pub const NFSV4OP_PATHCONF: usize = 83;
pub const NFSV4OP_PUTFH: usize = 22;
pub const NFSV4OP_PUTPUBFH: usize = 23;
pub const NFSV4OP_PUTROOTFH: usize = 24;
pub const NFSV4OP_READ: usize = 25;
pub const NFSV4OP_READDIR: usize = 26;
/// Synthetic: `NFSV42_NOPS + 3`.
pub const NFSV4OP_READDIRPLUS: usize = 79;
pub const NFSV4OP_READLINK: usize = 27;
pub const NFSV4OP_RECLAIMCOMPL: usize = 58;
pub const NFSV4OP_RELEASELCKOWN: usize = 39;
pub const NFSV4OP_REMOVE: usize = 28;
pub const NFSV4OP_RENAME: usize = 29;
pub const NFSV4OP_RENEW: usize = 30;
pub const NFSV4OP_RESTOREFH: usize = 31;
/// Synthetic: `NFSV42_NOPS + 2`.
pub const NFSV4OP_RMDIR: usize = 78;
pub const NFSV4OP_SAVEFH: usize = 32;
pub const NFSV4OP_SECINFO: usize = 33;
pub const NFSV4OP_SECINFONONAME: usize = 52;
pub const NFSV4OP_SEQUENCE: usize = 53;
pub const NFSV4OP_SETATTR: usize = 34;
pub const NFSV4OP_SETCLIENTID: usize = 35;
pub const NFSV4OP_SETCLIENTIDCFRM: usize = 36;
pub const NFSV4OP_SETSSV: usize = 54;
/// Synthetic: `NFSV42_NOPS`.
pub const NFSV4OP_SYMLINK: usize = 76;
pub const NFSV4OP_TESTSTATEID: usize = 55;
/// Synthetic: `NFSV42_NOPS + 8`.
pub const NFSV4OP_V3CREATE: usize = 84;
pub const NFSV4OP_VERIFY: usize = 37;
pub const NFSV4OP_WANTDELEG: usize = 56;
pub const NFSV4OP_WRITE: usize = 38;

/// One counted operation.  The variants stand in the order of the fields of
/// `PerRPC`.
#[derive(Clone, Copy, Debug, PartialEq, Eq, Hash, Structural)]
pub enum RpcOp {
    Access,
    BackChannelCtl,
    BindConnToSess,
    Close,
    Commit,
    Create,
    CreateSession,
    DelegPurge,
    DelegReturn,
    DestroyClientId,
    DestroySession,
    ExchangeId,
    FreeStateId,
    FsInfo,
    FsStat,
    GetAttr,
    GetDevInfo,
    GetDevList,
    GetDirDeleg,
    GetFh,
    LayoutCommit,
    LayoutGet,
    LayoutReturn,
    Link,
    Lock,
    LockT,
    LockU,
    Lookup,
    LookupP,
    MkDir,
    MkNod,
    Nverify,
    Open,
    OpenAttr,
    OpenConfirm,
    OpenDowngrade,
    PathConf,
    PutFh,
    PutPubFh,
    PutRootFh,
    Read,
    ReadDir,
    ReadDirPlus,
    ReadLink,
    ReclaimComplete,
    ReleaseLockOwner,
    Remove,
    Rename,
    Renew,
    RestoreFh,
    RmDir,
    SaveFh,
    SecInfo,
    SecInfoNoName,
    Sequence,
    SetAttr,
    SetClientId,
    SetClientIdConfirm,
    SetSsv,
    SymLink,
    TestStateId,
    V3Create,
    Verify,
    WantDelegation,
    Write,
}

impl RpcOp {
    /// The place of this operation among the operations, and of its count
    /// among the fields of `PerRPC`.
    pub open spec fn ordinal(self) -> nat {
        match self {
            RpcOp::Access => 0,
            RpcOp::BackChannelCtl => 1,
            RpcOp::BindConnToSess => 2,
            RpcOp::Close => 3,
            RpcOp::Commit => 4,
            RpcOp::Create => 5,
            RpcOp::CreateSession => 6,
            RpcOp::DelegPurge => 7,
            RpcOp::DelegReturn => 8,
            RpcOp::DestroyClientId => 9,
            RpcOp::DestroySession => 10,
            RpcOp::ExchangeId => 11,
            RpcOp::FreeStateId => 12,
            RpcOp::FsInfo => 13,
            RpcOp::FsStat => 14,
            RpcOp::GetAttr => 15,
            RpcOp::GetDevInfo => 16,
            RpcOp::GetDevList => 17,
            RpcOp::GetDirDeleg => 18,
            RpcOp::GetFh => 19,
            RpcOp::LayoutCommit => 20,
            RpcOp::LayoutGet => 21,
            RpcOp::LayoutReturn => 22,
            RpcOp::Link => 23,
            RpcOp::Lock => 24,
            RpcOp::LockT => 25,
            RpcOp::LockU => 26,
            RpcOp::Lookup => 27,
            RpcOp::LookupP => 28,
            RpcOp::MkDir => 29,
            RpcOp::MkNod => 30,
            RpcOp::Nverify => 31,
            RpcOp::Open => 32,
            RpcOp::OpenAttr => 33,
            RpcOp::OpenConfirm => 34,
            RpcOp::OpenDowngrade => 35,
            RpcOp::PathConf => 36,
            RpcOp::PutFh => 37,
            RpcOp::PutPubFh => 38,
            RpcOp::PutRootFh => 39,
            RpcOp::Read => 40,
            RpcOp::ReadDir => 41,
            RpcOp::ReadDirPlus => 42,
            RpcOp::ReadLink => 43,
            RpcOp::ReclaimComplete => 44,
            RpcOp::ReleaseLockOwner => 45,
            RpcOp::Remove => 46,
            RpcOp::Rename => 47,
            RpcOp::Renew => 48,
            RpcOp::RestoreFh => 49,
            RpcOp::RmDir => 50,
            RpcOp::SaveFh => 51,
            RpcOp::SecInfo => 52,
            RpcOp::SecInfoNoName => 53,
            RpcOp::Sequence => 54,
            RpcOp::SetAttr => 55,
            RpcOp::SetClientId => 56,
            RpcOp::SetClientIdConfirm => 57,
            RpcOp::SetSsv => 58,
            RpcOp::SymLink => 59,
            RpcOp::TestStateId => 60,
            RpcOp::V3Create => 61,
            RpcOp::Verify => 62,
            RpcOp::WantDelegation => 63,
            RpcOp::Write => 64,
        }
    }

    /// The operation with the given ordinal, if there is one.
    pub fn from_ordinal(ordinal: usize) -> (found: Option<RpcOp>)
        ensures
            ordinal < OP_COUNT ==> found is Some && found->Some_0.ordinal() == ordinal,
            ordinal >= OP_COUNT ==> found is None,
    {
        match ordinal {
            0 => Some(RpcOp::Access),
            1 => Some(RpcOp::BackChannelCtl),
            2 => Some(RpcOp::BindConnToSess),
            3 => Some(RpcOp::Close),
            4 => Some(RpcOp::Commit),
            5 => Some(RpcOp::Create),
            6 => Some(RpcOp::CreateSession),
            7 => Some(RpcOp::DelegPurge),
            8 => Some(RpcOp::DelegReturn),
            9 => Some(RpcOp::DestroyClientId),
            10 => Some(RpcOp::DestroySession),
            11 => Some(RpcOp::ExchangeId),
            12 => Some(RpcOp::FreeStateId),
            13 => Some(RpcOp::FsInfo),
            14 => Some(RpcOp::FsStat),
            15 => Some(RpcOp::GetAttr),
            16 => Some(RpcOp::GetDevInfo),
            17 => Some(RpcOp::GetDevList),
            18 => Some(RpcOp::GetDirDeleg),
            19 => Some(RpcOp::GetFh),
            20 => Some(RpcOp::LayoutCommit),
            21 => Some(RpcOp::LayoutGet),
            22 => Some(RpcOp::LayoutReturn),
            23 => Some(RpcOp::Link),
            24 => Some(RpcOp::Lock),
            25 => Some(RpcOp::LockT),
            26 => Some(RpcOp::LockU),
            27 => Some(RpcOp::Lookup),
            28 => Some(RpcOp::LookupP),
            29 => Some(RpcOp::MkDir),
            30 => Some(RpcOp::MkNod),
            31 => Some(RpcOp::Nverify),
            32 => Some(RpcOp::Open),
            33 => Some(RpcOp::OpenAttr),
            34 => Some(RpcOp::OpenConfirm),
            35 => Some(RpcOp::OpenDowngrade),
            36 => Some(RpcOp::PathConf),
            37 => Some(RpcOp::PutFh),
            38 => Some(RpcOp::PutPubFh),
            39 => Some(RpcOp::PutRootFh),
            40 => Some(RpcOp::Read),
            41 => Some(RpcOp::ReadDir),
            42 => Some(RpcOp::ReadDirPlus),
            43 => Some(RpcOp::ReadLink),
            44 => Some(RpcOp::ReclaimComplete),
            45 => Some(RpcOp::ReleaseLockOwner),
            46 => Some(RpcOp::Remove),
            47 => Some(RpcOp::Rename),
            48 => Some(RpcOp::Renew),
            49 => Some(RpcOp::RestoreFh),
            50 => Some(RpcOp::RmDir),
            51 => Some(RpcOp::SaveFh),
            52 => Some(RpcOp::SecInfo),
            53 => Some(RpcOp::SecInfoNoName),
            54 => Some(RpcOp::Sequence),
            55 => Some(RpcOp::SetAttr),
            56 => Some(RpcOp::SetClientId),
            57 => Some(RpcOp::SetClientIdConfirm),
            58 => Some(RpcOp::SetSsv),
            59 => Some(RpcOp::SymLink),
            60 => Some(RpcOp::TestStateId),
            61 => Some(RpcOp::V3Create),
            62 => Some(RpcOp::Verify),
            63 => Some(RpcOp::WantDelegation),
            64 => Some(RpcOp::Write),
            _ => None,
        }
    }

    /// Every operation, each once, in the order of their ordinals.
    pub fn all() -> (ops: Vec<RpcOp>)
        ensures
            ops@.len() == OP_COUNT,
            forall|i: int| 0 <= i < OP_COUNT ==> (#[trigger] ops@[i]).ordinal() == i,
            forall|op: RpcOp| ops@[op.ordinal() as int] == op,
    {
        let mut ops: Vec<RpcOp> = Vec::with_capacity(OP_COUNT);
        let mut next: usize = 0;
        while next < OP_COUNT
            invariant
                next <= OP_COUNT,
                ops@.len() == next,
                forall|i: int| 0 <= i < next ==> (#[trigger] ops@[i]).ordinal() == i,
            decreases OP_COUNT - next,
        {
            match RpcOp::from_ordinal(next) {
                Some(op) => {
                    ops.push(op);
                },
                None => {},
            }
            next += 1;
        }
        assert forall|op: RpcOp| ops@[op.ordinal() as int] == op by {
            lemma_ordinals_distinct(ops@[op.ordinal() as int], op);
        }
        ops
    }

    /// The label under which the count of this operation is published.
    pub open spec fn spec_label(self) -> Seq<char> {
        match self {
            RpcOp::Access => "Access"@,
            RpcOp::BackChannelCtl => "BackChannelCtl"@,
            RpcOp::BindConnToSess => "BindConnToSess"@,
            RpcOp::Close => "Close"@,
            RpcOp::Commit => "Commit"@,
            RpcOp::Create => "CreateV4"@,
            RpcOp::CreateSession => "CreateSession"@,
            RpcOp::DelegPurge => "DelegPurge"@,
            RpcOp::DelegReturn => "DelegReturn"@,
            RpcOp::DestroyClientId => "DestroyClientId"@,
            RpcOp::DestroySession => "DestroySession"@,
            RpcOp::ExchangeId => "ExchangeId"@,
            RpcOp::FreeStateId => "FreeStateId"@,
            RpcOp::FsInfo => "FsInfo"@,
            RpcOp::FsStat => "FsStat"@,
            RpcOp::GetAttr => "GetAttr"@,
            RpcOp::GetDevInfo => "GetDevInfo"@,
            RpcOp::GetDevList => "GetDevList"@,
            RpcOp::GetDirDeleg => "GetDirDeleg"@,
            RpcOp::GetFh => "GetFH"@,
            RpcOp::LayoutCommit => "LayoutCommit"@,
            RpcOp::LayoutGet => "LayoutGet"@,
            RpcOp::LayoutReturn => "LayoutReturn"@,
            RpcOp::Link => "Link"@,
            RpcOp::Lock => "Lock"@,
            RpcOp::LockT => "LockT"@,
            RpcOp::LockU => "LockU"@,
            RpcOp::Lookup => "Lookup"@,
            RpcOp::LookupP => "LookupP"@,
            RpcOp::MkDir => "MkDir"@,
            RpcOp::MkNod => "MkNod"@,
            RpcOp::Nverify => "Nverify"@,
            RpcOp::Open => "Open"@,
            RpcOp::OpenAttr => "OpenAttr"@,
            RpcOp::OpenConfirm => "OpenConfirm"@,
            RpcOp::OpenDowngrade => "OpenDgrd"@,
            RpcOp::PathConf => "PathConf"@,
            RpcOp::PutFh => "PutFH"@,
            RpcOp::PutPubFh => "PutPubFH"@,
            RpcOp::PutRootFh => "PutRootFH"@,
            RpcOp::Read => "Read"@,
            RpcOp::ReadDir => "ReadDir"@,
            RpcOp::ReadDirPlus => "ReadDirPlus"@,
            RpcOp::ReadLink => "ReadLink"@,
            RpcOp::ReclaimComplete => "ReclaimCompl"@,
            RpcOp::ReleaseLockOwner => "RelLockOwner"@,
            RpcOp::Remove => "Remove"@,
            RpcOp::Rename => "Rename"@,
            RpcOp::Renew => "Renew"@,
            RpcOp::RestoreFh => "RestoreFH"@,
            RpcOp::RmDir => "RmDir"@,
            RpcOp::SaveFh => "SaveFH"@,
            RpcOp::SecInfo => "SecInfo"@,
            RpcOp::SecInfoNoName => "SecInfoNoName"@,
            RpcOp::Sequence => "Sequence"@,
            RpcOp::SetAttr => "SetAttr"@,
            RpcOp::SetClientId => "SetClientId"@,
            RpcOp::SetClientIdConfirm => "SetClientIdConfirm"@,
            RpcOp::SetSsv => "SetSSV"@,
            RpcOp::SymLink => "SymLink"@,
            RpcOp::TestStateId => "TestStateId"@,
            RpcOp::V3Create => "Create"@,
            RpcOp::Verify => "Verify"@,
            RpcOp::WantDelegation => "WantDeleg"@,
            RpcOp::Write => "Write"@,
        }
    }

    /// The label under which the count of this operation is published.  Every
    /// operation has one, and no two operations share one.
    pub fn label(self) -> (label: &'static str)
        ensures
            label@ == self.spec_label(),
    {
        match self {
            RpcOp::Access => "Access",
            RpcOp::BackChannelCtl => "BackChannelCtl",
            RpcOp::BindConnToSess => "BindConnToSess",
            RpcOp::Close => "Close",
            RpcOp::Commit => "Commit",
            RpcOp::Create => "CreateV4",
            RpcOp::CreateSession => "CreateSession",
            RpcOp::DelegPurge => "DelegPurge",
            RpcOp::DelegReturn => "DelegReturn",
            RpcOp::DestroyClientId => "DestroyClientId",
            RpcOp::DestroySession => "DestroySession",
            RpcOp::ExchangeId => "ExchangeId",
            RpcOp::FreeStateId => "FreeStateId",
            RpcOp::FsInfo => "FsInfo",
            RpcOp::FsStat => "FsStat",
            RpcOp::GetAttr => "GetAttr",
            RpcOp::GetDevInfo => "GetDevInfo",
            RpcOp::GetDevList => "GetDevList",
            RpcOp::GetDirDeleg => "GetDirDeleg",
            RpcOp::GetFh => "GetFH",
            RpcOp::LayoutCommit => "LayoutCommit",
            RpcOp::LayoutGet => "LayoutGet",
            RpcOp::LayoutReturn => "LayoutReturn",
            RpcOp::Link => "Link",
            RpcOp::Lock => "Lock",
            RpcOp::LockT => "LockT",
            RpcOp::LockU => "LockU",
            RpcOp::Lookup => "Lookup",
            RpcOp::LookupP => "LookupP",
            RpcOp::MkDir => "MkDir",
            RpcOp::MkNod => "MkNod",
            RpcOp::Nverify => "Nverify",
            RpcOp::Open => "Open",
            RpcOp::OpenAttr => "OpenAttr",
            RpcOp::OpenConfirm => "OpenConfirm",
            RpcOp::OpenDowngrade => "OpenDgrd",
            RpcOp::PathConf => "PathConf",
            RpcOp::PutFh => "PutFH",
            RpcOp::PutPubFh => "PutPubFH",
            RpcOp::PutRootFh => "PutRootFH",
            RpcOp::Read => "Read",
            RpcOp::ReadDir => "ReadDir",
            RpcOp::ReadDirPlus => "ReadDirPlus",
            RpcOp::ReadLink => "ReadLink",
            RpcOp::ReclaimComplete => "ReclaimCompl",
            RpcOp::ReleaseLockOwner => "RelLockOwner",
            RpcOp::Remove => "Remove",
            RpcOp::Rename => "Rename",
            RpcOp::Renew => "Renew",
            RpcOp::RestoreFh => "RestoreFH",
            RpcOp::RmDir => "RmDir",
            RpcOp::SaveFh => "SaveFH",
            RpcOp::SecInfo => "SecInfo",
            RpcOp::SecInfoNoName => "SecInfoNoName",
            RpcOp::Sequence => "Sequence",
            RpcOp::SetAttr => "SetAttr",
            RpcOp::SetClientId => "SetClientId",
            RpcOp::SetClientIdConfirm => "SetClientIdConfirm",
            RpcOp::SetSsv => "SetSSV",
            RpcOp::SymLink => "SymLink",
            RpcOp::TestStateId => "TestStateId",
            RpcOp::V3Create => "Create",
            RpcOp::Verify => "Verify",
            RpcOp::WantDelegation => "WantDeleg",
            RpcOp::Write => "Write",
        }
    }

    /// The slot of the kernel's per-operation tables that holds this operation.
    pub open spec fn spec_code(self) -> usize {
        match self {
            RpcOp::Access => NFSV4OP_ACCESS,
            RpcOp::BackChannelCtl => NFSV4OP_BACKCHANNELCTL,
            RpcOp::BindConnToSess => NFSV4OP_BINDCONNTOSESS,
            RpcOp::Close => NFSV4OP_CLOSE,
            RpcOp::Commit => NFSV4OP_COMMIT,
            RpcOp::Create => NFSV4OP_CREATE,
            RpcOp::CreateSession => NFSV4OP_CREATESESSION,
            RpcOp::DelegPurge => NFSV4OP_DELEGPURGE,
            RpcOp::DelegReturn => NFSV4OP_DELEGRETURN,
            RpcOp::DestroyClientId => NFSV4OP_DESTROYCLIENTID,
            RpcOp::DestroySession => NFSV4OP_DESTROYSESSION,
            RpcOp::ExchangeId => NFSV4OP_EXCHANGEID,
            RpcOp::FreeStateId => NFSV4OP_FREESTATEID,
            RpcOp::FsInfo => NFSV4OP_FSINFO,
            RpcOp::FsStat => NFSV4OP_FSSTAT,
            RpcOp::GetAttr => NFSV4OP_GETATTR,
            RpcOp::GetDevInfo => NFSV4OP_GETDEVINFO,
            RpcOp::GetDevList => NFSV4OP_GETDEVLIST,
            RpcOp::GetDirDeleg => NFSV4OP_GETDIRDELEG,
            RpcOp::GetFh => NFSV4OP_GETFH,
            RpcOp::LayoutCommit => NFSV4OP_LAYOUTCOMMIT,
            RpcOp::LayoutGet => NFSV4OP_LAYOUTGET,
            RpcOp::LayoutReturn => NFSV4OP_LAYOUTRETURN,
            RpcOp::Link => NFSV4OP_LINK,
            RpcOp::Lock => NFSV4OP_LOCK,
            RpcOp::LockT => NFSV4OP_LOCKT,
            RpcOp::LockU => NFSV4OP_LOCKU,
            RpcOp::Lookup => NFSV4OP_LOOKUP,
            RpcOp::LookupP => NFSV4OP_LOOKUPP,
            RpcOp::MkDir => NFSV4OP_MKDIR,
            RpcOp::MkNod => NFSV4OP_MKNOD,
            RpcOp::Nverify => NFSV4OP_NVERIFY,
            RpcOp::Open => NFSV4OP_OPEN,
            RpcOp::OpenAttr => NFSV4OP_OPENATTR,
            RpcOp::OpenConfirm => NFSV4OP_OPENCONFIRM,
            RpcOp::OpenDowngrade => NFSV4OP_OPENDOWNGRADE,
            RpcOp::PathConf => NFSV4OP_PATHCONF,
            RpcOp::PutFh => NFSV4OP_PUTFH,
            RpcOp::PutPubFh => NFSV4OP_PUTPUBFH,
            RpcOp::PutRootFh => NFSV4OP_PUTROOTFH,
            RpcOp::Read => NFSV4OP_READ,
            RpcOp::ReadDir => NFSV4OP_READDIR,
            RpcOp::ReadDirPlus => NFSV4OP_READDIRPLUS,
            RpcOp::ReadLink => NFSV4OP_READLINK,
            RpcOp::ReclaimComplete => NFSV4OP_RECLAIMCOMPL,
            RpcOp::ReleaseLockOwner => NFSV4OP_RELEASELCKOWN,
            RpcOp::Remove => NFSV4OP_REMOVE,
            RpcOp::Rename => NFSV4OP_RENAME,
            RpcOp::Renew => NFSV4OP_RENEW,
            RpcOp::RestoreFh => NFSV4OP_RESTOREFH,
            RpcOp::RmDir => NFSV4OP_RMDIR,
            RpcOp::SaveFh => NFSV4OP_SAVEFH,
            RpcOp::SecInfo => NFSV4OP_SECINFO,
            RpcOp::SecInfoNoName => NFSV4OP_SECINFONONAME,
            RpcOp::Sequence => NFSV4OP_SEQUENCE,
            RpcOp::SetAttr => NFSV4OP_SETATTR,
            RpcOp::SetClientId => NFSV4OP_SETCLIENTID,
            RpcOp::SetClientIdConfirm => NFSV4OP_SETCLIENTIDCFRM,
            RpcOp::SetSsv => NFSV4OP_SETSSV,
            RpcOp::SymLink => NFSV4OP_SYMLINK,
            RpcOp::TestStateId => NFSV4OP_TESTSTATEID,
            RpcOp::V3Create => NFSV4OP_V3CREATE,
            RpcOp::Verify => NFSV4OP_VERIFY,
            RpcOp::WantDelegation => NFSV4OP_WANTDELEG,
            RpcOp::Write => NFSV4OP_WRITE,
        }
    }

    /// The slot of the kernel's per-operation tables that holds this operation.
    #[verifier::when_used_as_spec(spec_code)]
    pub fn code(self) -> (code: usize)
        ensures
            code == self.spec_code(),
            code < OP_SLOTS,
    {
        match self {
            RpcOp::Access => NFSV4OP_ACCESS,
            RpcOp::BackChannelCtl => NFSV4OP_BACKCHANNELCTL,
            RpcOp::BindConnToSess => NFSV4OP_BINDCONNTOSESS,
            RpcOp::Close => NFSV4OP_CLOSE,
            RpcOp::Commit => NFSV4OP_COMMIT,
            RpcOp::Create => NFSV4OP_CREATE,
            RpcOp::CreateSession => NFSV4OP_CREATESESSION,
            RpcOp::DelegPurge => NFSV4OP_DELEGPURGE,
            RpcOp::DelegReturn => NFSV4OP_DELEGRETURN,
            RpcOp::DestroyClientId => NFSV4OP_DESTROYCLIENTID,
            RpcOp::DestroySession => NFSV4OP_DESTROYSESSION,
            RpcOp::ExchangeId => NFSV4OP_EXCHANGEID,
            RpcOp::FreeStateId => NFSV4OP_FREESTATEID,
            RpcOp::FsInfo => NFSV4OP_FSINFO,
            RpcOp::FsStat => NFSV4OP_FSSTAT,
            RpcOp::GetAttr => NFSV4OP_GETATTR,
            RpcOp::GetDevInfo => NFSV4OP_GETDEVINFO,
            RpcOp::GetDevList => NFSV4OP_GETDEVLIST,
            RpcOp::GetDirDeleg => NFSV4OP_GETDIRDELEG,
            RpcOp::GetFh => NFSV4OP_GETFH,
            RpcOp::LayoutCommit => NFSV4OP_LAYOUTCOMMIT,
            RpcOp::LayoutGet => NFSV4OP_LAYOUTGET,
            RpcOp::LayoutReturn => NFSV4OP_LAYOUTRETURN,
            RpcOp::Link => NFSV4OP_LINK,
            RpcOp::Lock => NFSV4OP_LOCK,
            RpcOp::LockT => NFSV4OP_LOCKT,
            RpcOp::LockU => NFSV4OP_LOCKU,
            RpcOp::Lookup => NFSV4OP_LOOKUP,
            RpcOp::LookupP => NFSV4OP_LOOKUPP,
            RpcOp::MkDir => NFSV4OP_MKDIR,
            RpcOp::MkNod => NFSV4OP_MKNOD,
            RpcOp::Nverify => NFSV4OP_NVERIFY,
            RpcOp::Open => NFSV4OP_OPEN,
            RpcOp::OpenAttr => NFSV4OP_OPENATTR,
            RpcOp::OpenConfirm => NFSV4OP_OPENCONFIRM,
            RpcOp::OpenDowngrade => NFSV4OP_OPENDOWNGRADE,
            RpcOp::PathConf => NFSV4OP_PATHCONF,
            RpcOp::PutFh => NFSV4OP_PUTFH,
            RpcOp::PutPubFh => NFSV4OP_PUTPUBFH,
            RpcOp::PutRootFh => NFSV4OP_PUTROOTFH,
            RpcOp::Read => NFSV4OP_READ,
            RpcOp::ReadDir => NFSV4OP_READDIR,
            RpcOp::ReadDirPlus => NFSV4OP_READDIRPLUS,
            RpcOp::ReadLink => NFSV4OP_READLINK,
            RpcOp::ReclaimComplete => NFSV4OP_RECLAIMCOMPL,
            RpcOp::ReleaseLockOwner => NFSV4OP_RELEASELCKOWN,
            RpcOp::Remove => NFSV4OP_REMOVE,
            RpcOp::Rename => NFSV4OP_RENAME,
            RpcOp::Renew => NFSV4OP_RENEW,
            RpcOp::RestoreFh => NFSV4OP_RESTOREFH,
            RpcOp::RmDir => NFSV4OP_RMDIR,
            RpcOp::SaveFh => NFSV4OP_SAVEFH,
            RpcOp::SecInfo => NFSV4OP_SECINFO,
            RpcOp::SecInfoNoName => NFSV4OP_SECINFONONAME,
            RpcOp::Sequence => NFSV4OP_SEQUENCE,
            RpcOp::SetAttr => NFSV4OP_SETATTR,
            RpcOp::SetClientId => NFSV4OP_SETCLIENTID,
            RpcOp::SetClientIdConfirm => NFSV4OP_SETCLIENTIDCFRM,
            RpcOp::SetSsv => NFSV4OP_SETSSV,
            RpcOp::SymLink => NFSV4OP_SYMLINK,
            RpcOp::TestStateId => NFSV4OP_TESTSTATEID,
            RpcOp::V3Create => NFSV4OP_V3CREATE,
            RpcOp::Verify => NFSV4OP_VERIFY,
            RpcOp::WantDelegation => NFSV4OP_WANTDELEG,
            RpcOp::Write => NFSV4OP_WRITE,
        }
    }
}

/// Counts of every RPC processed, one field per operation.
#[derive(Clone, Copy, Debug, Default, PartialEq, Eq, Structural)]
pub struct PerRPC {
    pub access: u64,
    pub backchannelctrl: u64,
    pub bindconntosess: u64,
    pub close: u64,
    pub commit: u64,
    pub create: u64,
    pub createsess: u64,
    pub delegpurge: u64,
    pub delegreturn: u64,
    pub destroyclid: u64,
    pub destroysess: u64,
    pub exchangeid: u64,
    pub freestateid: u64,
    pub fsinfo: u64,
    pub fsstat: u64,
    pub getattr: u64,
    pub getdevinfo: u64,
    pub getdevlist: u64,
    pub getdirdeleg: u64,
    pub getfh: u64,
    pub layoutcommit: u64,
    pub layoutget: u64,
    pub layoutreturn: u64,
    pub link: u64,
    pub lock: u64,
    pub lockt: u64,
    pub locku: u64,
    pub lookup: u64,
    pub lookupp: u64,
    pub mkdir: u64,
    pub mknod: u64,
    pub nverify: u64,
    pub open: u64,
    pub openattr: u64,
    pub openconfirm: u64,
    pub opendgrd: u64,
    pub pathconf: u64,
    pub putfh: u64,
    pub putpubfh: u64,
    pub putrootfh: u64,
    pub read: u64,
    pub readdir: u64,
    pub readdirplus: u64,
    pub readlink: u64,
    pub reclaimcompl: u64,
    pub rellckown: u64,
    pub remove: u64,
    pub rename: u64,
    pub renew: u64,
    pub restorefh: u64,
    pub rmdir: u64,
    pub savefh: u64,
    pub secinfo: u64,
    pub secinfononame: u64,
    pub sequence: u64,
    pub setattr: u64,
    pub setclid: u64,
    pub setclidcf: u64,
    pub setssv: u64,
    pub symlink: u64,
    pub teststateid: u64,
    pub v3create: u64,
    pub verify: u64,
    pub wantdeleg: u64,
    pub write: u64,
}

impl PerRPC {
    /// The count of one operation.
    pub open spec fn spec_count(&self, op: RpcOp) -> u64 {
        match op {
            RpcOp::Access => self.access,
            RpcOp::BackChannelCtl => self.backchannelctrl,
            RpcOp::BindConnToSess => self.bindconntosess,
            RpcOp::Close => self.close,
            RpcOp::Commit => self.commit,
            RpcOp::Create => self.create,
            RpcOp::CreateSession => self.createsess,
            RpcOp::DelegPurge => self.delegpurge,
            RpcOp::DelegReturn => self.delegreturn,
            RpcOp::DestroyClientId => self.destroyclid,
            RpcOp::DestroySession => self.destroysess,
            RpcOp::ExchangeId => self.exchangeid,
            RpcOp::FreeStateId => self.freestateid,
            RpcOp::FsInfo => self.fsinfo,
            RpcOp::FsStat => self.fsstat,
            RpcOp::GetAttr => self.getattr,
            RpcOp::GetDevInfo => self.getdevinfo,
            RpcOp::GetDevList => self.getdevlist,
            RpcOp::GetDirDeleg => self.getdirdeleg,
            RpcOp::GetFh => self.getfh,
            RpcOp::LayoutCommit => self.layoutcommit,
            RpcOp::LayoutGet => self.layoutget,
            RpcOp::LayoutReturn => self.layoutreturn,
            RpcOp::Link => self.link,
            RpcOp::Lock => self.lock,
            RpcOp::LockT => self.lockt,
            RpcOp::LockU => self.locku,
            RpcOp::Lookup => self.lookup,
            RpcOp::LookupP => self.lookupp,
            RpcOp::MkDir => self.mkdir,
            RpcOp::MkNod => self.mknod,
            RpcOp::Nverify => self.nverify,
            RpcOp::Open => self.open,
            RpcOp::OpenAttr => self.openattr,
            RpcOp::OpenConfirm => self.openconfirm,
            RpcOp::OpenDowngrade => self.opendgrd,
            RpcOp::PathConf => self.pathconf,
            RpcOp::PutFh => self.putfh,
            RpcOp::PutPubFh => self.putpubfh,
            RpcOp::PutRootFh => self.putrootfh,
            RpcOp::Read => self.read,
            RpcOp::ReadDir => self.readdir,
            RpcOp::ReadDirPlus => self.readdirplus,
            RpcOp::ReadLink => self.readlink,
            RpcOp::ReclaimComplete => self.reclaimcompl,
            RpcOp::ReleaseLockOwner => self.rellckown,
            RpcOp::Remove => self.remove,
            RpcOp::Rename => self.rename,
            RpcOp::Renew => self.renew,
            RpcOp::RestoreFh => self.restorefh,
            RpcOp::RmDir => self.rmdir,
            RpcOp::SaveFh => self.savefh,
            RpcOp::SecInfo => self.secinfo,
            RpcOp::SecInfoNoName => self.secinfononame,
            RpcOp::Sequence => self.sequence,
            RpcOp::SetAttr => self.setattr,
            RpcOp::SetClientId => self.setclid,
            RpcOp::SetClientIdConfirm => self.setclidcf,
            RpcOp::SetSsv => self.setssv,
            RpcOp::SymLink => self.symlink,
            RpcOp::TestStateId => self.teststateid,
            RpcOp::V3Create => self.v3create,
            RpcOp::Verify => self.verify,
            RpcOp::WantDelegation => self.wantdeleg,
            RpcOp::Write => self.write,
        }
    }

    /// The count of one operation.
    #[verifier::when_used_as_spec(spec_count)]
    pub fn count(&self, op: RpcOp) -> (n: u64)
        ensures
            n == self.spec_count(op),
    {
        match op {
            RpcOp::Access => self.access,
            RpcOp::BackChannelCtl => self.backchannelctrl,
            RpcOp::BindConnToSess => self.bindconntosess,
            RpcOp::Close => self.close,
            RpcOp::Commit => self.commit,
            RpcOp::Create => self.create,
            RpcOp::CreateSession => self.createsess,
            RpcOp::DelegPurge => self.delegpurge,
            RpcOp::DelegReturn => self.delegreturn,
            RpcOp::DestroyClientId => self.destroyclid,
            RpcOp::DestroySession => self.destroysess,
            RpcOp::ExchangeId => self.exchangeid,
            RpcOp::FreeStateId => self.freestateid,
            RpcOp::FsInfo => self.fsinfo,
            RpcOp::FsStat => self.fsstat,
            RpcOp::GetAttr => self.getattr,
            RpcOp::GetDevInfo => self.getdevinfo,
            RpcOp::GetDevList => self.getdevlist,
            RpcOp::GetDirDeleg => self.getdirdeleg,
            RpcOp::GetFh => self.getfh,
            RpcOp::LayoutCommit => self.layoutcommit,
            RpcOp::LayoutGet => self.layoutget,
            RpcOp::LayoutReturn => self.layoutreturn,
            RpcOp::Link => self.link,
            RpcOp::Lock => self.lock,
            RpcOp::LockT => self.lockt,
            RpcOp::LockU => self.locku,
            RpcOp::Lookup => self.lookup,
            RpcOp::LookupP => self.lookupp,
            RpcOp::MkDir => self.mkdir,
            RpcOp::MkNod => self.mknod,
            RpcOp::Nverify => self.nverify,
            RpcOp::Open => self.open,
            RpcOp::OpenAttr => self.openattr,
            RpcOp::OpenConfirm => self.openconfirm,
            RpcOp::OpenDowngrade => self.opendgrd,
            RpcOp::PathConf => self.pathconf,
            RpcOp::PutFh => self.putfh,
            RpcOp::PutPubFh => self.putpubfh,
            RpcOp::PutRootFh => self.putrootfh,
            RpcOp::Read => self.read,
            RpcOp::ReadDir => self.readdir,
            RpcOp::ReadDirPlus => self.readdirplus,
            RpcOp::ReadLink => self.readlink,
            RpcOp::ReclaimComplete => self.reclaimcompl,
            RpcOp::ReleaseLockOwner => self.rellckown,
            RpcOp::Remove => self.remove,
            RpcOp::Rename => self.rename,
            RpcOp::Renew => self.renew,
            RpcOp::RestoreFh => self.restorefh,
            RpcOp::RmDir => self.rmdir,
            RpcOp::SaveFh => self.savefh,
            RpcOp::SecInfo => self.secinfo,
            RpcOp::SecInfoNoName => self.secinfononame,
            RpcOp::Sequence => self.sequence,
            RpcOp::SetAttr => self.setattr,
            RpcOp::SetClientId => self.setclid,
            RpcOp::SetClientIdConfirm => self.setclidcf,
            RpcOp::SetSsv => self.setssv,
            RpcOp::SymLink => self.symlink,
            RpcOp::TestStateId => self.teststateid,
            RpcOp::V3Create => self.v3create,
            RpcOp::Verify => self.verify,
            RpcOp::WantDelegation => self.wantdeleg,
            RpcOp::Write => self.write,
        }
    }

    /// Reads the count of every operation from its slot of a per-operation
    /// table.
    pub fn from_table(table: &[u64; OP_SLOTS]) -> (counts: PerRPC)
        ensures
            counts == PerRPC::tabulate(|op: RpcOp| table[op.code() as int]),
            forall|op: RpcOp| counts.count(op) == table[op.code() as int],
    {
        PerRPC {
            access: table[RpcOp::Access.code()],
            backchannelctrl: table[RpcOp::BackChannelCtl.code()],
            bindconntosess: table[RpcOp::BindConnToSess.code()],
            close: table[RpcOp::Close.code()],
            commit: table[RpcOp::Commit.code()],
            create: table[RpcOp::Create.code()],
            createsess: table[RpcOp::CreateSession.code()],
            delegpurge: table[RpcOp::DelegPurge.code()],
            delegreturn: table[RpcOp::DelegReturn.code()],
            destroyclid: table[RpcOp::DestroyClientId.code()],
            destroysess: table[RpcOp::DestroySession.code()],
            exchangeid: table[RpcOp::ExchangeId.code()],
            freestateid: table[RpcOp::FreeStateId.code()],
            fsinfo: table[RpcOp::FsInfo.code()],
            fsstat: table[RpcOp::FsStat.code()],
            getattr: table[RpcOp::GetAttr.code()],
            getdevinfo: table[RpcOp::GetDevInfo.code()],
            getdevlist: table[RpcOp::GetDevList.code()],
            getdirdeleg: table[RpcOp::GetDirDeleg.code()],
            getfh: table[RpcOp::GetFh.code()],
            layoutcommit: table[RpcOp::LayoutCommit.code()],
            layoutget: table[RpcOp::LayoutGet.code()],
            layoutreturn: table[RpcOp::LayoutReturn.code()],
            link: table[RpcOp::Link.code()],
            lock: table[RpcOp::Lock.code()],
            lockt: table[RpcOp::LockT.code()],
            locku: table[RpcOp::LockU.code()],
            lookup: table[RpcOp::Lookup.code()],
            lookupp: table[RpcOp::LookupP.code()],
            mkdir: table[RpcOp::MkDir.code()],
            mknod: table[RpcOp::MkNod.code()],
            nverify: table[RpcOp::Nverify.code()],
            open: table[RpcOp::Open.code()],
            openattr: table[RpcOp::OpenAttr.code()],
            openconfirm: table[RpcOp::OpenConfirm.code()],
            opendgrd: table[RpcOp::OpenDowngrade.code()],
            pathconf: table[RpcOp::PathConf.code()],
            putfh: table[RpcOp::PutFh.code()],
            putpubfh: table[RpcOp::PutPubFh.code()],
            putrootfh: table[RpcOp::PutRootFh.code()],
            read: table[RpcOp::Read.code()],
            readdir: table[RpcOp::ReadDir.code()],
            readdirplus: table[RpcOp::ReadDirPlus.code()],
            readlink: table[RpcOp::ReadLink.code()],
            reclaimcompl: table[RpcOp::ReclaimComplete.code()],
            rellckown: table[RpcOp::ReleaseLockOwner.code()],
            remove: table[RpcOp::Remove.code()],
            rename: table[RpcOp::Rename.code()],
            renew: table[RpcOp::Renew.code()],
            restorefh: table[RpcOp::RestoreFh.code()],
            rmdir: table[RpcOp::RmDir.code()],
            savefh: table[RpcOp::SaveFh.code()],
            secinfo: table[RpcOp::SecInfo.code()],
            secinfononame: table[RpcOp::SecInfoNoName.code()],
            sequence: table[RpcOp::Sequence.code()],
            setattr: table[RpcOp::SetAttr.code()],
            setclid: table[RpcOp::SetClientId.code()],
            setclidcf: table[RpcOp::SetClientIdConfirm.code()],
            setssv: table[RpcOp::SetSsv.code()],
            symlink: table[RpcOp::SymLink.code()],
            teststateid: table[RpcOp::TestStateId.code()],
            v3create: table[RpcOp::V3Create.code()],
            verify: table[RpcOp::Verify.code()],
            wantdeleg: table[RpcOp::WantDelegation.code()],
            write: table[RpcOp::Write.code()],
        }
    }

    /// The record whose count of each operation is given by `f`.
    pub open spec fn tabulate(f: spec_fn(RpcOp) -> u64) -> PerRPC {
        PerRPC {
            access: f(RpcOp::Access),
            backchannelctrl: f(RpcOp::BackChannelCtl),
            bindconntosess: f(RpcOp::BindConnToSess),
            close: f(RpcOp::Close),
            commit: f(RpcOp::Commit),
            create: f(RpcOp::Create),
            createsess: f(RpcOp::CreateSession),
            delegpurge: f(RpcOp::DelegPurge),
            delegreturn: f(RpcOp::DelegReturn),
            destroyclid: f(RpcOp::DestroyClientId),
            destroysess: f(RpcOp::DestroySession),
            exchangeid: f(RpcOp::ExchangeId),
            freestateid: f(RpcOp::FreeStateId),
            fsinfo: f(RpcOp::FsInfo),
            fsstat: f(RpcOp::FsStat),
            getattr: f(RpcOp::GetAttr),
            getdevinfo: f(RpcOp::GetDevInfo),
            getdevlist: f(RpcOp::GetDevList),
            getdirdeleg: f(RpcOp::GetDirDeleg),
            getfh: f(RpcOp::GetFh),
            layoutcommit: f(RpcOp::LayoutCommit),
            layoutget: f(RpcOp::LayoutGet),
            layoutreturn: f(RpcOp::LayoutReturn),
            link: f(RpcOp::Link),
            lock: f(RpcOp::Lock),
            lockt: f(RpcOp::LockT),
            locku: f(RpcOp::LockU),
            lookup: f(RpcOp::Lookup),
            lookupp: f(RpcOp::LookupP),
            mkdir: f(RpcOp::MkDir),
            mknod: f(RpcOp::MkNod),
            nverify: f(RpcOp::Nverify),
            open: f(RpcOp::Open),
            openattr: f(RpcOp::OpenAttr),
            openconfirm: f(RpcOp::OpenConfirm),
            opendgrd: f(RpcOp::OpenDowngrade),
            pathconf: f(RpcOp::PathConf),
            putfh: f(RpcOp::PutFh),
            putpubfh: f(RpcOp::PutPubFh),
            putrootfh: f(RpcOp::PutRootFh),
            read: f(RpcOp::Read),
            readdir: f(RpcOp::ReadDir),
            readdirplus: f(RpcOp::ReadDirPlus),
            readlink: f(RpcOp::ReadLink),
            reclaimcompl: f(RpcOp::ReclaimComplete),
            rellckown: f(RpcOp::ReleaseLockOwner),
            remove: f(RpcOp::Remove),
            rename: f(RpcOp::Rename),
            renew: f(RpcOp::Renew),
            restorefh: f(RpcOp::RestoreFh),
            rmdir: f(RpcOp::RmDir),
            savefh: f(RpcOp::SaveFh),
            secinfo: f(RpcOp::SecInfo),
            secinfononame: f(RpcOp::SecInfoNoName),
            sequence: f(RpcOp::Sequence),
            setattr: f(RpcOp::SetAttr),
            setclid: f(RpcOp::SetClientId),
            setclidcf: f(RpcOp::SetClientIdConfirm),
            setssv: f(RpcOp::SetSsv),
            symlink: f(RpcOp::SymLink),
            teststateid: f(RpcOp::TestStateId),
            v3create: f(RpcOp::V3Create),
            verify: f(RpcOp::Verify),
            wantdeleg: f(RpcOp::WantDelegation),
            write: f(RpcOp::Write),
        }
    }
}

/// No two operations share a slot, and every slot lies inside the tables.
pub proof fn lemma_codes_distinct(a: RpcOp, b: RpcOp)
    ensures
        a.code() < OP_SLOTS,
        a != b ==> a.code() != b.code(),
{
}

/// Operations are told apart by their ordinals, which count from zero up to
/// the number of operations.
pub proof fn lemma_ordinals_distinct(a: RpcOp, b: RpcOp)
    ensures
        a.ordinal() < OP_COUNT,
        a != b ==> a.ordinal() != b.ordinal(),
{
}

/// Operations are told apart by their labels: the counts are published one
/// to one, each under a label of its own.
pub proof fn lemma_labels_distinct(a: RpcOp, b: RpcOp)
    ensures
        a != b ==> a.spec_label() != b.spec_label(),
{
    reveal_strlit("Access");
    reveal_strlit("BackChannelCtl");
    reveal_strlit("BindConnToSess");
    reveal_strlit("Close");
    reveal_strlit("Commit");
    reveal_strlit("CreateV4");
    reveal_strlit("CreateSession");
    reveal_strlit("DelegPurge");
    reveal_strlit("DelegReturn");
    reveal_strlit("DestroyClientId");
    reveal_strlit("DestroySession");
    reveal_strlit("ExchangeId");
    reveal_strlit("FreeStateId");
    reveal_strlit("FsInfo");
    reveal_strlit("FsStat");
    reveal_strlit("GetAttr");
    reveal_strlit("GetDevInfo");
    reveal_strlit("GetDevList");
    reveal_strlit("GetDirDeleg");
    reveal_strlit("GetFH");
    reveal_strlit("LayoutCommit");
    reveal_strlit("LayoutGet");
    reveal_strlit("LayoutReturn");
    reveal_strlit("Link");
    reveal_strlit("Lock");
    reveal_strlit("LockT");
    reveal_strlit("LockU");
    reveal_strlit("Lookup");
    reveal_strlit("LookupP");
    reveal_strlit("MkDir");
    reveal_strlit("MkNod");
    reveal_strlit("Nverify");
    reveal_strlit("Open");
    reveal_strlit("OpenAttr");
    reveal_strlit("OpenConfirm");
    reveal_strlit("OpenDgrd");
    reveal_strlit("PathConf");
    reveal_strlit("PutFH");
    reveal_strlit("PutPubFH");
    reveal_strlit("PutRootFH");
    reveal_strlit("Read");
    reveal_strlit("ReadDir");
    reveal_strlit("ReadDirPlus");
    reveal_strlit("ReadLink");
    reveal_strlit("ReclaimCompl");
    reveal_strlit("RelLockOwner");
    reveal_strlit("Remove");
    reveal_strlit("Rename");
    reveal_strlit("Renew");
    reveal_strlit("RestoreFH");
    reveal_strlit("RmDir");
    reveal_strlit("SaveFH");
    reveal_strlit("SecInfo");
    reveal_strlit("SecInfoNoName");
    reveal_strlit("Sequence");
    reveal_strlit("SetAttr");
    reveal_strlit("SetClientId");
    reveal_strlit("SetClientIdConfirm");
    reveal_strlit("SetSSV");
    reveal_strlit("SymLink");
    reveal_strlit("TestStateId");
    reveal_strlit("Create");
    reveal_strlit("Verify");
    reveal_strlit("WantDeleg");
    reveal_strlit("Write");
    // Labels of different lengths differ; those of one length differ in one of
    // the characters named here.
    assert("Access"@.len() == 6);
    assert("BackChannelCtl"@.len() == 14);
    assert("BindConnToSess"@.len() == 14);
    assert("Close"@.len() == 5);
    assert("Commit"@.len() == 6);
    assert("CreateV4"@.len() == 8);
    assert("CreateSession"@.len() == 13);
    assert("DelegPurge"@.len() == 10);
    assert("DelegReturn"@.len() == 11);
    assert("DestroyClientId"@.len() == 15);
    assert("DestroySession"@.len() == 14);
    assert("ExchangeId"@.len() == 10);
    assert("FreeStateId"@.len() == 11);
    assert("FsInfo"@.len() == 6);
    assert("FsStat"@.len() == 6);
    assert("GetAttr"@.len() == 7);
    assert("GetDevInfo"@.len() == 10);
    assert("GetDevList"@.len() == 10);
    assert("GetDirDeleg"@.len() == 11);
    assert("GetFH"@.len() == 5);
    assert("LayoutCommit"@.len() == 12);
    assert("LayoutGet"@.len() == 9);
    assert("LayoutReturn"@.len() == 12);
    assert("Link"@.len() == 4);
    assert("Lock"@.len() == 4);
    assert("LockT"@.len() == 5);
    assert("LockU"@.len() == 5);
    assert("Lookup"@.len() == 6);
    assert("LookupP"@.len() == 7);
    assert("MkDir"@.len() == 5);
    assert("MkNod"@.len() == 5);
    assert("Nverify"@.len() == 7);
    assert("Open"@.len() == 4);
    assert("OpenAttr"@.len() == 8);
    assert("OpenConfirm"@.len() == 11);
    assert("OpenDgrd"@.len() == 8);
    assert("PathConf"@.len() == 8);
    assert("PutFH"@.len() == 5);
    assert("PutPubFH"@.len() == 8);
    assert("PutRootFH"@.len() == 9);
    assert("Read"@.len() == 4);
    assert("ReadDir"@.len() == 7);
    assert("ReadDirPlus"@.len() == 11);
    assert("ReadLink"@.len() == 8);
    assert("ReclaimCompl"@.len() == 12);
    assert("RelLockOwner"@.len() == 12);
    assert("Remove"@.len() == 6);
    assert("Rename"@.len() == 6);
    assert("Renew"@.len() == 5);
    assert("RestoreFH"@.len() == 9);
    assert("RmDir"@.len() == 5);
    assert("SaveFH"@.len() == 6);
    assert("SecInfo"@.len() == 7);
    assert("SecInfoNoName"@.len() == 13);
    assert("Sequence"@.len() == 8);
    assert("SetAttr"@.len() == 7);
    assert("SetClientId"@.len() == 11);
    assert("SetClientIdConfirm"@.len() == 18);
    assert("SetSSV"@.len() == 6);
    assert("SymLink"@.len() == 7);
    assert("TestStateId"@.len() == 11);
    assert("Create"@.len() == 6);
    assert("Verify"@.len() == 6);
    assert("WantDeleg"@.len() == 9);
    assert("Write"@.len() == 5);
    assert("Access"@[0] == 'A');
    assert("BackChannelCtl"@[0] == 'B');
    assert("BackChannelCtl"@[1] == 'a');
    assert("BindConnToSess"@[0] == 'B');
    assert("BindConnToSess"@[1] == 'i');
    assert("Close"@[0] == 'C');
    assert("Commit"@[0] == 'C');
    assert("Commit"@[1] == 'o');
    assert("CreateV4"@[0] == 'C');
    assert("CreateSession"@[0] == 'C');
    assert("DelegPurge"@[0] == 'D');
    assert("DelegReturn"@[0] == 'D');
    assert("DestroySession"@[0] == 'D');
    assert("ExchangeId"@[0] == 'E');
    assert("FreeStateId"@[0] == 'F');
    assert("FsInfo"@[0] == 'F');
    assert("FsInfo"@[2] == 'I');
    assert("FsStat"@[0] == 'F');
    assert("FsStat"@[2] == 'S');
    assert("GetAttr"@[0] == 'G');
    assert("GetDevInfo"@[0] == 'G');
    assert("GetDevInfo"@[6] == 'I');
    assert("GetDevList"@[0] == 'G');
    assert("GetDevList"@[6] == 'L');
    assert("GetDirDeleg"@[0] == 'G');
    assert("GetFH"@[0] == 'G');
    assert("LayoutCommit"@[0] == 'L');
    assert("LayoutCommit"@[6] == 'C');
    assert("LayoutGet"@[0] == 'L');
    assert("LayoutReturn"@[0] == 'L');
    assert("LayoutReturn"@[6] == 'R');
    assert("Link"@[0] == 'L');
    assert("Link"@[1] == 'i');
    assert("Lock"@[0] == 'L');
    assert("Lock"@[1] == 'o');
    assert("LockT"@[0] == 'L');
    assert("LockT"@[4] == 'T');
    assert("LockU"@[0] == 'L');
    assert("LockU"@[4] == 'U');
    assert("Lookup"@[0] == 'L');
    assert("LookupP"@[0] == 'L');
    assert("MkDir"@[0] == 'M');
    assert("MkDir"@[2] == 'D');
    assert("MkNod"@[0] == 'M');
    assert("MkNod"@[2] == 'N');
    assert("Nverify"@[0] == 'N');
    assert("Open"@[0] == 'O');
    assert("OpenAttr"@[0] == 'O');
    assert("OpenAttr"@[4] == 'A');
    assert("OpenConfirm"@[0] == 'O');
    assert("OpenDgrd"@[0] == 'O');
    assert("OpenDgrd"@[4] == 'D');
    assert("PathConf"@[0] == 'P');
    assert("PathConf"@[1] == 'a');
    assert("PutFH"@[0] == 'P');
    assert("PutPubFH"@[0] == 'P');
    assert("PutPubFH"@[1] == 'u');
    assert("PutRootFH"@[0] == 'P');
    assert("Read"@[0] == 'R');
    assert("ReadDir"@[0] == 'R');
    assert("ReadDirPlus"@[0] == 'R');
    assert("ReadLink"@[0] == 'R');
    assert("ReclaimCompl"@[0] == 'R');
    assert("ReclaimCompl"@[2] == 'c');
    assert("RelLockOwner"@[0] == 'R');
    assert("RelLockOwner"@[2] == 'l');
    assert("Remove"@[0] == 'R');
    assert("Remove"@[2] == 'm');
    assert("Rename"@[0] == 'R');
    assert("Rename"@[2] == 'n');
    assert("Renew"@[0] == 'R');
    assert("Renew"@[1] == 'e');
    assert("RestoreFH"@[0] == 'R');
    assert("RmDir"@[0] == 'R');
    assert("RmDir"@[1] == 'm');
    assert("SaveFH"@[0] == 'S');
    assert("SaveFH"@[1] == 'a');
    assert("SecInfo"@[0] == 'S');
    assert("SecInfo"@[1] == 'e');
    assert("SecInfo"@[2] == 'c');
    assert("SecInfoNoName"@[0] == 'S');
    assert("Sequence"@[0] == 'S');
    assert("SetAttr"@[0] == 'S');
    assert("SetAttr"@[1] == 'e');
    assert("SetAttr"@[2] == 't');
    assert("SetClientId"@[0] == 'S');
    assert("SetSSV"@[0] == 'S');
    assert("SetSSV"@[1] == 'e');
    assert("SymLink"@[0] == 'S');
    assert("SymLink"@[1] == 'y');
    assert("TestStateId"@[0] == 'T');
    assert("Create"@[0] == 'C');
    assert("Create"@[1] == 'r');
    assert("Verify"@[0] == 'V');
    assert("WantDeleg"@[0] == 'W');
    assert("Write"@[0] == 'W');
}

/// `tabulate` gives each operation the count that was asked for.
pub proof fn lemma_tabulate_count(f: spec_fn(RpcOp) -> u64, op: RpcOp)
    ensures
        PerRPC::tabulate(f).count(op) == f(op),
{
}

/// Every field is the count of some operation: two records that agree on the
/// count of every operation are the same record.
pub proof fn lemma_counts_determine_record(a: PerRPC, b: PerRPC)
    requires
        forall|op: RpcOp| a.count(op) == b.count(op),
    ensures
        a == b,
{
    let fa = |op: RpcOp| a.count(op);
    let fb = |op: RpcOp| b.count(op);
    assert(fa =~= fb);
    assert(a == PerRPC::tabulate(fa));
    assert(b == PerRPC::tabulate(fb));
}

} // verus!
