//! The fixed-width wire encoding of a statistics record: every counter as one
//! 64-bit little-endian word, in the order in which the record declares them.

use crate::error::Fatal;
use crate::nfs::{NfsStat, PerRW, PerRWC, ServerCache, ServerMisc};
use crate::rpc::{PerRPC, RpcOp};
use vstd::prelude::*;
use vstd::slice::slice_subrange;

verus! {

/// Number of counters in a record, and so of words in its encoding.
pub const ENCODED_WORDS: usize = 84;

/// Length in bytes of an encoded record.
pub const ENCODED_LEN: usize = 672;

/// Place, among the words of an encoded record, of the count of the first
/// operation.
pub const RPC_WORDS_START: usize = 18;

/// Length in bytes of one encoded word.
pub const WORD_LEN: usize = 8;

/// The eight bytes of a word, least significant first.
pub open spec fn le_bytes(word: u64) -> Seq<u8> {
    seq![
        (word % 0x100) as u8,
        (word / 0x100 % 0x100) as u8,
        (word / 0x1_0000 % 0x100) as u8,
        (word / 0x100_0000 % 0x100) as u8,
        (word / 0x1_0000_0000 % 0x100) as u8,
        (word / 0x100_0000_0000 % 0x100) as u8,
        (word / 0x1_0000_0000_0000 % 0x100) as u8,
        (word / 0x100_0000_0000_0000 % 0x100) as u8,
    ]
}

/// The word that the first eight bytes of a sequence spell, least significant
/// byte first.
pub open spec fn le_word(bytes: Seq<u8>) -> u64
    recommends
        bytes.len() >= 8,
{
    (bytes[0] + bytes[1] * 0x100 + bytes[2] * 0x1_0000 + bytes[3] * 0x100_0000 + bytes[4]
        * 0x1_0000_0000 + bytes[5] * 0x100_0000_0000 + bytes[6] * 0x1_0000_0000_0000 + bytes[7]
        * 0x100_0000_0000_0000) as u64
}

/// A word is recovered from its bytes, whatever follows them.
pub proof fn lemma_le_word_of_le_bytes(word: u64, rest: Seq<u8>)
    ensures
        le_bytes(word).len() == 8,
        le_word(le_bytes(word) + rest) == word,
{
    let b = le_bytes(word) + rest;
    assert(b[0] == le_bytes(word)[0]);
    assert(b[1] == le_bytes(word)[1]);
    assert(b[2] == le_bytes(word)[2]);
    assert(b[3] == le_bytes(word)[3]);
    assert(b[4] == le_bytes(word)[4]);
    assert(b[5] == le_bytes(word)[5]);
    assert(b[6] == le_bytes(word)[6]);
    assert(b[7] == le_bytes(word)[7]);
    assert(word == (word % 0x100) as u8 + (word / 0x100 % 0x100) as u8 * 0x100 + (word / 0x1_0000
        % 0x100) as u8 * 0x1_0000 + (word / 0x100_0000 % 0x100) as u8 * 0x100_0000 + (word
        / 0x1_0000_0000 % 0x100) as u8 * 0x1_0000_0000 + (word / 0x100_0000_0000 % 0x100) as u8
        * 0x100_0000_0000 + (word / 0x1_0000_0000_0000 % 0x100) as u8 * 0x1_0000_0000_0000 + (word
        / 0x100_0000_0000_0000 % 0x100) as u8 * 0x100_0000_0000_0000) by (bit_vector);
}

/// Eight bytes are recovered from the word that they spell.
pub proof fn lemma_le_bytes_of_le_word(bytes: Seq<u8>)
    requires
        bytes.len() == 8,
    ensures
        le_bytes(le_word(bytes)) == bytes,
{
    let b0 = bytes[0];
    let b1 = bytes[1];
    let b2 = bytes[2];
    let b3 = bytes[3];
    let b4 = bytes[4];
    let b5 = bytes[5];
    let b6 = bytes[6];
    let b7 = bytes[7];
    let sum: int = b0 + b1 * 0x100 + b2 * 0x1_0000 + b3 * 0x100_0000 + b4 * 0x1_0000_0000 + b5
        * 0x100_0000_0000 + b6 * 0x1_0000_0000_0000 + b7 * 0x100_0000_0000_0000;
    assert(0 <= sum <= u64::MAX);
    let word: u64 = sum as u64;
    assert(word == le_word(bytes));
    assert(word % 0x100 == b0 && word / 0x100 % 0x100 == b1 && word / 0x1_0000 % 0x100 == b2
        && word / 0x100_0000 % 0x100 == b3 && word / 0x1_0000_0000 % 0x100 == b4 && word
        / 0x100_0000_0000 % 0x100 == b5 && word / 0x1_0000_0000_0000 % 0x100 == b6 && word
        / 0x100_0000_0000_0000 % 0x100 == b7) by (bit_vector)
        requires
            word == b0 + b1 * 0x100 + b2 * 0x1_0000 + b3 * 0x100_0000 + b4 * 0x1_0000_0000 + b5
                * 0x100_0000_0000 + b6 * 0x1_0000_0000_0000 + b7 * 0x100_0000_0000_0000,
    ;
    assert(le_bytes(word) =~= bytes);
}

/// The counters of a record in wire order: the order in which the record and
/// its parts declare their fields.
pub open spec fn words(stat: NfsStat) -> Seq<u64> {
    seq![
        stat.busytime,
        stat.bytes.read,
        stat.bytes.write,
        stat.donecnt,
        stat.duration.read,
        stat.duration.write,
        stat.duration.commit,
        stat.server_cache.inprog,
        stat.server_cache.nonidem,
        stat.server_cache.misses,
        stat.server_cache.size,
        stat.server_cache.tcp_peak,
        stat.server_misc.clients,
        stat.server_misc.delegs,
        stat.server_misc.lock_owner,
        stat.server_misc.locks,
        stat.server_misc.open_owner,
        stat.server_misc.opens,
        stat.server_rpcs.access,
        stat.server_rpcs.backchannelctrl,
        stat.server_rpcs.bindconntosess,
        stat.server_rpcs.close,
        stat.server_rpcs.commit,
        stat.server_rpcs.create,
        stat.server_rpcs.createsess,
        stat.server_rpcs.delegpurge,
        stat.server_rpcs.delegreturn,
        stat.server_rpcs.destroyclid,
        stat.server_rpcs.destroysess,
        stat.server_rpcs.exchangeid,
        stat.server_rpcs.freestateid,
        stat.server_rpcs.fsinfo,
        stat.server_rpcs.fsstat,
        stat.server_rpcs.getattr,
        stat.server_rpcs.getdevinfo,
        stat.server_rpcs.getdevlist,
        stat.server_rpcs.getdirdeleg,
        stat.server_rpcs.getfh,
        stat.server_rpcs.layoutcommit,
        stat.server_rpcs.layoutget,
        stat.server_rpcs.layoutreturn,
        stat.server_rpcs.link,
        stat.server_rpcs.lock,
        stat.server_rpcs.lockt,
        stat.server_rpcs.locku,
        stat.server_rpcs.lookup,
        stat.server_rpcs.lookupp,
        stat.server_rpcs.mkdir,
        stat.server_rpcs.mknod,
        stat.server_rpcs.nverify,
        stat.server_rpcs.open,
        stat.server_rpcs.openattr,
        stat.server_rpcs.openconfirm,
        stat.server_rpcs.opendgrd,
        stat.server_rpcs.pathconf,
        stat.server_rpcs.putfh,
        stat.server_rpcs.putpubfh,
        stat.server_rpcs.putrootfh,
        stat.server_rpcs.read,
        stat.server_rpcs.readdir,
        stat.server_rpcs.readdirplus,
        stat.server_rpcs.readlink,
        stat.server_rpcs.reclaimcompl,
        stat.server_rpcs.rellckown,
        stat.server_rpcs.remove,
        stat.server_rpcs.rename,
        stat.server_rpcs.renew,
        stat.server_rpcs.restorefh,
        stat.server_rpcs.rmdir,
        stat.server_rpcs.savefh,
        stat.server_rpcs.secinfo,
        stat.server_rpcs.secinfononame,
        stat.server_rpcs.sequence,
        stat.server_rpcs.setattr,
        stat.server_rpcs.setclid,
        stat.server_rpcs.setclidcf,
        stat.server_rpcs.setssv,
        stat.server_rpcs.symlink,
        stat.server_rpcs.teststateid,
        stat.server_rpcs.v3create,
        stat.server_rpcs.verify,
        stat.server_rpcs.wantdeleg,
        stat.server_rpcs.write,
        stat.startcnt,
    ]
}

/// The record whose counters, in wire order, are the first words of a
/// sequence.
pub open spec fn from_words(words: Seq<u64>) -> NfsStat
    recommends
        words.len() >= 84,
{
    NfsStat {
        busytime: words[0],
        bytes: PerRW { read: words[1], write: words[2] },
        donecnt: words[3],
        duration: PerRWC { read: words[4], write: words[5], commit: words[6] },
        server_cache: ServerCache {
            inprog: words[7],
            nonidem: words[8],
            misses: words[9],
            size: words[10],
            tcp_peak: words[11],
        },
        server_misc: ServerMisc {
            clients: words[12],
            delegs: words[13],
            lock_owner: words[14],
            locks: words[15],
            open_owner: words[16],
            opens: words[17],
        },
        server_rpcs: PerRPC {
            access: words[18],
            backchannelctrl: words[19],
            bindconntosess: words[20],
            close: words[21],
            commit: words[22],
            create: words[23],
            createsess: words[24],
            delegpurge: words[25],
            delegreturn: words[26],
            destroyclid: words[27],
            destroysess: words[28],
            exchangeid: words[29],
            freestateid: words[30],
            fsinfo: words[31],
            fsstat: words[32],
            getattr: words[33],
            getdevinfo: words[34],
            getdevlist: words[35],
            getdirdeleg: words[36],
            getfh: words[37],
            layoutcommit: words[38],
            layoutget: words[39],
            layoutreturn: words[40],
            link: words[41],
            lock: words[42],
            lockt: words[43],
            locku: words[44],
            lookup: words[45],
            lookupp: words[46],
            mkdir: words[47],
            mknod: words[48],
            nverify: words[49],
            open: words[50],
            openattr: words[51],
            openconfirm: words[52],
            opendgrd: words[53],
            pathconf: words[54],
            putfh: words[55],
            putpubfh: words[56],
            putrootfh: words[57],
            read: words[58],
            readdir: words[59],
            readdirplus: words[60],
            readlink: words[61],
            reclaimcompl: words[62],
            rellckown: words[63],
            remove: words[64],
            rename: words[65],
            renew: words[66],
            restorefh: words[67],
            rmdir: words[68],
            savefh: words[69],
            secinfo: words[70],
            secinfononame: words[71],
            sequence: words[72],
            setattr: words[73],
            setclid: words[74],
            setclidcf: words[75],
            setssv: words[76],
            symlink: words[77],
            teststateid: words[78],
            v3create: words[79],
            verify: words[80],
            wantdeleg: words[81],
            write: words[82],
        },
        startcnt: words[83],
    }
}

/// The bytes of the words of a sequence, one word after the other.
pub open spec fn words_bytes(words: Seq<u64>) -> Seq<u8> {
    Seq::new(8 * words.len(), |i: int| le_bytes(words[i / 8])[i % 8])
}

/// The words that the first `count` groups of eight bytes spell.
pub open spec fn bytes_words(bytes: Seq<u8>, count: nat) -> Seq<u64> {
    Seq::new(count, |k: int| le_word(bytes.subrange(8 * k, 8 * k + 8)))
}

/// The wire encoding of a record.
#[verifier::opaque]
pub open spec fn encoding(stat: NfsStat) -> Seq<u8> {
    words_bytes(words(stat))
}

/// The record that the first `ENCODED_LEN` bytes of a sequence encode.
#[verifier::opaque]
pub open spec fn decoding(bytes: Seq<u8>) -> NfsStat
    recommends
        bytes.len() >= 672,
{
    from_words(bytes_words(bytes, 84))
}

/// Decoding undoes encoding, whatever bytes follow the encoded record.
pub proof fn lemma_decoding_of_encoding(stat: NfsStat, rest: Seq<u8>)
    ensures
        encoding(stat).len() == ENCODED_LEN,
        decoding(encoding(stat) + rest) == stat,
{
    reveal(encoding);
    reveal(decoding);
    let list = words(stat);
    let bytes = encoding(stat) + rest;
    assert(list.len() == 84);
    assert forall|k: int| 0 <= k < 84 implies #[trigger] bytes_words(bytes, 84)[k] == list[k] by {
        let group = bytes.subrange(8 * k, 8 * k + 8);
        assert forall|j: int| 0 <= j < 8 implies group[j] == le_bytes(list[k])[j] by {
            assert((8 * k + j) / 8 == k);
            assert((8 * k + j) % 8 == j);
        }
        assert(group =~= le_bytes(list[k]));
        lemma_le_word_of_le_bytes(list[k], Seq::empty());
        assert(le_bytes(list[k]) + Seq::<u8>::empty() =~= le_bytes(list[k]));
    }
    assert(bytes_words(bytes, 84) =~= list);
}

/// Encoding undoes decoding: the bytes from which a record was decoded are
/// the record's encoding, up to whatever followed them.
pub proof fn lemma_encoding_of_decoding(bytes: Seq<u8>)
    requires
        bytes.len() >= ENCODED_LEN,
    ensures
        encoding(decoding(bytes)) == bytes.subrange(0, ENCODED_LEN as int),
{
    reveal(encoding);
    reveal(decoding);
    let list = bytes_words(bytes, 84);
    assert(words(from_words(list)) =~= list);
    assert forall|i: int| 0 <= i < 672 implies #[trigger] words_bytes(list)[i] == bytes[i] by {
        let k = i / 8;
        let group = bytes.subrange(8 * k, 8 * k + 8);
        lemma_le_bytes_of_le_word(group);
        assert(group[i % 8] == bytes[i]);
    }
    assert(words_bytes(list) =~= bytes.subrange(0, 672));
}

/// The counts of the operations follow one another on the wire in the order
/// of the operations, after the counters that the record declares before
/// them.
pub proof fn lemma_words_follow_operations(stat: NfsStat, op: RpcOp)
    ensures
        words(stat).len() == ENCODED_WORDS,
        words(stat)[RPC_WORDS_START + op.ordinal()] == stat.server_rpcs.count(op),
{
}

/// `bincode::ErrorKind`, the error of the outside encoder.  A value of it is
/// handed on and never looked into.
#[verifier::external_type_specification]
#[verifier::external_body]
pub struct ExErrorKind(bincode::ErrorKind);

/// `bincode::serialize` on one `u64`.  With the crate's default options an
/// integer is written at its fixed width, least significant byte first.  The
/// options set no size limit and the bytes go to a vector in memory, so the
/// call has no way to fail.
#[verifier::external_body]
fn serialize_word(word: u64) -> (result: Result<Vec<u8>, Box<bincode::ErrorKind>>)
    ensures
        result is Ok,
        result->Ok_0@ == le_bytes(word),
{
    bincode::serialize(&word)
}

/// `bincode::deserialize` of one `u64` from a slice.  It reads the first
/// eight bytes, least significant first, and ignores what follows them; it
/// fails if the slice holds fewer than eight.
#[verifier::external_body]
fn deserialize_word(bytes: &[u8]) -> (result: Result<u64, Box<bincode::ErrorKind>>)
    ensures
        bytes@.len() >= 8 ==> result is Ok,
        bytes@.len() < 8 ==> result is Err,
        result is Ok ==> result->Ok_0 == le_word(bytes@),
{
    bincode::deserialize::<u64>(bytes)
}

/// The counters of a record in wire order.
fn to_words(stat: &NfsStat) -> (list: Vec<u64>)
    ensures
        list@ == words(*stat),
{
    let mut list: Vec<u64> = Vec::with_capacity(ENCODED_WORDS);
    list.push(stat.busytime);
    list.push(stat.bytes.read);
    list.push(stat.bytes.write);
    list.push(stat.donecnt);
    list.push(stat.duration.read);
    list.push(stat.duration.write);
    list.push(stat.duration.commit);
    list.push(stat.server_cache.inprog);
    list.push(stat.server_cache.nonidem);
    list.push(stat.server_cache.misses);
    list.push(stat.server_cache.size);
    list.push(stat.server_cache.tcp_peak);
    list.push(stat.server_misc.clients);
    list.push(stat.server_misc.delegs);
    list.push(stat.server_misc.lock_owner);
    list.push(stat.server_misc.locks);
    list.push(stat.server_misc.open_owner);
    list.push(stat.server_misc.opens);
    list.push(stat.server_rpcs.access);
    list.push(stat.server_rpcs.backchannelctrl);
    list.push(stat.server_rpcs.bindconntosess);
    list.push(stat.server_rpcs.close);
    list.push(stat.server_rpcs.commit);
    list.push(stat.server_rpcs.create);
    list.push(stat.server_rpcs.createsess);
    list.push(stat.server_rpcs.delegpurge);
    list.push(stat.server_rpcs.delegreturn);
    list.push(stat.server_rpcs.destroyclid);
    list.push(stat.server_rpcs.destroysess);
    list.push(stat.server_rpcs.exchangeid);
    list.push(stat.server_rpcs.freestateid);
    list.push(stat.server_rpcs.fsinfo);
    list.push(stat.server_rpcs.fsstat);
    list.push(stat.server_rpcs.getattr);
    list.push(stat.server_rpcs.getdevinfo);
    list.push(stat.server_rpcs.getdevlist);
    list.push(stat.server_rpcs.getdirdeleg);
    list.push(stat.server_rpcs.getfh);
    list.push(stat.server_rpcs.layoutcommit);
    list.push(stat.server_rpcs.layoutget);
    list.push(stat.server_rpcs.layoutreturn);
    list.push(stat.server_rpcs.link);
    list.push(stat.server_rpcs.lock);
    list.push(stat.server_rpcs.lockt);
    list.push(stat.server_rpcs.locku);
    list.push(stat.server_rpcs.lookup);
    list.push(stat.server_rpcs.lookupp);
    list.push(stat.server_rpcs.mkdir);
    list.push(stat.server_rpcs.mknod);
    list.push(stat.server_rpcs.nverify);
    list.push(stat.server_rpcs.open);
    list.push(stat.server_rpcs.openattr);
    list.push(stat.server_rpcs.openconfirm);
    list.push(stat.server_rpcs.opendgrd);
    list.push(stat.server_rpcs.pathconf);
    list.push(stat.server_rpcs.putfh);
    list.push(stat.server_rpcs.putpubfh);
    list.push(stat.server_rpcs.putrootfh);
    list.push(stat.server_rpcs.read);
    list.push(stat.server_rpcs.readdir);
    list.push(stat.server_rpcs.readdirplus);
    list.push(stat.server_rpcs.readlink);
    list.push(stat.server_rpcs.reclaimcompl);
    list.push(stat.server_rpcs.rellckown);
    list.push(stat.server_rpcs.remove);
    list.push(stat.server_rpcs.rename);
    list.push(stat.server_rpcs.renew);
    list.push(stat.server_rpcs.restorefh);
    list.push(stat.server_rpcs.rmdir);
    list.push(stat.server_rpcs.savefh);
    list.push(stat.server_rpcs.secinfo);
    list.push(stat.server_rpcs.secinfononame);
    list.push(stat.server_rpcs.sequence);
    list.push(stat.server_rpcs.setattr);
    list.push(stat.server_rpcs.setclid);
    list.push(stat.server_rpcs.setclidcf);
    list.push(stat.server_rpcs.setssv);
    list.push(stat.server_rpcs.symlink);
    list.push(stat.server_rpcs.teststateid);
    list.push(stat.server_rpcs.v3create);
    list.push(stat.server_rpcs.verify);
    list.push(stat.server_rpcs.wantdeleg);
    list.push(stat.server_rpcs.write);
    list.push(stat.startcnt);
    list
}

/// The record whose counters are the given words, in wire order.
fn record_of_words(list: &Vec<u64>) -> (stat: NfsStat)
    requires
        list@.len() == 84,
    ensures
        stat == from_words(list@),
{
    NfsStat {
        busytime: list[0],
        bytes: PerRW { read: list[1], write: list[2] },
        donecnt: list[3],
        duration: PerRWC { read: list[4], write: list[5], commit: list[6] },
        server_cache: ServerCache {
            inprog: list[7],
            nonidem: list[8],
            misses: list[9],
            size: list[10],
            tcp_peak: list[11],
        },
        server_misc: ServerMisc {
            clients: list[12],
            delegs: list[13],
            lock_owner: list[14],
            locks: list[15],
            open_owner: list[16],
            opens: list[17],
        },
        server_rpcs: PerRPC {
            access: list[18],
            backchannelctrl: list[19],
            bindconntosess: list[20],
            close: list[21],
            commit: list[22],
            create: list[23],
            createsess: list[24],
            delegpurge: list[25],
            delegreturn: list[26],
            destroyclid: list[27],
            destroysess: list[28],
            exchangeid: list[29],
            freestateid: list[30],
            fsinfo: list[31],
            fsstat: list[32],
            getattr: list[33],
            getdevinfo: list[34],
            getdevlist: list[35],
            getdirdeleg: list[36],
            getfh: list[37],
            layoutcommit: list[38],
            layoutget: list[39],
            layoutreturn: list[40],
            link: list[41],
            lock: list[42],
            lockt: list[43],
            locku: list[44],
            lookup: list[45],
            lookupp: list[46],
            mkdir: list[47],
            mknod: list[48],
            nverify: list[49],
            open: list[50],
            openattr: list[51],
            openconfirm: list[52],
            opendgrd: list[53],
            pathconf: list[54],
            putfh: list[55],
            putpubfh: list[56],
            putrootfh: list[57],
            read: list[58],
            readdir: list[59],
            readdirplus: list[60],
            readlink: list[61],
            reclaimcompl: list[62],
            rellckown: list[63],
            remove: list[64],
            rename: list[65],
            renew: list[66],
            restorefh: list[67],
            rmdir: list[68],
            savefh: list[69],
            secinfo: list[70],
            secinfononame: list[71],
            sequence: list[72],
            setattr: list[73],
            setclid: list[74],
            setclidcf: list[75],
            setssv: list[76],
            symlink: list[77],
            teststateid: list[78],
            v3create: list[79],
            verify: list[80],
            wantdeleg: list[81],
            write: list[82],
        },
        startcnt: list[83],
    }
}

/// Encodes a record for the wire: `ENCODED_LEN` bytes, every counter as a
/// little-endian word, in wire order.  Every record has an encoding.
pub fn encode(stat: &NfsStat) -> (result: Result<Vec<u8>, Fatal>)
    ensures
        result matches Ok(bytes) && bytes@ == encoding(*stat),
        result matches Ok(bytes) && bytes@.len() == ENCODED_LEN,
        result matches Ok(bytes) && decoding(bytes@) == *stat,
{
    let list = to_words(stat);
    let mut bytes: Vec<u8> = Vec::with_capacity(ENCODED_LEN);
    let mut k: usize = 0;
    while k < ENCODED_WORDS
        invariant
            k <= ENCODED_WORDS,
            list@.len() == ENCODED_WORDS,
            bytes@ == words_bytes(list@.subrange(0, k as int)),
        decreases ENCODED_WORDS - k,
    {
        match serialize_word(list[k]) {
            Ok(mut word) => {
                bytes.append(&mut word);
            },
            Err(_) => {
                return Err(Fatal::Encoding);
            },
        }
        proof {
            let done = list@.subrange(0, k + 1);
            assert forall|i: int| 0 <= i < 8 * (k + 1) implies bytes@[i] == le_bytes(
                done[i / 8],
            )[i % 8] by {
                if i >= 8 * k {
                    assert(i / 8 == k as int);
                    assert(i % 8 == i - 8 * k);
                }
            }
            assert(bytes@ =~= words_bytes(done));
        }
        k += 1;
    }
    proof {
        reveal(encoding);
        assert(list@.subrange(0, ENCODED_WORDS as int) =~= list@);
        lemma_decoding_of_encoding(*stat, Seq::empty());
        assert(encoding(*stat) + Seq::<u8>::empty() =~= encoding(*stat));
    }
    Ok(bytes)
}

/// Decodes a record from the wire.  The first `ENCODED_LEN` bytes are read;
/// bytes after them are ignored.  Fewer bytes than that encode no record.
pub fn decode(bytes: &[u8]) -> (result: Result<NfsStat, Fatal>)
    ensures
        bytes@.len() >= ENCODED_LEN ==> result == Ok::<NfsStat, Fatal>(decoding(bytes@)),
        bytes@.len() < ENCODED_LEN ==> result == Err::<NfsStat, Fatal>(Fatal::Encoding),
{
    if bytes.len() < ENCODED_LEN {
        return Err(Fatal::Encoding);
    }
    let mut list: Vec<u64> = Vec::with_capacity(ENCODED_WORDS);
    let mut k: usize = 0;
    while k < ENCODED_WORDS
        invariant
            k <= ENCODED_WORDS,
            bytes@.len() >= ENCODED_LEN,
            list@ == bytes_words(bytes@, k as nat),
        decreases ENCODED_WORDS - k,
    {
        let group = slice_subrange(bytes, WORD_LEN * k, WORD_LEN * k + WORD_LEN);
        match deserialize_word(group) {
            Ok(word) => {
                list.push(word);
            },
            Err(_) => {
                return Err(Fatal::Encoding);
            },
        }
        assert(list@ =~= bytes_words(bytes@, (k + 1) as nat));
        k += 1;
    }
    proof {
        reveal(decoding);
    }
    Ok(record_of_words(&list))
}

} // verus!
