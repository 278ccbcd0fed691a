use freebsd_nfs_exporter::codec::{
    decode, encode, ENCODED_LEN, ENCODED_WORDS, RPC_WORDS_START, WORD_LEN,
};
use freebsd_nfs_exporter::error::Fatal;
use freebsd_nfs_exporter::nfs::{NfsStat, PerRW, PerRWC, ServerCache, ServerMisc};
use freebsd_nfs_exporter::rpc::{PerRPC, RpcOp, OP_COUNT};

/// The bytes of `count` words, word `i` being `word(i)`, least significant byte first.
fn bytes_of(count: usize, word: fn(usize) -> u64) -> Vec<u8> {
    let mut bytes = Vec::new();
    for i in 0..count {
        bytes.extend_from_slice(&word(i).to_le_bytes());
    }
    bytes
}

fn distinct(i: usize) -> u64 {
    0x0102_0304_0506_0700 + i as u64
}

fn all_ones(_: usize) -> u64 {
    u64::MAX
}

fn high_bits(i: usize) -> u64 {
    u64::MAX - (i as u64) * 0x0101_0101_0101_0101
}

#[test]
fn sizes() {
    assert_eq!(WORD_LEN, 8);
    assert_eq!(ENCODED_WORDS, 84);
    assert_eq!(ENCODED_LEN, 672);
    assert_eq!(RPC_WORDS_START + OP_COUNT + 1, ENCODED_WORDS);
}

#[test]
fn round_trip_of_zeros() {
    let stat = NfsStat::default();
    let bytes = encode(&stat).unwrap();
    assert_eq!(bytes, vec![0u8; 672]);
    assert_eq!(decode(&bytes), Ok(stat));
}

#[test]
fn round_trip_of_largest_values() {
    let bytes = vec![0xffu8; 672];
    let stat = decode(&bytes).unwrap();
    assert_eq!(stat.busytime, u64::MAX);
    assert_eq!(stat.bytes, PerRW { read: u64::MAX, write: u64::MAX });
    assert_eq!(stat.startcnt, u64::MAX);
    for op in RpcOp::all() {
        assert_eq!(stat.server_rpcs.count(op), u64::MAX);
    }
    assert_eq!(encode(&stat).unwrap(), bytes);
    assert_eq!(decode(&encode(&stat).unwrap()), Ok(stat));
    assert_eq!(bytes, bytes_of(84, all_ones));
}

#[test]
fn round_trip_of_distinct_values() {
    for word in [distinct as fn(usize) -> u64, high_bits] {
        let bytes = bytes_of(84, word);
        let stat = decode(&bytes).unwrap();
        assert_eq!(encode(&stat).unwrap(), bytes);
        assert_eq!(decode(&encode(&stat).unwrap()), Ok(stat));
    }
}

#[test]
fn fields_stand_in_declared_order() {
    let stat = decode(&bytes_of(84, distinct)).unwrap();
    let expected = NfsStat {
        busytime: distinct(0),
        bytes: PerRW { read: distinct(1), write: distinct(2) },
        donecnt: distinct(3),
        duration: PerRWC { read: distinct(4), write: distinct(5), commit: distinct(6) },
        server_cache: ServerCache {
            inprog: distinct(7),
            nonidem: distinct(8),
            misses: distinct(9),
            size: distinct(10),
            tcp_peak: distinct(11),
        },
        server_misc: ServerMisc {
            clients: distinct(12),
            delegs: distinct(13),
            lock_owner: distinct(14),
            locks: distinct(15),
            open_owner: distinct(16),
            opens: distinct(17),
        },
        server_rpcs: stat.server_rpcs,
        startcnt: distinct(83),
    };
    assert_eq!(stat, expected);
    assert_eq!(stat.server_rpcs.access, distinct(18));
    assert_eq!(stat.server_rpcs.backchannelctrl, distinct(19));
    assert_eq!(stat.server_rpcs.read, distinct(58));
    assert_eq!(stat.server_rpcs.write, distinct(82));
    for (ordinal, op) in RpcOp::all().into_iter().enumerate() {
        assert_eq!(stat.server_rpcs.count(op), distinct(RPC_WORDS_START + ordinal));
    }
}

#[test]
fn words_are_little_endian() {
    let stat = NfsStat {
        busytime: 0x0102_0304_0506_0708,
        bytes: PerRW { read: 4096, write: 1 },
        startcnt: 0xfeed_face_cafe_beef,
        server_rpcs: PerRPC { write: 0x1122_3344_5566_7788, ..PerRPC::default() },
        ..NfsStat::default()
    };
    let bytes = encode(&stat).unwrap();
    assert_eq!(bytes.len(), 672);
    assert_eq!(&bytes[0..8], &[0x08, 0x07, 0x06, 0x05, 0x04, 0x03, 0x02, 0x01]);
    assert_eq!(&bytes[8..16], &[0x00, 0x10, 0, 0, 0, 0, 0, 0]);
    assert_eq!(&bytes[16..24], &[1, 0, 0, 0, 0, 0, 0, 0]);
    assert_eq!(&bytes[656..664], &[0x88, 0x77, 0x66, 0x55, 0x44, 0x33, 0x22, 0x11]);
    assert_eq!(&bytes[664..672], &[0xef, 0xbe, 0xfe, 0xca, 0xce, 0xfa, 0xed, 0xfe]);
    assert!(bytes[24..656].iter().all(|b| *b == 0));
}

#[test]
fn encoding_is_that_of_the_outside_encoder() {
    // A vector of words is written by the outside encoder as its length,
    // then the words: after the length, the two encodings agree.
    let stat = decode(&bytes_of(84, high_bits)).unwrap();
    let mut words: Vec<u64> = vec![
        stat.busytime,
        stat.bytes.read,
        stat.bytes.write,
        stat.donecnt,
        stat.duration.read,
        stat.duration.write,
        stat.duration.commit,
        stat.server_cache.inprog,
        stat.server_cache.nonidem,
        stat.server_cache.misses,
        stat.server_cache.size,
        stat.server_cache.tcp_peak,
        stat.server_misc.clients,
        stat.server_misc.delegs,
        stat.server_misc.lock_owner,
        stat.server_misc.locks,
        stat.server_misc.open_owner,
        stat.server_misc.opens,
    ];
    for op in RpcOp::all() {
        words.push(stat.server_rpcs.count(op));
    }
    words.push(stat.startcnt);
    let outside = bincode::serialize(&words).unwrap();
    assert_eq!(&outside[..8], &84u64.to_le_bytes());
    assert_eq!(&outside[8..], &encode(&stat).unwrap()[..]);
    let back: u64 = bincode::deserialize(&encode(&stat).unwrap()).unwrap();
    assert_eq!(back, stat.busytime);
}

#[test]
fn short_input_is_an_encoding_error() {
    assert_eq!(decode(&[]), Err(Fatal::Encoding));
    assert_eq!(decode(&[0u8; 8]), Err(Fatal::Encoding));
    assert_eq!(decode(&vec![0u8; 671]), Err(Fatal::Encoding));
    assert_eq!(decode(&bytes_of(83, distinct)), Err(Fatal::Encoding));
}

#[test]
fn trailing_bytes_are_ignored() {
    let mut bytes = bytes_of(84, distinct);
    let stat = decode(&bytes).unwrap();
    bytes.extend_from_slice(&[0xaa; 5]);
    assert_eq!(decode(&bytes), Ok(stat));
    bytes.extend_from_slice(&[0x55; 700]);
    assert_eq!(decode(&bytes), Ok(stat));
}
