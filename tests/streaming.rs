use fasthash::city;
use fasthash::xx;
use fasthash::xx::xxh3;
use fasthash::{
    stream_step, write_all, BufHasher, FastHash, FastHasher, HasherExt, ReadOutcome, StreamStep,
    STREAM_CHUNK_LEN,
};

fn hash_source<H: FastHasher>(h: &mut H, source: &[u8]) -> StreamStep {
    let mut total: usize = 0;
    let mut pos: usize = 0;
    loop {
        let end = std::cmp::min(pos + STREAM_CHUNK_LEN, source.len());
        let (outcome, data) = if pos == source.len() {
            (ReadOutcome::Exhausted, &source[pos..pos])
        } else {
            (ReadOutcome::Bytes, &source[pos..end])
        };
        pos = end;
        match stream_step(h, total, outcome, data) {
            StreamStep::Continue(t) => total = t,
            other => return other,
        }
    }
}

#[test]
fn city_hasher32_hello_world() {
    let mut h = city::Hasher32::new();
    h.write(b"hello");
    assert_eq!(h.finish(), 2039911270);
    h.write(b"world");
    assert_eq!(h.finish(), 4037657980);
}

#[test]
fn city_hasher64_hello_world() {
    let mut h = city::Hasher64::new();
    h.write(b"hello");
    assert_eq!(h.finish(), 13009744463427800296);
    h.write(b"world");
    assert_eq!(h.finish(), city::hash64(b"helloworld"));

    let mut s = city::Hasher64::with_seed(123);
    s.write(b"hel");
    s.write(b"lo");
    assert_eq!(s.finish(), city::hash64_with_seed(b"hello", 123));
}

#[test]
fn city_hasher128_hello_world() {
    let mut h = city::Hasher128::new();
    h.write(b"hello");
    assert_eq!(h.finish_ext(), city::hash128(b"hello"));
    assert_eq!(h.finish(), city::hash128(b"hello") as u64);
    h.write(b"world");
    assert_eq!(h.finish_ext(), city::hash128(b"helloworld"));

    let mut s = city::Hasher128::with_seed(123);
    s.write(&[0_u8, 1]);
    s.write(&[2_u8, 3, 4]);
    assert_eq!(s.finish_ext(), 0x68DA_6334_DE1F_04C9_CE25_5B96_13AD_58B7);
    assert_eq!(s.finish(), 0xCE25_5B96_13AD_58B7);
}

#[test]
fn xx_hasher32_hello_world_and_stream() {
    let mut h = xx::Hasher32::new();
    h.write(b"hello");
    assert_eq!(h.finish(), 4211111929);
    h.write(b"world");
    assert_eq!(h.finish(), 593682946);
    let zeros = [0_u8; 4567];
    assert!(hash_source(&mut h, &zeros) == StreamStep::Finished(4567));
    assert_eq!(h.finish(), 2113960620);
}

#[test]
fn xx_hasher64_hello_world_and_stream() {
    let mut h = xx::Hasher64::new();
    h.write(b"hello");
    assert_eq!(h.finish(), 2794345569481354659);
    h.write(b"world");
    assert_eq!(h.finish(), 9228181307863624271);
    let zeros = [0_u8; 4567];
    assert!(hash_source(&mut h, &zeros) == StreamStep::Finished(4567));
    assert_eq!(h.finish(), 6304142433100597454);
}

#[test]
fn xxh3_hasher64_hello_world() {
    let mut h = xxh3::Hasher64::new();
    h.write(b"hello");
    assert_eq!(h.finish(), 10760762337991515389);
    h.write(b"world");
    assert_eq!(h.finish(), xxh3::hash64(b"helloworld"));
}

#[test]
fn xxh3_hasher128_hello_world() {
    let mut h = xxh3::Hasher128::new();
    h.write(b"hello");
    assert_eq!(h.finish(), 14373748016363485208);
    assert_eq!(h.finish_ext(), xxh3::hash128(b"hello"));
    h.write(b"world");
    assert_eq!(h.finish(), xxh3::hash128(b"helloworld") as u64);
    assert_eq!(h.finish_ext(), xxh3::hash128(b"helloworld"));
}

#[test]
fn seeded_hellos_match_one_shot() {
    let mut a = xx::Hasher32::with_seed(123);
    a.write(b"hello");
    assert_eq!(a.finish(), 2147069998);
    let mut b = xx::Hasher64::with_seed(123);
    b.write(b"hello");
    assert_eq!(b.finish(), 2900467397628653179);
    let mut c = xxh3::Hasher64::with_seed(123);
    c.write(b"hello");
    c.write(b"world");
    assert_eq!(c.finish(), xxh3::hash64_with_seed(b"helloworld", 123));
    let mut d = xxh3::Hasher128::with_seed(123);
    d.write(b"hello");
    d.write(b"world");
    assert_eq!(d.finish_ext(), xxh3::hash128_with_seed(b"helloworld", 123));
}

#[test]
fn split_at_every_boundary() {
    let data: Vec<u8> = (0..100u32).map(|i| (i * 31 + 11) as u8).collect();
    let want32 = xx::hash32_with_seed(&data, 5) as u64;
    let want64 = xx::hash64_with_seed(&data, 5);
    let want3 = xxh3::hash64_with_seed(&data, 5);
    for cut in 0..=data.len() {
        let mut a = xx::Hasher32::with_seed(5);
        a.write(&data[..cut]);
        a.write(&data[cut..]);
        assert_eq!(a.finish(), want32);
        let mut b = xx::Hasher64::with_seed(5);
        b.write(&data[..cut]);
        b.write(&data[cut..]);
        assert_eq!(b.finish(), want64);
        let mut c = xxh3::Hasher64::with_seed(5);
        c.write(&data[..cut]);
        c.write(&data[cut..]);
        assert_eq!(c.finish(), want3);
    }
}

#[test]
fn split_large_buffer_in_uneven_chunks() {
    let data: Vec<u8> = (0..10_000u32).map(|i| (i * 13 + i / 7) as u8).collect();
    let mut chunks: Vec<Vec<u8>> = Vec::new();
    let mut pos = 0usize;
    let mut step = 1usize;
    while pos < data.len() {
        let end = std::cmp::min(pos + step, data.len());
        chunks.push(data[pos..end].to_vec());
        pos = end;
        step = step * 3 % 1021 + 1;
    }
    let mut a = xx::Hasher64::new();
    write_all(&mut a, &chunks);
    assert_eq!(a.finish(), xx::hash64(&data));
    let mut b = xx::Hasher32::new();
    write_all(&mut b, &chunks);
    assert_eq!(b.finish(), xx::hash32(&data) as u64);
    let mut c = xxh3::Hasher128::new();
    write_all(&mut c, &chunks);
    assert_eq!(c.finish_ext(), xxh3::hash128(&data));
    let mut d = city::Hasher64::new();
    write_all(&mut d, &chunks);
    assert_eq!(d.finish(), city::hash64(&data));
}

#[test]
fn finish_is_a_query() {
    let mut h = xx::Hasher64::new();
    h.write(b"abc");
    let first = h.finish();
    assert_eq!(h.finish(), first);
    h.write(b"d");
    assert_ne!(h.finish(), first);

    let mut b = city::Hasher32::new();
    b.write(b"abc");
    let f = b.finish();
    assert_eq!(b.finish(), f);
    b.write(b"d");
    assert_ne!(b.finish(), f);
}

#[test]
fn reset_behaves_as_fresh() {
    let mut h = xx::Hasher32::with_seed(9);
    h.write(b"some earlier history");
    h.reset_with_seed(123);
    h.write(b"hello");
    assert_eq!(h.finish(), 2147069998);
    h.reset();
    h.write(b"hello");
    assert_eq!(h.finish(), 4211111929);

    let mut b = city::Hasher64::with_seed(77);
    b.write(b"xyz");
    b.reset();
    b.write(b"hello");
    assert_eq!(b.finish(), 13009744463427800296);
    b.reset_with_seed(123);
    b.write(b"hello");
    assert_eq!(b.finish(), city::hash64_with_seed(b"hello", 123));

    let mut c = xx::Hasher64::new();
    c.write(b"junk");
    c.reset_with_seed(123);
    c.write(b"hello");
    assert_eq!(c.finish(), 2900467397628653179);
}

#[test]
fn clone_then_diverge() {
    let mut a = xx::Hasher64::new();
    a.write(b"hello");
    let mut b = a.clone();
    a.write(b"world");
    b.write(b"there");
    assert_eq!(a.finish(), xx::hash64(b"helloworld"));
    assert_eq!(b.finish(), xx::hash64(b"hellothere"));

    let mut c = xx::Hasher32::with_seed(3);
    c.write(b"hello");
    let mut d = c.clone();
    c.write(b"world");
    d.write(b"there");
    assert_eq!(c.finish(), xx::hash32_with_seed(b"helloworld", 3) as u64);
    assert_eq!(d.finish(), xx::hash32_with_seed(b"hellothere", 3) as u64);

    let mut e = xxh3::Hasher64::with_seed(3);
    e.write(b"hello");
    let mut f = e.clone();
    e.write(b"world");
    f.write(b"there");
    assert_eq!(e.finish(), xxh3::hash64_with_seed(b"helloworld", 3));
    assert_eq!(f.finish(), xxh3::hash64_with_seed(b"hellothere", 3));
}

#[test]
fn empty_writes_change_nothing() {
    let mut h = xx::Hasher32::new();
    assert_eq!(h.finish(), xx::hash32(b"") as u64);
    h.write(b"");
    assert_eq!(h.finish(), 0x02CC_5D05);
    let mut b = xxh3::Hasher64::default();
    b.write(b"");
    assert_eq!(b.finish(), xxh3::hash64(b""));
    let d = xx::Hasher64::default();
    assert_eq!(d.finish(), 0xEF46_DB37_51D8_E999);
}

#[test]
fn buffered_and_native_agree() {
    let mut native = xx::Hasher64::with_seed(99);
    let mut buffered: BufHasher<xx::Hash64> = BufHasher::with_seed(99);
    native.write(b"some bytes ");
    buffered.write(b"some bytes ");
    native.write(b"and more");
    buffered.write(b"and more");
    assert_eq!(native.finish(), buffered.finish());
    let mut n32 = xx::Hasher32::new();
    let mut b32: BufHasher<xx::Hash32> = BufHasher::new();
    n32.write(b"abc");
    b32.write(b"abc");
    assert_eq!(n32.finish(), b32.finish());
    assert_eq!(b32.digest(), xx::Hash32::hash(b"abc"));
}

#[test]
fn stream_step_outcomes() {
    let mut h = xx::Hasher64::new();
    assert!(stream_step(&mut h, 10, ReadOutcome::Bytes, b"abc") == StreamStep::Continue(13));
    assert!(stream_step(&mut h, 13, ReadOutcome::Interrupted, b"") == StreamStep::Continue(13));
    assert!(stream_step(&mut h, 13, ReadOutcome::Failed, b"") == StreamStep::Failed(13));
    assert!(stream_step(&mut h, 13, ReadOutcome::Exhausted, b"") == StreamStep::Finished(13));
    assert_eq!(h.finish(), xx::hash64(b"abc"));
}

#[test]
fn seeded_city_hasher64_hello_world() {
    let mut h = city::Hasher64::with_seed(123);
    h.write(b"hello");
    assert_eq!(h.finish(), city::hash64_with_seed(b"hello", 123));
    h.write(b"world");
    assert_eq!(h.finish(), city::hash64_with_seed(b"helloworld", 123));
    assert_ne!(h.finish(), city::hash64(b"helloworld"));
}

#[test]
fn seeded_city_hasher128_hello_world() {
    let mut h = city::Hasher128::with_seed(123);
    h.write(b"hello");
    assert_eq!(h.finish_ext(), city::hash128_with_seed(b"hello", 123));
    h.write(b"world");
    assert_eq!(h.finish_ext(), city::hash128_with_seed(b"helloworld", 123));
    assert_eq!(h.finish(), city::hash128_with_seed(b"helloworld", 123) as u64);
    assert_ne!(h.finish_ext(), city::hash128(b"helloworld"));
}

#[test]
fn seeded_xx_hasher64_hello_world() {
    let mut h = xx::Hasher64::with_seed(123);
    h.write(b"hello");
    assert_eq!(h.finish(), 2900467397628653179);
    h.write(b"world");
    assert_eq!(h.finish(), xx::hash64_with_seed(b"helloworld", 123));
    assert_ne!(h.finish(), xx::hash64(b"helloworld"));
}
