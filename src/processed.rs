use vstd::prelude::*;
use vstd::slice::slice_subrange;

verus! {

/// Bytes that hold the length of the metadata of a processed sheet.
pub const LENGTH_BYTES: usize = 8;

/// 256 to the power `k`.
pub open spec fn radix(k: nat) -> nat
    decreases k,
{
    if k == 0 {
        1
    } else {
        256 * radix((k - 1) as nat)
    }
}

/// The number that bytes spell, most significant first.
pub open spec fn be_value(s: Seq<u8>) -> nat
    decreases s.len(),
{
    if s.len() == 0 {
        0
    } else {
        (be_value(s.drop_last()) * 256 + s.last()) as nat
    }
}

/// The `k` lowest bytes of `n`, most significant first.
pub open spec fn be_bytes(n: nat, k: nat) -> Seq<u8>
    decreases k,
{
    if k == 0 {
        Seq::empty()
    } else {
        be_bytes(n / 256, (k - 1) as nat).push((n % 256) as u8)
    }
}

/// A processed sheet: the length of its metadata in eight big-endian bytes, the
/// metadata, then the atlas image.
pub open spec fn processed(meta: Seq<u8>, image: Seq<u8>) -> Seq<u8> {
    be_bytes(meta.len(), LENGTH_BYTES as nat) + meta + image
}

/// The metadata length that a processed sheet declares.
pub open spec fn declared_len(buf: Seq<u8>) -> nat {
    be_value(buf.take(LENGTH_BYTES as int))
}

/// A buffer splits into metadata and image when it holds the length and as many
/// metadata bytes as the length declares.
pub open spec fn splits(buf: Seq<u8>) -> bool {
    buf.len() >= LENGTH_BYTES && LENGTH_BYTES + declared_len(buf) <= buf.len()
}

proof fn lemma_be_bytes_len(n: nat, k: nat)
    ensures
        be_bytes(n, k).len() == k,
    decreases k,
{
    if k > 0 {
        lemma_be_bytes_len(n / 256, (k - 1) as nat);
    }
}

proof fn lemma_radix_positive(k: nat)
    ensures
        radix(k) > 0,
    decreases k,
{
    if k > 0 {
        lemma_radix_positive((k - 1) as nat);
    }
}

/// Bytes spell a number below `256` to the power of their count.
proof fn lemma_be_value_bound(s: Seq<u8>)
    ensures
        be_value(s) < radix(s.len()),
    decreases s.len(),
{
    if s.len() > 0 {
        lemma_be_value_bound(s.drop_last());
        let v = be_value(s.drop_last());
        let r = radix((s.len() - 1) as nat);
        assert(v * 256 + s.last() < 256 * r) by (nonlinear_arith)
            requires
                v < r,
                s.last() < 256,
        ;
    }
}

/// Reading back the `k` lowest bytes of `n` gives `n` modulo `256` to the `k`.
proof fn lemma_be_round_trip(n: nat, k: nat)
    ensures
        be_value(be_bytes(n, k)) == n % radix(k),
    decreases k,
{
    if k > 0 {
        lemma_be_round_trip(n / 256, (k - 1) as nat);
        let s = be_bytes(n, k);
        assert(s.drop_last() =~= be_bytes(n / 256, (k - 1) as nat));
        lemma_radix_positive((k - 1) as nat);
        vstd::arithmetic::div_mod::lemma_mod_breakdown(
            n as int,
            256,
            radix((k - 1) as nat) as int,
        );
    }
}

/// Splitting a processed sheet gives back the metadata and the image it was made of.
pub proof fn lemma_processed_round_trip(meta: Seq<u8>, image: Seq<u8>)
    requires
        meta.len() <= u64::MAX,
    ensures
        splits(processed(meta, image)),
        declared_len(processed(meta, image)) == meta.len(),
        processed(meta, image).subrange(LENGTH_BYTES as int, LENGTH_BYTES + meta.len()) == meta,
        processed(meta, image).subrange(
            LENGTH_BYTES + meta.len(),
            processed(meta, image).len() as int,
        ) == image,
{
    let head = be_bytes(meta.len(), 8);
    let buf = processed(meta, image);
    lemma_be_bytes_len(meta.len(), 8);
    lemma_be_round_trip(meta.len(), 8);
    reveal_with_fuel(radix, 9);
    assert(radix(8) == 18446744073709551616);
    assert(buf.take(8) =~= head);
    assert(buf.subrange(8, 8 + meta.len() as int) =~= meta);
    assert(buf.subrange(8 + meta.len() as int, buf.len() as int) =~= image);
}

/// The `k` lowest bytes of `n`, most significant first.
fn be_bytes_of(n: u64, k: usize) -> (r: Vec<u8>)
    ensures
        r@ == be_bytes(n as nat, k as nat),
    decreases k,
{
    if k == 0 {
        Vec::new()
    } else {
        let mut r = be_bytes_of(n / 256, k - 1);
        r.push((n % 256) as u8);
        r
    }
}

/// Appends `bytes` to `out`.
fn append(out: &mut Vec<u8>, bytes: &[u8])
    ensures
        final(out)@ == old(out)@ + bytes@,
{
    let mut i: usize = 0;
    while i < bytes.len()
        invariant
            i <= bytes@.len(),
            out@ == old(out)@ + bytes@.take(i as int),
        decreases bytes@.len() - i,
    {
        out.push(bytes[i]);
        i = i + 1;
        assert(bytes@.take(i as int) =~= bytes@.take(i - 1).push(bytes@[i - 1]));
        assert(out@ =~= old(out)@ + bytes@.take(i as int));
    }
    assert(bytes@.take(i as int) =~= bytes@);
}

/// Lays out a processed sheet from its serialised metadata and its encoded atlas image.
pub fn encode_processed(meta: &[u8], image: &[u8]) -> (r: Vec<u8>)
    ensures
        r@ == processed(meta@, image@),
{
    let mut out = be_bytes_of(meta.len() as u64, LENGTH_BYTES);
    append(&mut out, meta);
    append(&mut out, image);
    proof {
        assert(out@ =~= processed(meta@, image@));
    }
    out
}

/// The metadata length that the first eight bytes declare.
fn read_len(buf: &[u8]) -> (r: u64)
    requires
        buf@.len() >= LENGTH_BYTES,
    ensures
        r == declared_len(buf@),
{
    let mut v: u64 = 0;
    let mut i: usize = 0;
    while i < LENGTH_BYTES
        invariant
            i <= LENGTH_BYTES <= buf@.len(),
            v == be_value(buf@.take(i as int)),
        decreases LENGTH_BYTES - i,
    {
        let ghost prefix = buf@.take(i + 1);
        assert(prefix.drop_last() =~= buf@.take(i as int));
        proof {
            lemma_be_value_bound(buf@.take(i as int));
            reveal_with_fuel(radix, 8);
            assert(radix(7) == 72057594037927936);
            lemma_radix_monotone(i as nat, 7);
        }
        v = v * 256 + buf[i] as u64;
        i = i + 1;
    }
    v
}

proof fn lemma_radix_monotone(j: nat, k: nat)
    requires
        j <= k,
    ensures
        radix(j) <= radix(k),
    decreases k,
{
    if j < k {
        lemma_radix_monotone(j, (k - 1) as nat);
    }
}

/// Splits a processed sheet into its metadata and its atlas image; `None` when the
/// buffer is shorter than the length it declares.
pub fn split_processed(buf: &[u8]) -> (r: Option<(&[u8], &[u8])>)
    ensures
        r is Some <==> splits(buf@),
        r matches Some((meta, image)) ==> {
            &&& meta@ == buf@.subrange(LENGTH_BYTES as int, LENGTH_BYTES + declared_len(buf@))
            &&& image@ == buf@.subrange(LENGTH_BYTES + declared_len(buf@), buf@.len() as int)
        },
{
    if buf.len() < LENGTH_BYTES {
        return None;
    }
    let len = read_len(buf);
    if len > (buf.len() - LENGTH_BYTES) as u64 {
        return None;
    }
    let end = LENGTH_BYTES + len as usize;
    Some((slice_subrange(buf, LENGTH_BYTES, end), slice_subrange(buf, end, buf.len())))
}

} // verus!
