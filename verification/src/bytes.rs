//! Byte-string helpers: comparison, copying, big-endian integer encoding
//! and lowercase hexadecimal encoding.
use vstd::prelude::*;

verus! {

/// Compares two byte strings.
pub fn bytes_eq(a: &Vec<u8>, b: &Vec<u8>) -> (r: bool)
    ensures
        r == (a@ == b@),
{
    if a.len() != b.len() {
        return false;
    }
    let n = a.len();
    let mut i: usize = 0;
    while i < n
        invariant
            n == a@.len(),
            n == b@.len(),
            i <= n,
            forall|j: int| 0 <= j < i ==> a@[j] == b@[j],
        decreases n - i,
    {
        if a[i] != b[i] {
            return false;
        }
        i = i + 1;
    }
    assert(a@ =~= b@);
    true
}

/// Returns a fresh copy of a byte string.
pub fn copy_bytes(a: &Vec<u8>) -> (r: Vec<u8>)
    ensures
        r@ == a@,
{
    let mut r: Vec<u8> = Vec::new();
    let n = a.len();
    let mut i: usize = 0;
    while i < n
        invariant
            n == a@.len(),
            i <= n,
            r@ == a@.take(i as int),
        decreases n - i,
    {
        r.push(a[i]);
        i = i + 1;
        assert(r@ =~= a@.take(i as int));
    }
    assert(a@.take(n as int) =~= a@);
    r
}

/// Returns a fresh copy of an optional byte string.
pub fn copy_opt_bytes(a: &Option<Vec<u8>>) -> (r: Option<Vec<u8>>)
    ensures
        opt_bytes_view(r) == opt_bytes_view(*a),
{
    match a {
        Some(v) => Some(copy_bytes(v)),
        None => None,
    }
}

/// The bytes of an optional byte string.
pub open spec fn opt_bytes_view(o: Option<Vec<u8>>) -> Option<Seq<u8>> {
    match o {
        Some(v) => Some(v@),
        None => None,
    }
}

/// The views of a list of byte strings.
pub open spec fn bytes_list_view(v: Seq<Vec<u8>>) -> Seq<Seq<u8>> {
    v.map_values(|b: Vec<u8>| b@)
}

/// Returns a fresh copy of a list of byte strings.
pub fn copy_bytes_list(a: &Vec<Vec<u8>>) -> (r: Vec<Vec<u8>>)
    ensures
        bytes_list_view(r@) == bytes_list_view(a@),
{
    let mut r: Vec<Vec<u8>> = Vec::new();
    let n = a.len();
    let mut i: usize = 0;
    while i < n
        invariant
            n == a@.len(),
            i <= n,
            r@.len() == i,
            bytes_list_view(r@) == bytes_list_view(a@).take(i as int),
        decreases n - i,
    {
        let c = copy_bytes(&a[i]);
        let ghost prev = r@;
        r.push(c);
        i = i + 1;
        assert forall|k: int| 0 <= k < i implies #[trigger] bytes_list_view(r@)[k] == bytes_list_view(
            a@,
        ).take(i as int)[k] by {
            if k < i - 1 {
                assert(r@[k] == prev[k]);
                assert(bytes_list_view(prev)[k] == bytes_list_view(a@).take(i - 1)[k]);
            }
        }
        assert(bytes_list_view(r@) =~= bytes_list_view(a@).take(i as int));
    }
    assert(bytes_list_view(a@).take(n as int) =~= bytes_list_view(a@));
    r
}

/// The lowercase hexadecimal digit of a value below 16.
pub open spec fn hex_digit(d: int) -> u8 {
    if d < 10 {
        (48 + d) as u8
    } else {
        (87 + d) as u8
    }
}

/// Lowercase hexadecimal encoding: two digits per byte, high nibble first.
pub open spec fn hex_encode(bytes: Seq<u8>) -> Seq<u8> {
    Seq::new(
        2 * bytes.len(),
        |j: int|
            if j % 2 == 0 {
                hex_digit((bytes[j / 2] / 16) as int)
            } else {
                hex_digit((bytes[j / 2] % 16) as int)
            },
    )
}

fn hex_digit_exec(d: u8) -> (r: u8)
    requires
        d < 16,
    ensures
        r == hex_digit(d as int),
{
    if d < 10 {
        48 + d
    } else {
        87 + d
    }
}

/// Encodes the first `count` bytes as lowercase hexadecimal text.
pub fn hex_encode_bytes(bytes: &[u8], count: usize) -> (r: Vec<u8>)
    requires
        count <= bytes@.len(),
        count < 0x4000_0000,
    ensures
        r@ == hex_encode(bytes@.take(count as int)),
{
    let mut r: Vec<u8> = Vec::new();
    let n = count;
    let mut i: usize = 0;
    while i < n
        invariant
            n <= bytes@.len(),
            n < 0x4000_0000,
            i <= n,
            r@ == hex_encode(bytes@.take(i as int)),
        decreases n - i,
    {
        let b = bytes[i];
        let hi = hex_digit_exec(b / 16);
        let lo = hex_digit_exec(b % 16);
        let ghost prev = r@;
        r.push(hi);
        r.push(lo);
        i = i + 1;
        assert forall|j: int| 0 <= j < 2 * i implies #[trigger] r@[j] == hex_encode(
            bytes@.take(i as int),
        )[j] by {
            if j < 2 * (i - 1) {
                assert(j / 2 < i - 1) by (nonlinear_arith)
                    requires
                        0 <= j < 2 * (i - 1),
                ;
                assert(r@[j] == prev[j]);
            } else {
                assert(j / 2 == i - 1) by (nonlinear_arith)
                    requires
                        2 * (i - 1) <= j < 2 * i,
                ;
            }
        }
        assert(r@ =~= hex_encode(bytes@.take(i as int)));
    }
    r
}

/// Big-endian bytes of a 64-bit integer.
pub open spec fn be_bytes_u64(x: u64) -> Seq<u8> {
    seq![
        (x >> 56u64) as u8,
        (x >> 48u64) as u8,
        (x >> 40u64) as u8,
        (x >> 32u64) as u8,
        (x >> 24u64) as u8,
        (x >> 16u64) as u8,
        (x >> 8u64) as u8,
        x as u8,
    ]
}

/// Big-endian bytes of a 32-bit integer.
pub open spec fn be_bytes_u32(x: u32) -> Seq<u8> {
    seq![(x >> 24u32) as u8, (x >> 16u32) as u8, (x >> 8u32) as u8, x as u8]
}

/// Appends the big-endian bytes of a 64-bit integer.
pub fn push_be_u64(out: &mut Vec<u8>, x: u64)
    ensures
        final(out)@ == old(out)@ + be_bytes_u64(x),
{
    out.push((x >> 56u64) as u8);
    out.push((x >> 48u64) as u8);
    out.push((x >> 40u64) as u8);
    out.push((x >> 32u64) as u8);
    out.push((x >> 24u64) as u8);
    out.push((x >> 16u64) as u8);
    out.push((x >> 8u64) as u8);
    out.push(x as u8);
    assert(out@ =~= old(out)@ + be_bytes_u64(x));
}

/// Appends the big-endian bytes of a 32-bit integer.
pub fn push_be_u32(out: &mut Vec<u8>, x: u32)
    ensures
        final(out)@ == old(out)@ + be_bytes_u32(x),
{
    out.push((x >> 24u32) as u8);
    out.push((x >> 16u32) as u8);
    out.push((x >> 8u32) as u8);
    out.push(x as u8);
    assert(out@ =~= old(out)@ + be_bytes_u32(x));
}

} // verus!
