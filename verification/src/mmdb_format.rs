use vstd::prelude::*;

use crate::addr::IpAddress;

verus! {

/// How deeply the values of a database may nest, pointers included, for the
/// checks below; a value nested deeper is refused.
pub const NESTING: u64 = 512;

/// The big-endian number in the `n` bytes of `b` from offset `o`.
pub open spec fn be(b: Seq<u8>, o: int, n: nat) -> nat
    decreases n,
{
    if n == 0 {
        0
    } else {
        be(b, o, (n - 1) as nat) * 256 + b[o + n - 1] as nat
    }
}

/// The control bytes of the value at offset `o` of a data section: its type,
/// its size and where its payload starts, or `None` where they run past the
/// end or name an extended type beyond 255. The type is the top three bits of
/// the first byte, or 7 more than the next byte when those bits are zero; the
/// size is the low five bits, where 29, 30 and 31 take one, two or three more
/// bytes.
pub open spec fn header(b: Seq<u8>, o: int) -> Option<(int, int, int)> {
    if !(0 <= o < b.len()) {
        None
    } else {
        let ctrl = b[o] as int;
        let s = ctrl % 32;
        let ext = ctrl / 32 == 0;
        if ext && (o + 1 >= b.len() || b[o + 1] as int + 7 > 255) {
            None
        } else {
            let t = if ext { b[o + 1] as int + 7 } else { ctrl / 32 };
            let p = if ext { o + 2 } else { o + 1 };
            let n = if s > 28 { s - 28 } else { 0 };
            if p + n > b.len() {
                None
            } else {
                let size = if s < 29 {
                    s
                } else if s == 29 {
                    29 + b[p] as int
                } else if s == 30 {
                    285 + be(b, p, 2) as int
                } else {
                    65821 + be(b, p, 3) as int
                };
                Some((t, size, p + n))
            }
        }
    }
}

/// The number of bytes of a pointer of the given size.
pub open spec fn pointer_len(size: int) -> int {
    (size / 8) % 4 + 1
}

/// The offset a pointer of the given size, whose bytes start at `p`, points to.
pub open spec fn pointer_target(b: Seq<u8>, size: int, p: int) -> int {
    let ps = pointer_len(size);
    if ps == 1 {
        (size % 8) * 256 + be(b, p, 1) as int
    } else if ps == 2 {
        (size % 8) * 65536 + be(b, p, 2) as int + 2048
    } else if ps == 3 {
        (size % 8) * 16777216 + be(b, p, 3) as int + 526336
    } else {
        be(b, p, 4) as int
    }
}

/// Where decoding the value at `o` ends, following pointers (a pointer ends
/// after its own bytes), maps (twice as many items as the size) and arrays, at
/// most `fuel` levels deep; `None` where some read runs past the end, a type
/// is unknown, or the nesting is deeper.
pub open spec fn walk(b: Seq<u8>, o: int, fuel: nat) -> Option<int>
    decreases fuel, 0nat,
{
    if fuel == 0 {
        None
    } else {
        match header(b, o) {
            None => None,
            Some((t, size, p)) => {
                if t == 1 {
                    let ps = pointer_len(size);
                    if p + ps > b.len() {
                        None
                    } else if walk(b, pointer_target(b, size, p), (fuel - 1) as nat) is Some {
                        Some(p + ps)
                    } else {
                        None
                    }
                } else if t == 7 {
                    walk_items(b, p, (2 * size) as nat, (fuel - 1) as nat)
                } else if t == 11 {
                    walk_items(b, p, size as nat, (fuel - 1) as nat)
                } else if t == 14 {
                    Some(p)
                } else if (2 <= t <= 6 || 8 <= t <= 10 || t == 15) && p + size <= b.len() {
                    Some(p + size)
                } else {
                    None
                }
            },
        }
    }
}

/// Where decoding `n` values in a row from `o` ends.
pub open spec fn walk_items(b: Seq<u8>, o: int, n: nat, fuel: nat) -> Option<int>
    decreases fuel, n,
{
    if n == 0 {
        Some(o)
    } else {
        match walk(b, o, fuel) {
            None => None,
            Some(e) => walk_items(b, e, (n - 1) as nat, fuel),
        }
    }
}

/// The big-endian numbers of up to four bytes, written out.
proof fn lemma_be_small(b: Seq<u8>, o: int)
    ensures
        be(b, o, 0) == 0,
        be(b, o, 1) == b[o] as nat,
        be(b, o, 2) == b[o] as nat * 256 + b[o + 1] as nat,
        be(b, o, 3) == b[o] as nat * 65536 + b[o + 1] as nat * 256 + b[o + 2] as nat,
        be(b, o, 4) == b[o] as nat * 16777216 + b[o + 1] as nat * 65536 + b[o + 2] as nat * 256
            + b[o + 3] as nat,
{
    reveal_with_fuel(be, 5);
}

/// A boolean is written in its two control bytes alone: the first holds its
/// value (0 or 1) and no type bits, the second says type 14 (7 past 7).
/// Decoding it ends right after them.
pub proof fn lemma_walk_boolean(b: Seq<u8>, o: int, fuel: nat)
    requires
        0 <= o,
        o + 2 <= b.len(),
        b[o] == 0 || b[o] == 1,
        b[o + 1] == 7,
        fuel >= 1,
    ensures
        walk(b, o, fuel) == Some(o + 2),
{
}

/// A string, double, bytes, 16- or 32-bit unsigned integer of fewer than 29
/// bytes is written as one control byte (its type in the top three bits, its
/// size in the low five) followed by its bytes; decoding it ends after them.
pub proof fn lemma_walk_short_scalar(b: Seq<u8>, o: int, t: int, size: int, fuel: nat)
    requires
        0 <= o,
        2 <= t <= 6,
        0 <= size < 29,
        b[o] as int == t * 32 + size,
        o + 1 + size <= b.len(),
        fuel >= 1,
    ensures
        walk(b, o, fuel) == Some(o + 1 + size),
{
}

/// A signed 32-bit, 64- or 128-bit unsigned integer or a float of fewer than
/// 29 bytes is written as a control byte holding its size, a byte holding its
/// type less 7, and its bytes; decoding it ends after them.
pub proof fn lemma_walk_extended_scalar(b: Seq<u8>, o: int, t: int, size: int, fuel: nat)
    requires
        0 <= o,
        8 <= t <= 10 || t == 15,
        0 <= size < 29,
        b[o] as int == size,
        b[o + 1] as int == t - 7,
        o + 2 + size <= b.len(),
        fuel >= 1,
    ensures
        walk(b, o, fuel) == Some(o + 2 + size),
{
}

/// Decoding `k` empty strings in a row ends `k` bytes further on.
proof fn lemma_walk_empty_strings(b: Seq<u8>, q: int, k: nat, fuel: nat)
    requires
        0 <= q,
        q + k <= b.len(),
        fuel >= 1,
        forall|j: int| q <= j < q + k ==> b[j] == 0x40,
    ensures
        walk_items(b, q, k, fuel) == Some(q + k),
    decreases k,
{
    if k > 0 {
        assert(b[q] == 0x40);
        assert(walk(b, q, fuel) == Some(q + 1));
        lemma_walk_empty_strings(b, q + 1, (k - 1) as nat, fuel);
    }
}

/// An array of `n` values (fewer than 29) is written as a control byte
/// holding `n`, a byte saying type 11, and its `n` values; decoding an array
/// of `n` empty strings ends after exactly those `n` one-byte values.
pub proof fn lemma_walk_array(b: Seq<u8>, o: int, n: nat, fuel: nat)
    requires
        0 <= o,
        n < 29,
        b[o] as int == n,
        b[o + 1] == 4,
        o + 2 + n <= b.len(),
        forall|j: int| o + 2 <= j < o + 2 + n ==> b[j] == 0x40,
        fuel >= 2,
    ensures
        walk(b, o, fuel) == Some(o + 2 + n),
{
    lemma_walk_empty_strings(b, o + 2, n, (fuel - 1) as nat);
}

/// A map of `n` entries (fewer than 29) is written as one control byte
/// (type 7, size `n`) and its `n` keys and `n` values; decoding a map whose
/// keys and values are all empty strings ends after those `2n` bytes.
pub proof fn lemma_walk_map(b: Seq<u8>, o: int, n: nat, fuel: nat)
    requires
        0 <= o,
        n < 29,
        b[o] as int == 0xE0 + n,
        o + 1 + 2 * n <= b.len(),
        forall|j: int| o + 1 <= j < o + 1 + 2 * n ==> b[j] == 0x40,
        fuel >= 2,
    ensures
        walk(b, o, fuel) == Some(o + 1 + 2 * n),
{
    lemma_walk_empty_strings(b, o + 1, (2 * n) as nat, (fuel - 1) as nat);
}

/// A string of 29 bytes or more gives its size in the bytes after the control
/// byte: 29 plus one byte, 285 plus two bytes, or 65821 plus three bytes
/// (big-endian), for the control sizes 29, 30 and 31; decoding it ends after
/// its bytes.
pub proof fn lemma_walk_long_string(b: Seq<u8>, o: int, fuel: nat)
    requires
        0 <= o,
        o + 4 <= b.len(),
        b[o] == 0x5D || b[o] == 0x5E || b[o] == 0x5F,
        fuel >= 1,
    ensures
        b[o] == 0x5D && o + 2 + 29 + b[o + 1] <= b.len() ==> walk(b, o, fuel) == Some(
            o + 2 + 29 + b[o + 1],
        ),
        b[o] == 0x5E && o + 3 + 285 + b[o + 1] * 256 + b[o + 2] <= b.len() ==> walk(b, o, fuel) == Some(
            o + 3 + 285 + b[o + 1] * 256 + b[o + 2],
        ),
        b[o] == 0x5F && o + 4 + 65821 + b[o + 1] * 65536 + b[o + 2] * 256 + b[o + 3] <= b.len() ==> walk(
            b,
            o,
            fuel,
        ) == Some(o + 4 + 65821 + b[o + 1] * 65536 + b[o + 2] * 256 + b[o + 3]),
        b[o] == 0x5F && o + 4 + 65821 + b[o + 1] * 65536 + b[o + 2] * 256 + b[o + 3] > b.len() ==> walk(
            b,
            o,
            fuel,
        ) is None,
{
    lemma_be_small(b, o + 1);
}

/// A pointer is written as a control byte of type 1 whose bits 3 and 4 give
/// its length less one and whose low three bits (except for four-byte
/// pointers) are its top bits, followed by its bytes; lengths two and three
/// add 2048 and 526336 (here the low five bits stay below 29, so no size
/// bytes follow the control byte). Following it from `o` reaches the value
/// there, when that value is no pointer and has no size bytes.
pub proof fn lemma_deref_pointer(b: Seq<u8>, o: int, fuel: nat)
    requires
        0 <= o,
        o + 5 <= b.len(),
        32 <= b[o] < 61,
        fuel >= 2,
    ensures
        ({
            let c = b[o] as int;
            let len = (c / 8) % 4 + 1;
            let top = c % 8;
            let target = if len == 1 {
                top * 256 + b[o + 1]
            } else if len == 2 {
                top * 65536 + b[o + 1] * 256 + b[o + 2] + 2048
            } else if len == 3 {
                top * 16777216 + b[o + 1] * 65536 + b[o + 2] * 256 + b[o + 3] + 526336
            } else {
                b[o + 1] * 16777216 + b[o + 2] * 65536 + b[o + 3] * 256 + b[o + 4]
            };
            (0 <= target < b.len() && b[target] >= 64 && b[target] % 32 < 29) ==> deref(b, o, fuel)
                == Some(target)
        }),
{
    lemma_be_small(b, o + 1);
    let c = b[o] as int;
    assert(c / 32 == 1);
    assert(header(b, o) == Some((1int, c % 32, o + 1)));
    assert((c % 32) / 8 % 4 == (c / 8) % 4);
    assert((c % 32) % 8 == c % 8);
    let t = pointer_target(b, c % 32, o + 1);
    if 0 <= t < b.len() && b[t] >= 64 && b[t] % 32 < 29 {
        assert(header(b, t) == Some((b[t] as int / 32, b[t] as int % 32, t + 1)));
        assert(deref(b, t, (fuel - 1) as nat) == Some(t));
    }
}

/// A pointer (whose low five bits stay below 29) ends right after its own
/// bytes when the value it points to decodes, and does not decode when that
/// value does not.
pub proof fn lemma_walk_pointer(b: Seq<u8>, o: int, fuel: nat)
    requires
        0 <= o,
        o + 5 <= b.len(),
        32 <= b[o] < 61,
        fuel >= 2,
    ensures
        ({
            let c = b[o] as int;
            let len = (c / 8) % 4 + 1;
            let target = pointer_target(b, c % 32, o + 1);
            &&& walk(b, target, (fuel - 1) as nat) is Some ==> walk(b, o, fuel) == Some(o + 1 + len)
            &&& walk(b, target, (fuel - 1) as nat) is None ==> walk(b, o, fuel) is None
        }),
{
}

/// The metadata starts right after the last marker in the bytes: where the
/// marker stands at `i` and at no later offset, the metadata starts at `i` +
/// 14; where it stands nowhere, there is no metadata.
pub proof fn lemma_metadata_after_last_marker(b: Seq<u8>, i: int)
    ensures
        bytes_at(b, i, marker()) && (forall|j: int| i < j ==> !#[trigger] bytes_at(b, j, marker()))
            ==> metadata_start(b) == Some(i + 14),
        (forall|j: int| !#[trigger] bytes_at(b, j, marker())) ==> metadata_start(b) is None,
{
    if bytes_at(b, i, marker()) && (forall|j: int| i < j ==> !#[trigger] bytes_at(b, j, marker())) {
        lemma_last_marker_below(b, b.len(), i);
    }
    if forall|j: int| !#[trigger] bytes_at(b, j, marker()) {
        lemma_no_marker_below(b, b.len());
    }
}

proof fn lemma_last_marker_below(b: Seq<u8>, k: nat, i: int)
    requires
        bytes_at(b, i, marker()),
        i < k,
        forall|j: int| i < j ==> !#[trigger] bytes_at(b, j, marker()),
    ensures
        last_marker_below(b, k) == Some(i),
    decreases k,
{
    if k - 1 != i {
        assert(!bytes_at(b, k - 1, marker()));
        lemma_last_marker_below(b, (k - 1) as nat, i);
    }
}

proof fn lemma_no_marker_below(b: Seq<u8>, k: nat)
    requires
        forall|j: int| !#[trigger] bytes_at(b, j, marker()),
    ensures
        last_marker_below(b, k) is None,
    decreases k,
{
    if k > 0 {
        assert(!bytes_at(b, k - 1, marker()));
        lemma_no_marker_below(b, (k - 1) as nat);
    }
}

/// Reads the control bytes at `o`, as [`header`] says.
pub fn read_header(b: &[u8], o: usize) -> (r: Option<(u8, u64, usize)>)
    ensures
        match r {
            Some((t, s, p)) => header(b@, o as int) == Some((t as int, s as int, p as int)) && s
                < 0x200_0000,
            None => header(b@, o as int) is None,
        },
{
    if o >= b.len() {
        return None;
    }
    let ctrl = b[o];
    let s = ctrl % 32;
    let mut p = o + 1;
    let t: u8;
    if ctrl / 32 == 0 {
        if p >= b.len() {
            return None;
        }
        let e = b[p];
        if e > 248 {
            return None;
        }
        t = e + 7;
        p = p + 1;
    } else {
        t = ctrl / 32;
    }
    let n: usize = if s > 28 {
        (s - 28) as usize
    } else {
        0
    };
    if n > b.len() - p {
        return None;
    }
    let size: u64 = if s < 29 {
        s as u64
    } else if s == 29 {
        29 + b[p] as u64
    } else if s == 30 {
        285 + (b[p] as u64) * 256 + b[p + 1] as u64
    } else {
        65821 + (b[p] as u64) * 65536 + (b[p + 1] as u64) * 256 + b[p + 2] as u64
    };
    proof {
        lemma_be_small(b@, p as int);
    }
    Some((t, size, p + n))
}

/// Computes [`pointer_target`].
fn read_pointer(b: &[u8], size: u64, p: usize) -> (r: u64)
    requires
        p + pointer_len(size as int) <= b@.len(),
    ensures
        r as int == pointer_target(b@, size as int, p as int),
{
    let ps = (size / 8) % 4 + 1;
    let base = size % 8;
    proof {
        lemma_be_small(b@, p as int);
    }
    if ps == 1 {
        base * 256 + b[p] as u64
    } else if ps == 2 {
        base * 65536 + (b[p] as u64) * 256 + b[p + 1] as u64 + 2048
    } else if ps == 3 {
        base * 16777216 + (b[p] as u64) * 65536 + (b[p + 1] as u64) * 256 + b[p + 2] as u64
            + 526336
    } else {
        (b[p] as u64) * 16777216 + (b[p + 1] as u64) * 65536 + (b[p + 2] as u64) * 256
            + b[p + 3] as u64
    }
}

/// Decodes the structure of the value at `o` as [`walk`] says.
pub fn walk_value(b: &[u8], o: usize, fuel: u64) -> (r: Option<usize>)
    ensures
        match r {
            Some(e) => walk(b@, o as int, fuel as nat) == Some(e as int),
            None => walk(b@, o as int, fuel as nat) is None,
        },
    decreases fuel, 0u64,
{
    if fuel == 0 {
        return None;
    }
    match read_header(b, o) {
        None => None,
        Some((t, size, p)) => {
            if t == 1 {
                let ps: usize = ((size / 8) % 4 + 1) as usize;
                if ps > b.len() - p {
                    return None;
                }
                let target = read_pointer(b, size, p);
                if target >= b.len() as u64 {
                    assert(walk(b@, target as int, (fuel - 1) as nat) is None);
                    return None;
                }
                match walk_value(b, target as usize, fuel - 1) {
                    Some(_) => Some(p + ps),
                    None => None,
                }
            } else if t == 7 {
                walk_items_exec(b, p, 2 * size, fuel - 1)
            } else if t == 11 {
                walk_items_exec(b, p, size, fuel - 1)
            } else if t == 14 {
                Some(p)
            } else if ((2 <= t && t <= 6) || (8 <= t && t <= 10) || t == 15) && size <= (b.len()
                - p) as u64 {
                Some(p + size as usize)
            } else {
                None
            }
        },
    }
}

/// Decodes the structure of `n` values in a row, as [`walk_items`] says.
fn walk_items_exec(b: &[u8], o: usize, n: u64, fuel: u64) -> (r: Option<usize>)
    ensures
        match r {
            Some(e) => walk_items(b@, o as int, n as nat, fuel as nat) == Some(e as int),
            None => walk_items(b@, o as int, n as nat, fuel as nat) is None,
        },
    decreases fuel, 1u64,
{
    let mut cur = o;
    let mut i: u64 = 0;
    while i < n
        invariant
            i <= n,
            walk_items(b@, o as int, n as nat, fuel as nat) == walk_items(
                b@,
                cur as int,
                (n - i) as nat,
                fuel as nat,
            ),
        decreases n - i,
    {
        match walk_value(b, cur, fuel) {
            None => {
                return None;
            },
            Some(e) => {
                cur = e;
            },
        }
        i = i + 1;
    }
    Some(cur)
}

/// The bytes that announce the metadata: 0xAB 0xCD 0xEF and "MaxMind.com".
pub open spec fn marker() -> Seq<u8> {
    seq![0xabu8, 0xcdu8, 0xefu8, 77u8, 97u8, 120u8, 77u8, 105u8, 110u8, 100u8, 46u8, 99u8, 111u8, 109u8]
}

/// The key "ip_version".
pub open spec fn ip_version_key() -> Seq<u8> {
    seq![105u8, 112u8, 95u8, 118u8, 101u8, 114u8, 115u8, 105u8, 111u8, 110u8]
}

/// The key "node_count".
pub open spec fn node_count_key() -> Seq<u8> {
    seq![110u8, 111u8, 100u8, 101u8, 95u8, 99u8, 111u8, 117u8, 110u8, 116u8]
}

/// The key "record_size".
pub open spec fn record_size_key() -> Seq<u8> {
    seq![114u8, 101u8, 99u8, 111u8, 114u8, 100u8, 95u8, 115u8, 105u8, 122u8, 101u8]
}

fn marker_bytes() -> (v: Vec<u8>)
    ensures
        v@ == marker(),
{
    let mut v: Vec<u8> = Vec::new();
    v.push(0xab);
    v.push(0xcd);
    v.push(0xef);
    v.push(77);
    v.push(97);
    v.push(120);
    v.push(77);
    v.push(105);
    v.push(110);
    v.push(100);
    v.push(46);
    v.push(99);
    v.push(111);
    v.push(109);
    assert(v@ =~= marker());
    v
}

fn ip_version_key_bytes() -> (v: Vec<u8>)
    ensures
        v@ == ip_version_key(),
{
    let mut v: Vec<u8> = Vec::new();
    v.push(105);
    v.push(112);
    v.push(95);
    v.push(118);
    v.push(101);
    v.push(114);
    v.push(115);
    v.push(105);
    v.push(111);
    v.push(110);
    assert(v@ =~= ip_version_key());
    v
}

fn node_count_key_bytes() -> (v: Vec<u8>)
    ensures
        v@ == node_count_key(),
{
    let mut v: Vec<u8> = Vec::new();
    v.push(110);
    v.push(111);
    v.push(100);
    v.push(101);
    v.push(95);
    v.push(99);
    v.push(111);
    v.push(117);
    v.push(110);
    v.push(116);
    assert(v@ =~= node_count_key());
    v
}

fn record_size_key_bytes() -> (v: Vec<u8>)
    ensures
        v@ == record_size_key(),
{
    let mut v: Vec<u8> = Vec::new();
    v.push(114);
    v.push(101);
    v.push(99);
    v.push(111);
    v.push(114);
    v.push(100);
    v.push(95);
    v.push(115);
    v.push(105);
    v.push(122);
    v.push(101);
    assert(v@ =~= record_size_key());
    v
}

/// Whether the bytes of `k` stand in `b` from offset `i`.
pub open spec fn bytes_at(b: Seq<u8>, i: int, k: Seq<u8>) -> bool {
    0 <= i && i + k.len() <= b.len() && b.subrange(i, i + k.len()) == k
}

/// Tells whether the bytes of `k` stand in `b` from offset `i`.
fn has_bytes_at(b: &[u8], i: usize, k: &[u8]) -> (r: bool)
    ensures
        r == bytes_at(b@, i as int, k@),
{
    if i > b.len() || k.len() > b.len() - i {
        return false;
    }
    let mut j: usize = 0;
    while j < k.len()
        invariant
            j <= k.len(),
            i + k.len() <= b.len(),
            forall|m: int| 0 <= m < j ==> b@[i + m] == k@[m],
        decreases k.len() - j,
    {
        if b[i + j] != k[j] {
            assert(b@.subrange(i as int, i + k.len())[j as int] != k@[j as int]);
            return false;
        }
        j = j + 1;
    }
    assert(b@.subrange(i as int, i + k.len()) =~= k@);
    true
}

/// The last offset below `k` where the marker stands.
pub open spec fn last_marker_below(b: Seq<u8>, k: nat) -> Option<int>
    decreases k,
{
    if k == 0 {
        None
    } else if bytes_at(b, k - 1, marker()) {
        Some(k - 1)
    } else {
        last_marker_below(b, (k - 1) as nat)
    }
}

/// Where the metadata starts: just after the last marker, if there is one.
pub open spec fn metadata_start(b: Seq<u8>) -> Option<int> {
    match last_marker_below(b, b.len()) {
        Some(i) => Some(i + 14),
        None => None,
    }
}

/// Finds [`metadata_start`].
fn find_metadata_start(b: &[u8]) -> (r: Option<usize>)
    ensures
        match r {
            Some(s) => metadata_start(b@) == Some(s as int) && s <= b.len(),
            None => metadata_start(b@) is None,
        },
{
    let m = marker_bytes();
    let mut k: usize = b.len();
    while k > 0
        invariant
            k <= b.len(),
            m@ == marker(),
            last_marker_below(b@, b@.len()) == last_marker_below(b@, k as nat),
        decreases k,
    {
        if has_bytes_at(b, k - 1, m.as_slice()) {
            return Some(k - 1 + 14);
        }
        k = k - 1;
    }
    None
}

/// Follows pointers from `o` to the value they lead to, through at most
/// `fuel` headers, as the decoder does before it decodes a value.
pub open spec fn deref(m: Seq<u8>, o: int, fuel: nat) -> Option<int>
    decreases fuel,
{
    if fuel == 0 {
        None
    } else {
        match header(m, o) {
            None => None,
            Some((t, size, p)) => if t == 1 {
                if p + pointer_len(size) > m.len() {
                    None
                } else {
                    deref(m, pointer_target(m, size, p), (fuel - 1) as nat)
                }
            } else {
                Some(o)
            },
        }
    }
}

/// Finds [`deref`].
fn deref_exec(m: &[u8], o: usize, fuel: u64) -> (r: Option<usize>)
    ensures
        match r {
            Some(q) => deref(m@, o as int, fuel as nat) == Some(q as int),
            None => deref(m@, o as int, fuel as nat) is None,
        },
{
    let mut cur = o;
    let mut f = fuel;
    while f > 0
        invariant
            f <= fuel,
            deref(m@, o as int, fuel as nat) == deref(m@, cur as int, f as nat),
        decreases f,
    {
        match read_header(m, cur) {
            None => {
                return None;
            },
            Some((t, size, p)) => {
                if t != 1 {
                    return Some(cur);
                }
                let ps: usize = ((size / 8) % 4 + 1) as usize;
                if ps > m.len() - p {
                    return None;
                }
                let target = read_pointer(m, size, p);
                if target >= m.len() as u64 {
                    assert(deref(m@, target as int, (f - 1) as nat) is None);
                    return None;
                }
                cur = target as usize;
            },
        }
        f = f - 1;
    }
    None
}

/// 256 to the power `n`.
pub open spec fn pow256(n: nat) -> nat
    decreases n,
{
    if n == 0 {
        1
    } else {
        256 * pow256((n - 1) as nat)
    }
}

proof fn lemma_pow256_small()
    ensures
        pow256(0) == 1,
        pow256(1) == 0x100,
        pow256(2) == 0x1_0000,
        pow256(3) == 0x100_0000,
        pow256(4) == 0x1_0000_0000,
        pow256(5) == 0x100_0000_0000,
        pow256(6) == 0x1_0000_0000_0000,
        pow256(7) == 0x100_0000_0000_0000,
        pow256(8) == 0x1_0000_0000_0000_0000,
{
    reveal_with_fuel(pow256, 9);
}

/// Reads [`be`] of at most eight bytes.
fn read_be(m: &[u8], p: usize, size: u64) -> (r: u64)
    requires
        size <= 8,
        p + size <= m@.len(),
    ensures
        r as int == be(m@, p as int, size as nat),
{
    proof {
        lemma_pow256_small();
    }
    let len = m.len();
    let mut acc: u64 = 0;
    let mut i: u64 = 0;
    while i < size
        invariant
            len == m@.len(),
            i <= size <= 8,
            p + size <= m@.len(),
            acc as int == be(m@, p as int, i as nat),
            acc < pow256(i as nat),
            pow256(0) == 1,
            pow256(1) == 0x100,
            pow256(2) == 0x1_0000,
            pow256(3) == 0x100_0000,
            pow256(4) == 0x1_0000_0000,
            pow256(5) == 0x100_0000_0000,
            pow256(6) == 0x1_0000_0000_0000,
            pow256(7) == 0x100_0000_0000_0000,
            pow256(8) == 0x1_0000_0000_0000_0000,
        decreases size - i,
    {
        assert(i < size);
        let j: usize = p + (i as usize);
        let x = m[j];
        let ghost pi = pow256(i as nat);
        assert(pow256((i + 1) as nat) == 256 * pi);
        assert(acc * 256 + x < 256 * pi) by (nonlinear_arith)
            requires
                acc < pi,
                x < 256,
        ;
        assert(256 * pi <= 0x1_0000_0000_0000_0000);
        acc = acc * 256 + x as u64;
        i = i + 1;
    }
    acc
}

/// The integer at `q` as it is read into an unsigned field: an unsigned 16-,
/// 32- or 64-bit integer, or a signed 32-bit one that is not negative, of a
/// size the decoder accepts.
pub open spec fn int_at(m: Seq<u8>, q: int) -> Option<int> {
    match header(m, q) {
        None => None,
        Some((t, size, p)) => if p + size > m.len() {
            None
        } else if (t == 5 && size <= 2) || (t == 6 && size <= 4) || (t == 9 && size <= 8) {
            Some(be(m, p, size as nat) as int)
        } else if t == 8 && size <= 4 && (size < 4 || be(m, p, 4) < 0x8000_0000) {
            Some(be(m, p, size as nat) as int)
        } else {
            None
        },
    }
}

/// Reads [`int_at`].
fn read_int(m: &[u8], q: usize) -> (r: Option<u64>)
    ensures
        match r {
            Some(x) => int_at(m@, q as int) == Some(x as int),
            None => int_at(m@, q as int) is None,
        },
{
    match read_header(m, q) {
        None => None,
        Some((t, size, p)) => {
            if size > (m.len() - p) as u64 {
                return None;
            }
            if (t == 5 && size <= 2) || (t == 6 && size <= 4) || (t == 9 && size <= 8) || (t == 8
                && size <= 4) {
                let v = read_be(m, p, size);
                if t == 8 && size == 4 && v >= 0x8000_0000 {
                    None
                } else {
                    Some(v)
                }
            } else {
                None
            }
        },
    }
}

/// Whether the value at `q` names the field of the given name and index: a
/// string or bytes equal to the name, or an unsigned 16-, 32- or 64-bit
/// integer equal to the index.
pub open spec fn key_is(m: Seq<u8>, q: int, name: Seq<u8>, index: int) -> bool {
    match header(m, q) {
        None => false,
        Some((t, size, p)) => if t == 2 || t == 4 {
            size == name.len() && bytes_at(m, p, name)
        } else if (t == 5 && size <= 2) || (t == 6 && size <= 4) || (t == 9 && size <= 8) {
            p + size <= m.len() && be(m, p, size as nat) == index
        } else {
            false
        },
    }
}

/// Tells [`key_is`].
fn key_is_exec(m: &[u8], q: usize, name: &[u8], index: u64) -> (r: bool)
    ensures
        r == key_is(m@, q as int, name@, index as int),
{
    match read_header(m, q) {
        None => false,
        Some((t, size, p)) => {
            if t == 2 || t == 4 {
                size == name.len() as u64 && has_bytes_at(m, p, name)
            } else if (t == 5 && size <= 2) || (t == 6 && size <= 4) || (t == 9 && size <= 8) {
                size <= (m.len() - p) as u64 && read_be(m, p, size) == index
            } else {
                false
            }
        },
    }
}

/// Over `k` entries of a map from `o`: how many name the field, and the
/// integer (as [`int_at`] reads it) of the last that does; `None` where an
/// entry does not decode.
pub open spec fn field_scan(
    m: Seq<u8>,
    o: int,
    k: nat,
    name: Seq<u8>,
    index: int,
    count: nat,
    value: Option<int>,
) -> Option<(nat, Option<int>)>
    decreases k,
{
    if k == 0 {
        Some((count, value))
    } else {
        match (walk(m, o, NESTING as nat), deref(m, o, NESTING as nat)) {
            (Some(e), Some(kq)) => match walk(m, e, NESTING as nat) {
                None => None,
                Some(e2) => if key_is(m, kq, name, index) {
                    let v = match deref(m, e, NESTING as nat) {
                        Some(vq) => int_at(m, vq),
                        None => None,
                    };
                    field_scan(m, e2, (k - 1) as nat, name, index, count + 1, v)
                } else {
                    field_scan(m, e2, (k - 1) as nat, name, index, count, value)
                },
            },
            _ => None,
        }
    }
}

/// Reads [`field_scan`] from no entry seen.
fn field_scan_exec(m: &[u8], o: usize, k: u64, name: &[u8], index: u64) -> (r: Option<(u64, Option<u64>)>)
    ensures
        match r {
            Some((c, v)) => field_scan(m@, o as int, k as nat, name@, index as int, 0, None) == Some(
                (
                    c as nat,
                    match v {
                        Some(x) => Some(x as int),
                        None => None::<int>,
                    },
                ),
            ),
            None => field_scan(m@, o as int, k as nat, name@, index as int, 0, None) is None,
        },
{
    let mut cur = o;
    let mut i: u64 = 0;
    let mut count: u64 = 0;
    let mut value: Option<u64> = None;
    while i < k
        invariant
            i <= k,
            count <= i,
            field_scan(m@, o as int, k as nat, name@, index as int, 0, None) == field_scan(
                m@,
                cur as int,
                (k - i) as nat,
                name@,
                index as int,
                count as nat,
                match value {
                    Some(x) => Some(x as int),
                    None => None::<int>,
                },
            ),
        decreases k - i,
    {
        let e = match walk_value(m, cur, NESTING) {
            None => {
                return None;
            },
            Some(e) => e,
        };
        let kq = match deref_exec(m, cur, NESTING) {
            None => {
                return None;
            },
            Some(q) => q,
        };
        let e2 = match walk_value(m, e, NESTING) {
            None => {
                return None;
            },
            Some(e2) => e2,
        };
        if key_is_exec(m, kq, name, index) {
            count = count + 1;
            value = match deref_exec(m, e, NESTING) {
                Some(vq) => read_int(m, vq),
                None => None,
            };
        }
        cur = e2;
        i = i + 1;
    }
    Some((count, value))
}

/// The value that decoding the metadata would read for the field of the
/// given name and index, when it reads one at most `max`: the metadata (after
/// pointers) is a map with exactly one entry naming the field, or an array
/// with an element at the index. The outer `None` is for metadata that does
/// not decode.
pub open spec fn meta_field(m: Seq<u8>, name: Seq<u8>, index: int, max: int) -> Option<Option<int>> {
    match deref(m, 0, NESTING as nat) {
        None => None,
        Some(top) => match header(m, top) {
            None => None,
            Some((t, size, p)) => if t == 7 {
                match field_scan(m, p, size as nat, name, index, 0, None) {
                    None => None,
                    Some((c, v)) => Some(
                        if c == 1 {
                            match v {
                                Some(x) => if x <= max {
                                    Some(x)
                                } else {
                                    None
                                },
                                None => None,
                            }
                        } else {
                            None
                        },
                    ),
                }
            } else if t == 11 && index < size {
                match walk_items(m, p, index as nat, NESTING as nat) {
                    None => None,
                    Some(q) => match deref(m, q, NESTING as nat) {
                        None => None,
                        Some(vq) => Some(
                            match int_at(m, vq) {
                                Some(x) => if x <= max {
                                    Some(x)
                                } else {
                                    None
                                },
                                None => None,
                            },
                        ),
                    },
                }
            } else {
                Some(None)
            },
        },
    }
}

/// Reads [`meta_field`].
fn meta_field_exec(m: &[u8], name: &[u8], index: u64, max: u64) -> (r: Option<Option<u64>>)
    ensures
        match r {
            Some(Some(x)) => meta_field(m@, name@, index as int, max as int) == Some(Some(x as int)),
            Some(None) => meta_field(m@, name@, index as int, max as int) == Some(None::<int>),
            None => meta_field(m@, name@, index as int, max as int) is None,
        },
{
    let top = match deref_exec(m, 0, NESTING) {
        None => {
            return None;
        },
        Some(t) => t,
    };
    let (t, size, p) = match read_header(m, top) {
        None => {
            return None;
        },
        Some(h) => h,
    };
    if t == 7 {
        match field_scan_exec(m, p, size, name, index) {
            None => None,
            Some((c, v)) => Some(
                if c == 1 {
                    match v {
                        Some(x) => if x <= max {
                            Some(x)
                        } else {
                            None
                        },
                        None => None,
                    }
                } else {
                    None
                },
            ),
        }
    } else if t == 11 && index < size {
        match walk_items_exec(m, p, index, NESTING) {
            None => None,
            Some(q) => match deref_exec(m, q, NESTING) {
                None => None,
                Some(vq) => Some(
                    match read_int(m, vq) {
                        Some(x) => if x <= max {
                            Some(x)
                        } else {
                            None
                        },
                        None => None,
                    },
                ),
            },
        }
    } else {
        Some(None)
    }
}

/// Whether records of this size can be read.
pub open spec fn good_record_size(rs: int) -> bool {
    rs == 24 || rs == 28 || rs == 32
}

/// The record `idx` (0 or 1) of node `n` of a search tree of the given record
/// size.
pub open spec fn record(b: Seq<u8>, rs: int, n: int, idx: int) -> int {
    if rs == 24 {
        be(b, 6 * n + 3 * idx, 3) as int
    } else if rs == 28 {
        let mid = b[7 * n + 3] as int;
        let hi = if idx == 0 {
            mid / 16
        } else {
            mid % 16
        };
        hi * 16777216 + be(b, 7 * n + 4 * idx, 3)
    } else {
        be(b, 8 * n + 4 * idx, 4) as int
    }
}

/// One past the last byte read for the record `idx` of node `n`.
pub open spec fn record_end(rs: int, n: int, idx: int) -> int {
    if rs == 24 {
        6 * n + 3 * idx + 3
    } else if rs == 28 {
        if idx == 0 {
            7 * n + 4
        } else {
            7 * n + 7
        }
    } else {
        8 * n + 4 * idx + 4
    }
}

/// How a node's two records are laid out: with 24-bit records a node is six
/// bytes, the left record first, each big-endian; with 32-bit records eight
/// bytes; with 28-bit records seven bytes, the middle byte giving the top four
/// bits of the left record in its high half and of the right record in its
/// low half.
pub proof fn lemma_record_layout(b: Seq<u8>, n: int)
    requires
        0 <= n,
    ensures
        record(b, 24, n, 0) == b[6 * n] * 65536 + b[6 * n + 1] * 256 + b[6 * n + 2],
        record(b, 24, n, 1) == b[6 * n + 3] * 65536 + b[6 * n + 4] * 256 + b[6 * n + 5],
        record(b, 32, n, 0) == b[8 * n] * 16777216 + b[8 * n + 1] * 65536 + b[8 * n + 2] * 256 + b[8 * n
            + 3],
        record(b, 32, n, 1) == b[8 * n + 4] * 16777216 + b[8 * n + 5] * 65536 + b[8 * n + 6] * 256 + b[8
            * n + 7],
        record(b, 28, n, 0) == (b[7 * n + 3] / 16) * 16777216 + b[7 * n] * 65536 + b[7 * n + 1] * 256
            + b[7 * n + 2],
        record(b, 28, n, 1) == (b[7 * n + 3] % 16) * 16777216 + b[7 * n + 4] * 65536 + b[7 * n + 5] * 256
            + b[7 * n + 6],
{
    lemma_be_small(b, 6 * n);
    lemma_be_small(b, 6 * n + 3);
    lemma_be_small(b, 8 * n);
    lemma_be_small(b, 8 * n + 4);
    lemma_be_small(b, 7 * n);
    lemma_be_small(b, 7 * n + 4);
}

/// The bits of an IPv4 address are taken from the most significant: bit `i`
/// is the units digit of the address divided by 2 to the power 31 - `i`.
pub proof fn lemma_ipv4_bits(v: u32, i: int)
    requires
        0 <= i < 32,
    ensures
        ip_bit(IpAddress::V4(v), i) == (v as nat / vstd::arithmetic::power2::pow2((31 - i) as nat)) % 2,
{
    let sh = (31 - i) as u32;
    vstd::bits::lemma_u32_shr_is_div(v, sh);
    let y = v >> sh;
    assert(y & 1u32 == y % 2) by (bit_vector);
}

/// Reads [`record`] for a node of the tree.
fn read_record(b: &[u8], rs: u64, n: u64, idx: u64) -> (r: u64)
    requires
        good_record_size(rs as int),
        n < 0x1_0000_0000,
        idx < 2,
        record_end(rs as int, n as int, idx as int) <= b@.len(),
    ensures
        r as int == record(b@, rs as int, n as int, idx as int),
{
    let len = b.len();
    proof {
        lemma_be_small(b@, 6 * n + 3 * idx);
        lemma_be_small(b@, 7 * n + 4 * idx);
        lemma_be_small(b@, 8 * n + 4 * idx);
    }
    if rs == 24 {
        assert(6 * n + 3 * idx + 3 <= len);
        let o = (6 * n + 3 * idx) as usize;
        (b[o] as u64) * 65536 + (b[o + 1] as u64) * 256 + b[o + 2] as u64
    } else if rs == 28 {
        assert(7 * n + 4 <= len);
        let base = (7 * n) as usize;
        let mid = b[base + 3] as u64;
        let hi = if idx == 0 {
            mid / 16
        } else {
            mid % 16
        };
        assert(7 * n + 4 * idx + 3 <= len);
        let o = (7 * n + 4 * idx) as usize;
        hi * 16777216 + (b[o] as u64) * 65536 + (b[o + 1] as u64) * 256 + b[o + 2] as u64
    } else {
        assert(8 * n + 4 * idx + 4 <= len);
        let o = (8 * n + 4 * idx) as usize;
        (b[o] as u64) * 16777216 + (b[o + 1] as u64) * 65536 + (b[o + 2] as u64) * 256
            + b[o + 3] as u64
    }
}

/// Tells whether the record `idx` of node `n` lies inside the bytes.
fn record_inside(b: &[u8], rs: u64, n: u64, idx: u64) -> (r: bool)
    requires
        good_record_size(rs as int),
        n < 0x1_0000_0000,
        idx < 2,
    ensures
        r == (record_end(rs as int, n as int, idx as int) <= b@.len()),
{
    let end: u64 = if rs == 24 {
        6 * n + 3 * idx + 3
    } else if rs == 28 {
        if idx == 0 {
            7 * n + 4
        } else {
            7 * n + 7
        }
    } else {
        8 * n + 4 * idx + 4
    };
    end <= b.len() as u64
}

/// The node where the IPv4 addresses of a tree of IPv6 addresses start:
/// following the left records from `node` for at most `k` steps or until a
/// node past the tree; `None` where a record read lies outside the bytes.
pub open spec fn ipv4_start_from(b: Seq<u8>, nc: int, rs: int, node: int, k: nat) -> Option<int>
    decreases k,
{
    if k == 0 || node >= nc {
        Some(node)
    } else if record_end(rs, node, 0) > b.len() {
        None
    } else {
        ipv4_start_from(b, nc, rs, record(b, rs, node, 0), (k - 1) as nat)
    }
}

/// Finds [`ipv4_start_from`] from node 0 over 96 steps.
fn ipv4_start_exec(b: &[u8], nc: u64, rs: u64) -> (r: Option<u64>)
    requires
        good_record_size(rs as int),
        nc < 0x1_0000_0000,
    ensures
        match r {
            Some(s) => ipv4_start_from(b@, nc as int, rs as int, 0, 96) == Some(s as int),
            None => ipv4_start_from(b@, nc as int, rs as int, 0, 96) is None,
        },
{
    let mut node: u64 = 0;
    let mut k: u64 = 96;
    while k > 0
        invariant
            k <= 96,
            good_record_size(rs as int),
            nc < 0x1_0000_0000,
            ipv4_start_from(b@, nc as int, rs as int, 0, 96) == ipv4_start_from(
                b@,
                nc as int,
                rs as int,
                node as int,
                k as nat,
            ),
        decreases k,
    {
        if node >= nc {
            return Some(node);
        }
        if !record_inside(b, rs, node, 0) {
            return None;
        }
        node = read_record(b, rs, node, 0);
        k = k - 1;
    }
    Some(node)
}

/// Whether opening a database reads only inside its bytes: it has no
/// metadata (which is reported as such), or its metadata decodes inside the
/// bytes and, where decoding it yields a tree of IPv6 addresses with a record
/// size that can be read, the left records followed from the root to the
/// start of the IPv4 addresses lie inside the bytes.
pub open spec fn opens_safely(b: Seq<u8>) -> bool {
    match metadata_start(b) {
        None => true,
        Some(s) => {
            let m = b.subrange(s, b.len() as int);
            &&& walk(m, 0, NESTING as nat) is Some
            &&& meta_field(m, ip_version_key(), 5, 0xffff) matches Some(ipv)
            &&& meta_field(m, node_count_key(), 7, 0xffff_ffff) matches Some(nc)
            &&& meta_field(m, record_size_key(), 8, 0xffff) matches Some(rs)
            &&& (ipv == Some(6int) && nc is Some && rs is Some && good_record_size(rs->0))
                ==> ipv4_start_from(b, nc->0, rs->0, 0, 96) is Some
        },
    }
}

/// Tells [`opens_safely`].
pub fn check_opens(b: &[u8]) -> (ok: bool)
    ensures
        ok == opens_safely(b@),
{
    let s = match find_metadata_start(b) {
        None => {
            return true;
        },
        Some(s) => s,
    };
    let m = vstd::slice::slice_subrange(b, s, b.len());
    if walk_value(m, 0, NESTING).is_none() {
        return false;
    }
    let ik = ip_version_key_bytes();
    let nk = node_count_key_bytes();
    let rk = record_size_key_bytes();
    let ipv = match meta_field_exec(m, ik.as_slice(), 5, 0xffff) {
        None => {
            return false;
        },
        Some(v) => v,
    };
    let nc = match meta_field_exec(m, nk.as_slice(), 7, 0xffff_ffff) {
        None => {
            return false;
        },
        Some(v) => v,
    };
    let rs = match meta_field_exec(m, rk.as_slice(), 8, 0xffff) {
        None => {
            return false;
        },
        Some(v) => v,
    };
    match (ipv, nc, rs) {
        (Some(6), Some(n), Some(r)) => {
            if r == 24 || r == 28 || r == 32 {
                ipv4_start_exec(b, n, r).is_some()
            } else {
                true
            }
        },
        _ => true,
    }
}

/// Where the data section starts: after the search tree and the sixteen
/// bytes that separate them.
pub open spec fn data_start(nc: int, rs: int) -> int {
    nc * rs / 4 + 16
}

/// The data section of a database with the given search tree.
pub open spec fn data_section(b: Seq<u8>, nc: int, rs: int) -> Seq<u8> {
    b.subrange(data_start(nc, rs), b.len() as int)
}

/// The number of bits of an address.
pub open spec fn ip_bits(ip: IpAddress) -> nat {
    match ip {
        IpAddress::V4(_) => 32,
        IpAddress::V6(_) => 128,
    }
}

/// Bit `i` of an address, from the most significant.
pub open spec fn ip_bit(ip: IpAddress, i: int) -> int {
    match ip {
        IpAddress::V4(v) => ((v >> ((31 - i) as u32)) & 1u32) as int,
        IpAddress::V6(v) => ((v >> ((127 - i) as u32)) & 1u128) as int,
    }
}

/// The node that looking an address up ends on, going down the tree from
/// `node` by the address's bits from bit `i` until a node past the tree or the
/// last bit; `None` where a record read lies outside the bytes.
pub open spec fn tree_path(b: Seq<u8>, nc: int, rs: int, ip: IpAddress, node: int, i: nat) -> Option<int>
    decreases ip_bits(ip) - i,
{
    if i >= ip_bits(ip) || node >= nc {
        Some(node)
    } else if record_end(rs, node, ip_bit(ip, i as int)) > b.len() {
        None
    } else {
        tree_path(b, nc, rs, ip, record(b, rs, node, ip_bit(ip, i as int)), i + 1)
    }
}

/// Finds [`tree_path`] from the bit `0`.
fn tree_path_exec(b: &[u8], nc: u64, rs: u64, ip: IpAddress, start: u64) -> (r: Option<u64>)
    requires
        good_record_size(rs as int),
        nc < 0x1_0000_0000,
    ensures
        match r {
            Some(n) => tree_path(b@, nc as int, rs as int, ip, start as int, 0) == Some(n as int),
            None => tree_path(b@, nc as int, rs as int, ip, start as int, 0) is None,
        },
{
    let bits: u32 = match ip {
        IpAddress::V4(_) => 32,
        IpAddress::V6(_) => 128,
    };
    let mut node = start;
    let mut i: u32 = 0;
    while i < bits
        invariant
            i <= bits,
            bits == ip_bits(ip),
            good_record_size(rs as int),
            nc < 0x1_0000_0000,
            tree_path(b@, nc as int, rs as int, ip, start as int, 0) == tree_path(
                b@,
                nc as int,
                rs as int,
                ip,
                node as int,
                i as nat,
            ),
        decreases bits - i,
    {
        if node >= nc {
            return Some(node);
        }
        let bit: u64 = match ip {
            IpAddress::V4(v) => {
                let sh: u32 = 31 - i;
                let x = (v >> sh) & 1;
                assert(x < 2) by (bit_vector)
                    requires
                        x == (v >> sh) & 1u32,
                ;
                x as u64
            },
            IpAddress::V6(v) => {
                let sh: u32 = 127 - i;
                let x = (v >> sh) & 1;
                assert(x < 2) by (bit_vector)
                    requires
                        x == (v >> sh) & 1u128,
                ;
                x as u64
            },
        };
        assert(bit == ip_bit(ip, i as int));
        if !record_inside(b, rs, node, bit) {
            return None;
        }
        node = read_record(b, rs, node, bit);
        i = i + 1;
    }
    Some(node)
}

/// Whether looking the address up, in a database whose metadata declares
/// `node_count`, `record_size` and `ip_version` as in `shape`, reads only
/// inside the bytes: the start node for an IPv4 address, the path down the
/// tree, and, where it ends on data at most the length of the bytes past the
/// node count and sixteen (further is reported as an error), the start of the
/// data section and the value there.
pub open spec fn lookup_safe(b: Seq<u8>, shape: (u32, u16, u16), ip: IpAddress) -> bool {
    let nc = shape.0 as int;
    let rs = shape.1 as int;
    let ipv = shape.2 as int;
    good_record_size(rs) ==> {
        let start = match ip {
            IpAddress::V6(_) => Some(0int),
            IpAddress::V4(_) => if ipv == 6 {
                ipv4_start_from(b, nc, rs, 0, 96)
            } else {
                Some(0int)
            },
        };
        match start {
            None => false,
            Some(s) => match tree_path(b, nc, rs, ip, s, 0) {
                None => false,
                Some(node) => node <= nc || (nc + 16 <= node && (node - nc - 16 > b.len() || (data_start(
                    nc,
                    rs,
                ) <= b.len() && walk(data_section(b, nc, rs), node - nc - 16, NESTING as nat) is Some))),
            },
        }
    }
}

/// Tells [`lookup_safe`].
pub fn check_lookup(b: &[u8], shape: (u32, u16, u16), ip: IpAddress) -> (ok: bool)
    ensures
        ok == lookup_safe(b@, shape, ip),
{
    let nc = shape.0 as u64;
    let rs = shape.1 as u64;
    let ipv = shape.2;
    if !(rs == 24 || rs == 28 || rs == 32) {
        return true;
    }
    let start = match ip {
        IpAddress::V6(_) => 0,
        IpAddress::V4(_) => if ipv == 6 {
            match ipv4_start_exec(b, nc, rs) {
                None => {
                    return false;
                },
                Some(s) => s,
            }
        } else {
            0
        },
    };
    let node = match tree_path_exec(b, nc, rs, ip, start) {
        None => {
            return false;
        },
        Some(n) => n,
    };
    if node <= nc {
        return true;
    }
    if node < nc + 16 {
        return false;
    }
    let rec = node - nc - 16;
    if rec > b.len() as u64 {
        return true;
    }
    let ds = nc * rs / 4 + 16;
    if ds > b.len() as u64 {
        return false;
    }
    let data = vstd::slice::slice_subrange(b, ds as usize, b.len());
    if rec >= data.len() as u64 {
        assert(walk(data@, rec as int, NESTING as nat) is None);
        return false;
    }
    walk_value(data, rec as usize, NESTING).is_some()
}

/// In a one-node tree of 24-bit records whose left record is 17 (the first
/// data record) and whose data section starts with an empty map, looking up
/// any IPv4 address whose first bit is 0 reads only inside the bytes.
pub proof fn lemma_one_node_lookup_safe(b: Seq<u8>, v: u32)
    requires
        b.len() >= 23,
        b[0] == 0,
        b[1] == 0,
        b[2] == 17,
        b[22] == 0xE0,
        v < 0x8000_0000,
    ensures
        lookup_safe(b, (1u32, 24u16, 4u16), IpAddress::V4(v)),
{
    lemma_be_small(b, 0);
    let sh: u32 = 31;
    assert(((v >> sh) & 1u32) == 0) by (bit_vector)
        requires
            v < 0x8000_0000,
            sh == 31,
    ;
    assert(ip_bit(IpAddress::V4(v), 0) == 0);
    assert(record(b, 24, 0, 0) == 17);
    assert(tree_path(b, 1, 24, IpAddress::V4(v), 17, 1) == Some(17int));
    assert(tree_path(b, 1, 24, IpAddress::V4(v), 0, 0) == Some(17int));
    let d = data_section(b, 1, 24);
    assert(data_start(1, 24) == 22);
    assert(d[0] == 0xE0);
    assert(walk_items(d, 1, 0, (NESTING - 1) as nat) == Some(1int));
    assert(walk(d, 0, NESTING as nat) == Some(1int));
}

} // verus!
