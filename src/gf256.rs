//! Arithmetic in GF(256), the field of the Reed–Solomon code, and division of
//! a message by a generator polynomial.

use vstd::prelude::*;

verus! {

/// Field value of α^e, looked up at `e % 255`.
pub const LOG: [u8; 256] = [
    1, 2, 4, 8, 16, 32, 64, 128, 29, 58, 116, 232, 205, 135, 19, 38, 76, 152, 45, 90, 180, 117,
    234, 201, 143, 3, 6, 12, 24, 48, 96, 192, 157, 39, 78, 156, 37, 74, 148, 53, 106, 212, 181,
    119, 238, 193, 159, 35, 70, 140, 5, 10, 20, 40, 80, 160, 93, 186, 105, 210, 185, 111, 222,
    161, 95, 190, 97, 194, 153, 47, 94, 188, 101, 202, 137, 15, 30, 60, 120, 240, 253, 231,
    211, 187, 107, 214, 177, 127, 254, 225, 223, 163, 91, 182, 113, 226, 217, 175, 67, 134, 17,
    34, 68, 136, 13, 26, 52, 104, 208, 189, 103, 206, 129, 31, 62, 124, 248, 237, 199, 147, 59,
    118, 236, 197, 151, 51, 102, 204, 133, 23, 46, 92, 184, 109, 218, 169, 79, 158, 33, 66,
    132, 21, 42, 84, 168, 77, 154, 41, 82, 164, 85, 170, 73, 146, 57, 114, 228, 213, 183, 115,
    230, 209, 191, 99, 198, 145, 63, 126, 252, 229, 215, 179, 123, 246, 241, 255, 227, 219,
    171, 75, 150, 49, 98, 196, 149, 55, 110, 220, 165, 87, 174, 65, 130, 25, 50, 100, 200, 141,
    7, 14, 28, 56, 112, 224, 221, 167, 83, 166, 81, 162, 89, 178, 121, 242, 249, 239, 195, 155,
    43, 86, 172, 69, 138, 9, 18, 36, 72, 144, 61, 122, 244, 245, 247, 243, 251, 235, 203, 139,
    11, 22, 44, 88, 176, 125, 250, 233, 207, 131, 27, 54, 108, 216, 173, 71, 142, 1,
];

/// Exponent `e` of a nonzero field value `v = α^e`; index 0 is unused.
pub const ANTILOG: [u8; 256] = [
    175, 0, 1, 25, 2, 50, 26, 198, 3, 223, 51, 238, 27, 104, 199, 75, 4, 100, 224, 14, 52, 141,
    239, 129, 28, 193, 105, 248, 200, 8, 76, 113, 5, 138, 101, 47, 225, 36, 15, 33, 53, 147,
    142, 218, 240, 18, 130, 69, 29, 181, 194, 125, 106, 39, 249, 185, 201, 154, 9, 120, 77,
    228, 114, 166, 6, 191, 139, 98, 102, 221, 48, 253, 226, 152, 37, 179, 16, 145, 34, 136, 54,
    208, 148, 206, 143, 150, 219, 189, 241, 210, 19, 92, 131, 56, 70, 64, 30, 66, 182, 163,
    195, 72, 126, 110, 107, 58, 40, 84, 250, 133, 186, 61, 202, 94, 155, 159, 10, 21, 121, 43,
    78, 212, 229, 172, 115, 243, 167, 87, 7, 112, 192, 247, 140, 128, 99, 13, 103, 74, 222,
    237, 49, 197, 254, 24, 227, 165, 153, 119, 38, 184, 180, 124, 17, 68, 146, 217, 35, 32,
    137, 46, 55, 63, 209, 91, 149, 188, 207, 205, 144, 135, 151, 178, 220, 252, 190, 97, 242,
    86, 211, 171, 20, 42, 93, 158, 132, 60, 57, 83, 71, 109, 65, 162, 31, 45, 67, 216, 183,
    123, 164, 118, 196, 23, 73, 236, 127, 12, 111, 246, 108, 161, 59, 82, 41, 157, 85, 170,
    251, 96, 134, 177, 187, 204, 62, 90, 203, 89, 95, 176, 156, 169, 160, 81, 11, 245, 22, 235,
    122, 117, 44, 215, 79, 174, 213, 233, 230, 231, 173, 232, 116, 214, 244, 234, 168, 80, 88,
    175,
];

/// `buf` with `by` (exponents, leading one first) scaled to cancel position `i`
/// and added at `i`: one step of long division. A zero at `i` needs no step.
pub open spec fn eliminate(buf: Seq<u8>, by: Seq<u8>, i: int) -> Seq<u8> {
    if buf[i] == 0 {
        buf
    } else {
        let alpha = ANTILOG@[buf[i] as int];
        Seq::new(
            buf.len(),
            |k: int|
                if i <= k < i + by.len() {
                    buf[k] ^ LOG@[(by[k - i] + alpha) % 255]
                } else {
                    buf[k]
                },
        )
    }
}

/// `buf` after the division steps at positions `0` to `n - 1`.
pub open spec fn divided(buf: Seq<u8>, by: Seq<u8>, n: nat) -> Seq<u8>
    decreases n,
{
    if n == 0 {
        buf
    } else {
        eliminate(divided(buf, by, (n - 1) as nat), by, n - 1)
    }
}

/// The message followed by room for the remainder: one zero per degree of `by`.
pub open spec fn padded(from: Seq<u8>, by: Seq<u8>) -> Seq<u8> {
    from + Seq::new((by.len() - 1) as nat, |k: int| 0u8)
}

/// Remainder of the message `from` divided by the generator `by` in GF(256):
/// the last `by.len() - 1` positions once every message position is divided out.
pub open spec fn remainder(from: Seq<u8>, by: Seq<u8>) -> Seq<u8> {
    let full = divided(padded(from, by), by, from.len());
    full.subrange(from.len() as int, full.len() as int)
}

/// Every division step keeps the length of the buffer.
proof fn lemma_divided_len(buf: Seq<u8>, by: Seq<u8>, n: nat)
    requires
        n <= buf.len(),
    ensures
        divided(buf, by, n).len() == buf.len(),
    decreases n,
{
    if n > 0 {
        lemma_divided_len(buf, by, (n - 1) as nat);
    }
}

/// Copies `from` and appends `height` zeros.
fn pad(from: &[u8], height: usize) -> (r: Vec<u8>)
    requires
        from@.len() + height <= usize::MAX,
    ensures
        r@ == from@ + Seq::new(height as nat, |k: int| 0u8),
{
    let mut buf: Vec<u8> = Vec::new();
    let mut k: usize = 0;
    while k < from.len()
        invariant
            k <= from@.len(),
            buf@ == from@.subrange(0, k as int),
        decreases from@.len() - k,
    {
        buf.push(from[k]);
        k = k + 1;
        assert(buf@ =~= from@.subrange(0, k as int));
    }
    let mut k: usize = 0;
    while k < height
        invariant
            k <= height,
            buf@ == from@ + Seq::new(k as nat, |x: int| 0u8),
        decreases height - k,
    {
        buf.push(0);
        k = k + 1;
        assert(buf@ =~= from@ + Seq::new(k as nat, |x: int| 0u8));
    }
    buf
}

/// Performs the division step at position `i` in place.
fn eliminate_at(buf: &mut Vec<u8>, by: &[u8], i: usize)
    requires
        by@.len() >= 1,
        i + by@.len() <= old(buf)@.len(),
    ensures
        final(buf)@ == eliminate(old(buf)@, by@, i as int),
{
    if buf[i] != 0 {
        let alpha = ANTILOG[buf[i] as usize];
        let ghost before = buf@;
        let n = buf.len();
        let mut j: usize = 0;
        while j < by.len()
            invariant
                j <= by@.len(),
                i + by@.len() <= before.len(),
                before.len() == n,
                before[i as int] != 0,
                alpha == ANTILOG@[before[i as int] as int],
                buf@.len() == before.len(),
                forall|x: int|
                    0 <= x < before.len() ==> #[trigger] buf@[x] == if i <= x < i + j {
                        before[x] ^ LOG@[(by@[x - i] + alpha) % 255]
                    } else {
                        before[x]
                    },
            decreases by@.len() - j,
        {
            let tmp = by[j] as usize + alpha as usize;
            let v = buf[i + j] ^ LOG[tmp % 255];
            buf.set(i + j, v);
            j = j + 1;
        }
        assert(buf@ =~= eliminate(before, by@, i as int));
    }
}

/// Copies `buf` from position `start` on.
fn tail(buf: &Vec<u8>, start: usize) -> (r: Vec<u8>)
    requires
        start <= buf@.len(),
    ensures
        r@ == buf@.subrange(start as int, buf@.len() as int),
{
    let mut r: Vec<u8> = Vec::new();
    let mut k: usize = start;
    while k < buf.len()
        invariant
            start <= k <= buf@.len(),
            r@ == buf@.subrange(start as int, k as int),
        decreases buf@.len() - k,
    {
        r.push(buf[k]);
        k = k + 1;
        assert(r@ =~= buf@.subrange(start as int, k as int));
    }
    r
}

/// Divides the message `from` by the generator polynomial `by` (exponents of α,
/// leading coefficient first) in GF(256) and returns the remainder: the error
/// correction codewords of `from`.
pub fn division(from: &[u8], by: &[u8]) -> (r: Vec<u8>)
    requires
        by@.len() >= 1,
        from@.len() + by@.len() <= usize::MAX,
    ensures
        r@ == remainder(from@, by@),
        r@.len() == by@.len() - 1,
{
    let mut buf = pad(from, by.len() - 1);
    let ghost start = padded(from@, by@);
    assert(buf@ =~= start);
    let mut i: usize = 0;
    while i < from.len()
        invariant
            i <= from@.len(),
            start == padded(from@, by@),
            start.len() == from@.len() + by@.len() - 1,
            buf@ == divided(start, by@, i as nat),
        decreases from@.len() - i,
    {
        proof {
            lemma_divided_len(start, by@, i as nat);
        }
        eliminate_at(&mut buf, by, i);
        i = i + 1;
    }
    proof {
        lemma_divided_len(start, by@, from@.len());
    }
    tail(&buf, from.len())
}


/// Dividing a message of zeros leaves a remainder of zeros: the zero
/// polynomial is a multiple of every generator.
pub proof fn lemma_zero_message(from: Seq<u8>, by: Seq<u8>)
    requires
        by.len() >= 1,
        forall|i: int| 0 <= i < from.len() ==> from[i] == 0,
    ensures
        remainder(from, by) == Seq::new((by.len() - 1) as nat, |k: int| 0u8),
{
    let start = padded(from, by);
    assert(forall|i: int| 0 <= i < start.len() ==> start[i] == 0);
    lemma_zero_buffer_stays(start, by, from.len());
    assert(remainder(from, by) =~= Seq::new((by.len() - 1) as nat, |k: int| 0u8));
}

/// Division steps change nothing in a buffer of zeros.
proof fn lemma_zero_buffer_stays(buf: Seq<u8>, by: Seq<u8>, n: nat)
    requires
        n <= buf.len(),
        forall|i: int| 0 <= i < buf.len() ==> buf[i] == 0,
    ensures
        divided(buf, by, n) == buf,
    decreases n,
{
    if n > 0 {
        lemma_zero_buffer_stays(buf, by, (n - 1) as nat);
    }
}

} // verus!
