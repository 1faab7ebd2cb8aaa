//! Byte-level text helpers: decimal rendering and bounded, NUL-terminated writes into
//! caller-supplied buffers.
use vstd::prelude::*;

verus! {

/// ASCII digits of `n` in base ten, most significant first, with no leading zeros
/// (zero is rendered as a single `0`).
pub open spec fn decimal(n: nat) -> Seq<u8>
    decreases n,
{
    if n < 10 {
        seq![(48 + n) as u8]
    } else {
        decimal(n / 10).push((48 + n % 10) as u8)
    }
}

/// `buf` after writing `piece` at `pos`, dropping whatever falls past the end of `buf`.
pub open spec fn put(buf: Seq<u8>, pos: int, piece: Seq<u8>) -> Seq<u8> {
    Seq::new(
        buf.len(),
        |i: int|
            if pos <= i < pos + piece.len() {
                piece[i - pos]
            } else {
                buf[i]
            },
    )
}

/// Where a cursor at `pos` stands after writing `piece` into a buffer of `len` bytes.
pub open spec fn put_end(len: int, pos: int, piece: Seq<u8>) -> int {
    if pos + piece.len() <= len {
        pos + piece.len()
    } else {
        len
    }
}

/// `buf` after copying `text` into it as a C string: as much of `text` as leaves room for
/// the terminating NUL, then the NUL; the bytes after the NUL are left as they were. An
/// empty buffer is left empty.
pub open spec fn c_string_into(buf: Seq<u8>, text: Seq<u8>) -> Seq<u8> {
    if buf.len() == 0 {
        buf
    } else {
        let n = if text.len() < buf.len() {
            text.len() as int
        } else {
            buf.len() - 1
        };
        Seq::new(
            buf.len(),
            |i: int|
                if i < n {
                    text[i]
                } else if i == n {
                    0u8
                } else {
                    buf[i]
                },
        )
    }
}

/// Two consecutive truncating writes are one write of the concatenation.
pub proof fn lemma_put_concat(buf: Seq<u8>, pos: int, a: Seq<u8>, b: Seq<u8>)
    requires
        0 <= pos <= buf.len(),
    ensures
        put(put(buf, pos, a), put_end(buf.len() as int, pos, a), b) == put(buf, pos, a + b),
        put_end(buf.len() as int, put_end(buf.len() as int, pos, a), b) == put_end(
            buf.len() as int,
            pos,
            a + b,
        ),
{
    assert(put(put(buf, pos, a), put_end(buf.len() as int, pos, a), b) =~= put(buf, pos, a + b));
}

/// `buf`, read as a C string, is `s`: the bytes of `s`, none of them NUL, followed by a NUL
/// inside the buffer.
pub open spec fn holds_c_string(buf: Seq<u8>, s: Seq<u8>) -> bool {
    &&& s.len() < buf.len()
    &&& buf[s.len() as int] == 0
    &&& forall|i: int| 0 <= i < s.len() ==> buf[i] == s[i] && s[i] != 0
}

/// Ten to the power `k`.
pub open spec fn pow10(k: nat) -> nat
    decreases k,
{
    if k == 0 {
        1
    } else {
        10 * pow10((k - 1) as nat)
    }
}

/// Every byte of a decimal rendering is an ASCII digit.
pub proof fn lemma_decimal_digits(n: nat)
    ensures
        decimal(n).len() >= 1,
        forall|i: int| 0 <= i < decimal(n).len() ==> 48 <= #[trigger] decimal(n)[i] <= 57,
    decreases n,
{
    if n >= 10 {
        lemma_decimal_digits(n / 10);
    }
}

/// A number below `10^k` renders in at most `k` digits.
pub proof fn lemma_decimal_len(n: nat, k: nat)
    requires
        1 <= k,
        n < pow10(k),
    ensures
        decimal(n).len() <= k,
    decreases n,
{
    if n >= 10 {
        let p = pow10((k - 1) as nat);
        if k == 1 {
            assert(pow10(1) == 10) by {
                reveal_with_fuel(pow10, 2);
            }
        }
        assert(n / 10 < p) by (nonlinear_arith)
            requires
                n < 10 * p,
        ;
        lemma_decimal_len(n / 10, (k - 1) as nat);
    }
}

/// Copying a NUL-free text as a C string into a non-empty buffer leaves a C string that
/// reads back as the text, cut to the bytes that leave room for the NUL.
pub proof fn lemma_c_string_reads_back(buf: Seq<u8>, text: Seq<u8>)
    requires
        buf.len() > 0,
        forall|i: int| 0 <= i < text.len() ==> #[trigger] text[i] != 0,
    ensures
        holds_c_string(
            c_string_into(buf, text),
            text.take(
                if text.len() < buf.len() {
                    text.len() as int
                } else {
                    buf.len() - 1
                },
            ),
        ),
        text.len() < buf.len() ==> holds_c_string(c_string_into(buf, text), text),
        c_string_into(buf, text).len() == buf.len(),
        forall|i: int|
            text.len() < i < buf.len() ==> #[trigger] c_string_into(buf, text)[i] == buf[i],
{
    assert(text.take(text.len() as int) =~= text);
}

/// Writes `byte` at the cursor `pos` of `out` if there is room, and returns the new cursor.
pub(crate) fn put_byte(out: &mut [u8], pos: usize, byte: u8) -> (end: usize)
    requires
        pos <= old(out)@.len(),
    ensures
        final(out)@ == put(old(out)@, pos as int, seq![byte]),
        end == put_end(old(out)@.len() as int, pos as int, seq![byte]),
{
    if pos < out.len() {
        out[pos] = byte;
        assert(final(out)@ =~= put(old(out)@, pos as int, seq![byte]));
        pos + 1
    } else {
        assert(final(out)@ =~= put(old(out)@, pos as int, seq![byte]));
        pos
    }
}


/// Writes the decimal digits of `value` at the cursor `pos` of `out`, as far as they fit,
/// and returns the new cursor.
pub(crate) fn put_decimal(out: &mut [u8], pos: usize, value: u32) -> (end: usize)
    requires
        pos <= old(out)@.len(),
    ensures
        final(out)@ == put(old(out)@, pos as int, decimal(value as nat)),
        end == put_end(old(out)@.len() as int, pos as int, decimal(value as nat)),
    decreases value,
{
    let ghost before = out@;
    if value < 10 {
        put_byte(out, pos, 48 + value as u8)
    } else {
        let mid = put_decimal(out, pos, value / 10);
        let end = put_byte(out, mid, 48 + (value % 10) as u8);
        proof {
            lemma_put_concat(
                before,
                pos as int,
                decimal((value / 10) as nat),
                seq![(48 + value % 10) as u8],
            );
            assert(decimal((value / 10) as nat) + seq![(48 + value % 10) as u8] =~= decimal(
                value as nat,
            ));
        }
        end
    }
}


/// Ends the C string that `out` holds up to the cursor `pos`: writes the NUL at `pos`, or
/// over the last byte when the text filled the whole buffer.
pub(crate) fn terminate(
    out: &mut [u8],
    pos: usize,
    Ghost(orig): Ghost<Seq<u8>>,
    Ghost(text): Ghost<Seq<u8>>,
)
    requires
        old(out)@ == put(orig, 0, text),
        pos == put_end(orig.len() as int, 0, text),
    ensures
        final(out)@ == c_string_into(orig, text),
{
    let len = out.len();
    if len > 0 {
        let term = if pos < len { pos } else { len - 1 };
        out[term] = 0;
    }
    assert(final(out)@ =~= c_string_into(orig, text));
}

} // verus!
