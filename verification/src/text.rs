//! Text stored in Modbus registers: two bytes per register, high byte first,
//! ended by the first zero byte, decoded as UTF-8 and trimmed.
use vstd::prelude::*;
use vstd::utf8::{valid_utf8, decode_utf8};

verus! {

/// The bytes of a run of registers, each register high byte first.
pub open spec fn be_bytes(regs: Seq<u16>) -> Seq<u8> {
    Seq::new(
        2 * regs.len(),
        |i: int|
            if i % 2 == 0 {
                (regs[i / 2] / 256) as u8
            } else {
                (regs[i / 2] % 256) as u8
            },
    )
}

/// `k` is where the text in `bytes` ends: at the first zero byte, or at the
/// end when there is none.
pub open spec fn is_text_end(bytes: Seq<u8>, k: int) -> bool {
    &&& 0 <= k <= bytes.len()
    &&& forall|j: int| 0 <= j < k ==> bytes[j] != 0
    &&& k == bytes.len() || bytes[k] == 0
}

/// The bytes before the first zero byte.
pub open spec fn until_nul(bytes: Seq<u8>) -> Seq<u8> {
    bytes.take(choose|k: int| is_text_end(bytes, k))
}

/// The text bytes held by a run of registers.
pub open spec fn text_bytes(regs: Seq<u16>) -> Seq<u8> {
    until_nul(be_bytes(regs))
}

/// The characters that carry Unicode's `White_Space` property.
pub open spec fn is_white_space(c: char) -> bool {
    ||| '\u{9}' <= c <= '\u{d}'
    ||| c == ' '
    ||| c == '\u{85}'
    ||| c == '\u{a0}'
    ||| c == '\u{1680}'
    ||| '\u{2000}' <= c <= '\u{200a}'
    ||| c == '\u{2028}'
    ||| c == '\u{2029}'
    ||| c == '\u{202f}'
    ||| c == '\u{205f}'
    ||| c == '\u{3000}'
}

/// `s` without its leading white space.
pub open spec fn trim_start(s: Seq<char>) -> Seq<char>
    decreases s.len(),
{
    if s.len() > 0 && is_white_space(s[0]) {
        trim_start(s.drop_first())
    } else {
        s
    }
}

/// `s` without its trailing white space.
pub open spec fn trim_end(s: Seq<char>) -> Seq<char>
    decreases s.len(),
{
    if s.len() > 0 && is_white_space(s.last()) {
        trim_end(s.drop_last())
    } else {
        s
    }
}

/// `s` without its leading and trailing white space.
pub open spec fn trimmed(s: Seq<char>) -> Seq<char> {
    trim_end(trim_start(s))
}

/// What `String::from_utf8_lossy` makes of `bytes`.
pub uninterp spec fn utf8_lossy(bytes: Seq<u8>) -> Seq<char>;

/// The text that a run of registers holds.
pub open spec fn decoded_text(regs: Seq<u16>) -> Seq<char> {
    trimmed(utf8_lossy(text_bytes(regs)))
}

/// Calls `String::from_utf8_lossy`, which decodes UTF-8 and puts U+FFFD in
/// place of each invalid sequence. Claimed: the result is a function of the
/// bytes alone (named `utf8_lossy`), and bytes that are valid UTF-8 decode to
/// exactly their characters, as std's documentation says. What an invalid
/// sequence becomes is left unsaid.
#[verifier::external_body]
fn utf8_lossy_string(bytes: &[u8]) -> (res: String)
    ensures
        res@ == utf8_lossy(bytes@),
        valid_utf8(bytes@) ==> res@ == decode_utf8(bytes@),
{
    String::from_utf8_lossy(bytes).into_owned()
}

/// Calls `str::trim`, which removes leading and trailing characters that have
/// Unicode's `White_Space` property. Claimed: the result is exactly `s`
/// without them.
#[verifier::external_body]
pub(crate) fn trim_text(s: &str) -> (res: &str)
    ensures
        res@ == trimmed(s@),
{
    s.trim()
}

/// The text bytes of a run of registers: their bytes, high byte first, up to
/// the first zero byte.
pub fn text_bytes_of(registers: &[u16]) -> (res: Vec<u8>)
    ensures
        res@ == text_bytes(registers@),
        forall|k: int| is_text_end(be_bytes(registers@), k) ==> res@ == be_bytes(registers@).take(k),
        res@.len() <= 2 * registers@.len(),
        forall|j: int|
            0 <= j < res@.len() ==> #[trigger] res@[j] != 0 && res@[j] as int == (if j % 2 == 0 {
                registers@[j / 2] as int / 256
            } else {
                registers@[j / 2] as int % 256
            }),
        res@.len() == 2 * registers@.len() || (if res@.len() % 2 == 0 {
            registers@[(res@.len() / 2) as int] / 256
        } else {
            registers@[(res@.len() / 2) as int] % 256
        }) == 0,
{
    let ghost all = be_bytes(registers@);
    let mut out: Vec<u8> = Vec::new();
    let mut i: usize = 0;
    let mut ended = false;
    while i < registers.len() && !ended
        invariant
            i <= registers.len(),
            all == be_bytes(registers@),
            out@.len() <= 2 * i,
            out@ == all.take(out@.len() as int),
            forall|j: int| 0 <= j < out@.len() ==> all[j] != 0,
            !ended ==> out@.len() == 2 * i,
            ended ==> out@.len() < all.len() && all[out@.len() as int] == 0,
        decreases registers.len() - i,
    {
        let r = registers[i];
        let high: u8 = (r / 256) as u8;
        let low: u8 = (r % 256) as u8;
        assert(all[2 * i as int] == high);
        assert(all[2 * i + 1] == low);
        if high == 0 {
            ended = true;
        } else {
            out.push(high);
            assert(out@ =~= all.take(out@.len() as int));
            if low == 0 {
                ended = true;
            } else {
                out.push(low);
                assert(out@ =~= all.take(out@.len() as int));
            }
        }
        i = i + 1;
    }
    proof {
        let k = out@.len() as int;
        assert(is_text_end(all, k));
        lemma_text_end_unique(all, k);
        lemma_text_bytes_are_register_bytes(registers@);
    }
    out
}

/// The text of a run of registers is every register byte, high byte first,
/// before the first zero byte, however long: byte `j` of the text is the
/// high byte of register `j / 2` for even `j` and its low byte for odd `j`,
/// no text byte is zero, and the text stops only at the end of the registers
/// or at a zero byte.
pub proof fn lemma_text_bytes_are_register_bytes(regs: Seq<u16>)
    ensures
        forall|k: int| is_text_end(be_bytes(regs), k) ==> text_bytes(regs) == be_bytes(regs).take(k),
        text_bytes(regs).len() <= 2 * regs.len(),
        forall|j: int|
            0 <= j < text_bytes(regs).len() ==> #[trigger] text_bytes(regs)[j] != 0
                && text_bytes(regs)[j] as int == (if j % 2 == 0 {
                regs[j / 2] as int / 256
            } else {
                regs[j / 2] as int % 256
            }),
        text_bytes(regs).len() == 2 * regs.len() || (if text_bytes(regs).len() % 2 == 0 {
            regs[(text_bytes(regs).len() / 2) as int] / 256
        } else {
            regs[(text_bytes(regs).len() / 2) as int] % 256
        }) == 0,
{
    let b = be_bytes(regs);
    lemma_text_end_exists(b);
    let k = choose|k: int| is_text_end(b, k);
    lemma_text_end_unique(b, k);
    assert forall|m: int| is_text_end(b, m) implies text_bytes(regs) == b.take(m) by {
        lemma_text_end_unique(b, m);
    }
    let t = text_bytes(regs);
    assert(t.len() == k);
    assert forall|j: int| 0 <= j < t.len() implies #[trigger] t[j] != 0 && t[j] as int == (if j % 2 == 0 {
        regs[j / 2] as int / 256
    } else {
        regs[j / 2] as int % 256
    }) by {
        assert(t[j] == b[j]);
    }
    if k < b.len() {
        assert(b[k] == 0);
    }
}

/// There is exactly one place where the text ends.
proof fn lemma_text_end_unique(bytes: Seq<u8>, k: int)
    requires
        is_text_end(bytes, k),
    ensures
        until_nul(bytes) == bytes.take(k),
{
    let c = choose|m: int| is_text_end(bytes, m);
    assert(is_text_end(bytes, c));
    if c < k {
        assert(bytes[c] != 0);
    } else if k < c {
        assert(bytes[k] != 0);
    }
}

/// Trims what the UTF-8 decoding of register text gave back.
pub fn finish_text(decoded: &str) -> (res: String)
    ensures
        res@ == trimmed(decoded@),
{
    trim_text(decoded).to_owned()
}

/// Decodes the text held by a run of registers: their bytes, high byte first,
/// up to the first zero byte, decoded as UTF-8 (invalid sequences replaced)
/// and trimmed of surrounding white space.
pub fn decode_string(registers: &[u16]) -> (res: String)
    ensures
        res@ == decoded_text(registers@),
        valid_utf8(text_bytes(registers@)) ==> res@ == trimmed(decode_utf8(text_bytes(registers@))),
{
    let bytes = text_bytes_of(registers);
    let decoded = utf8_lossy_string(bytes.as_slice());
    finish_text(decoded.as_str())
}

proof fn lemma_trim_start_shape(s: Seq<char>)
    ensures
        exists|i: int| 0 <= i <= s.len() && trim_start(s) == s.subrange(i, s.len() as int),
        trim_start(s).len() > 0 ==> !is_white_space(trim_start(s)[0]),
    decreases s.len(),
{
    if s.len() > 0 && is_white_space(s[0]) {
        lemma_trim_start_shape(s.drop_first());
        let i = choose|i: int|
            0 <= i <= s.drop_first().len() && trim_start(s.drop_first()) == s.drop_first().subrange(
                i,
                s.drop_first().len() as int,
            );
        assert(trim_start(s) == s.subrange(i + 1, s.len() as int));
    } else {
        assert(trim_start(s) == s.subrange(0, s.len() as int));
    }
}

proof fn lemma_trim_end_shape(s: Seq<char>)
    ensures
        exists|j: int| 0 <= j <= s.len() && trim_end(s) == s.subrange(0, j),
        trim_end(s).len() > 0 ==> !is_white_space(trim_end(s).last()),
        trim_end(s).len() > 0 && s.len() > 0 ==> trim_end(s)[0] == s[0],
    decreases s.len(),
{
    if s.len() > 0 && is_white_space(s.last()) {
        lemma_trim_end_shape(s.drop_last());
        let j = choose|j: int|
            0 <= j <= s.drop_last().len() && trim_end(s.drop_last()) == s.drop_last().subrange(
                0,
                j,
            );
        assert(trim_end(s) == s.subrange(0, j));
    } else {
        assert(trim_end(s) == s.subrange(0, s.len() as int));
    }
}

/// Trimmed text neither starts nor ends with white space, and is a
/// contiguous piece of the text it came from.
pub proof fn lemma_trimmed_has_no_outer_white_space(s: Seq<char>)
    ensures
        trimmed(s).len() > 0 ==> !is_white_space(trimmed(s)[0]),
        trimmed(s).len() > 0 ==> !is_white_space(trimmed(s).last()),
        exists|i: int, j: int| 0 <= i <= j <= s.len() && trimmed(s) == s.subrange(i, j),
{
    lemma_trim_start_shape(s);
    lemma_trim_end_shape(trim_start(s));
    let i = choose|i: int| 0 <= i <= s.len() && trim_start(s) == s.subrange(i, s.len() as int);
    let t = trim_start(s);
    let j = choose|j: int| 0 <= j <= t.len() && trim_end(t) == t.subrange(0, j);
    assert(trimmed(s) == s.subrange(i, i + j));
}

/// Decoded register text never starts or ends with white space.
pub proof fn lemma_decoded_text_is_trimmed(regs: Seq<u16>)
    ensures
        decoded_text(regs).len() > 0 ==> !is_white_space(decoded_text(regs)[0]),
        decoded_text(regs).len() > 0 ==> !is_white_space(decoded_text(regs).last()),
{
    lemma_trimmed_has_no_outer_white_space(utf8_lossy(text_bytes(regs)));
}

/// The text of a run of registers ends at the first zero byte: registers
/// after a register that holds a zero byte change nothing.
pub proof fn lemma_text_stops_at_nul(regs: Seq<u16>, more: Seq<u16>, k: int)
    requires
        0 <= k < regs.len(),
        regs[k] / 256 == 0 || regs[k] % 256 == 0,
    ensures
        text_bytes(regs + more) == text_bytes(regs),
{
    let a = be_bytes(regs);
    let b = be_bytes(regs + more);
    assert forall|j: int| 0 <= j < a.len() implies b[j] == a[j] by {
        assert((regs + more)[j / 2] == regs[j / 2]);
    }
    let z: int = if regs[k] / 256 == 0 {
        2 * k
    } else {
        2 * k + 1
    };
    assert(a[z] == 0);
    // the first zero byte of `a` lies at or before `z`
    let e = choose|m: int| is_text_end(a, m);
    lemma_text_end_exists(a);
    assert(is_text_end(a, e));
    assert(e <= z);
    assert(e < a.len());
    assert(is_text_end(b, e));
    lemma_text_end_unique(a, e);
    lemma_text_end_unique(b, e);
    assert(b.take(e) =~= a.take(e));
}

/// Every byte sequence has a place where its text ends.
proof fn lemma_text_end_exists(bytes: Seq<u8>)
    ensures
        exists|k: int| is_text_end(bytes, k),
    decreases bytes.len(),
{
    if bytes.len() == 0 {
        assert(is_text_end(bytes, 0));
    } else if bytes[0] == 0 {
        assert(is_text_end(bytes, 0));
    } else {
        lemma_text_end_exists(bytes.drop_first());
        let k = choose|k: int| is_text_end(bytes.drop_first(), k);
        assert forall|j: int| 0 <= j < k + 1 implies bytes[j] != 0 by {
            if j > 0 {
                assert(bytes[j] == bytes.drop_first()[j - 1]);
            }
        }
        assert(is_text_end(bytes, k + 1));
    }
}

} // verus!
