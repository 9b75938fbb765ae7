//! The escape-continued variable-length code of SEI type and size fields.
//!
//! A value is written as a run of `0xFF` bytes, each worth 255, closed by one
//! byte below `0xFF` that adds its own value.

use vstd::prelude::*;

verus! {

/// The byte that announces that more bytes follow.
pub const ESCAPE: u8 = 0xFF;

/// How many consecutive escape bytes `s` holds from index `from` on.
pub open spec fn escape_run(s: Seq<u8>, from: int) -> nat
    decreases s.len() - from,
{
    if 0 <= from < s.len() && s[from] == ESCAPE {
        1 + escape_run(s, from + 1)
    } else {
        0
    }
}

/// One decoded value and where its code ends.
pub struct VlcRead {
    /// The decoded value.
    pub value: nat,
    /// The index just past the closing byte.
    pub next: int,
}

/// The value coded in `s` at index `from`; `None` when `s` ends before a
/// closing byte appears.
pub open spec fn vlc_decode(s: Seq<u8>, from: int) -> Option<VlcRead> {
    let run: nat = escape_run(s, from);
    if 0 <= from && from + run < s.len() {
        Some(VlcRead { value: (255 * run + s[from + run]) as nat, next: from + run + 1 })
    } else {
        None
    }
}

/// The sum of the bytes that a decoder reads from index `from` on.
pub open spec fn vlc_consumed_sum(s: Seq<u8>, from: int) -> nat {
    match vlc_decode(s, from) {
        Some(read) => read.value,
        None => 255 * escape_run(s, from),
    }
}

/// The bytes read from index `from` on sum to a value that a `u32` holds.
pub open spec fn vlc_fits(s: Seq<u8>, from: int) -> bool {
    vlc_consumed_sum(s, from) <= u32::MAX
}

/// The longest buffer in which no run of escape bytes can exceed a `u32`.
pub const VLC_SAFE_LEN: usize = 16_843_009;

/// Decodes one value from `data` at `*offset` and moves `*offset` past the
/// bytes read. Returns `None` when the data runs out before a closing byte;
/// the cursor then rests at the end of the data.
pub fn parse_vlc_value(data: &[u8], offset: &mut usize) -> (result: Option<u32>)
    requires
        vlc_fits(data@, *old(offset) as int),
    ensures
        match vlc_decode(data@, *old(offset) as int) {
            Some(read) => result == Some(read.value as u32) && *final(offset) == read.next,
            None => result is None && *final(offset) == if *old(offset) <= data@.len() {
                data@.len()
            } else {
                *old(offset) as nat
            },
        },
{
    let ghost start: int = *offset as int;
    let mut value: u32 = 0;
    loop
        invariant_except_break
            start <= *offset,
            *offset <= data@.len() || *offset == start,
            escape_run(data@, start) == (*offset - start) + escape_run(data@, *offset as int),
            value == 255 * (*offset - start),
        invariant
            start == *old(offset),
            vlc_fits(data@, start),
        ensures
            vlc_decode(data@, start) == Some(
                (VlcRead { value: value as nat, next: *offset as int }),
            ),
        decreases data@.len() - *offset,
    {
        if *offset >= data.len() {
            return None;
        }
        let byte: u8 = data[*offset];
        *offset += 1;
        value += byte as u32;
        if byte != ESCAPE {
            break;
        }
    }
    Some(value)
}

/// The code of `value`: `value / 255` escape bytes and one closing byte.
pub open spec fn vlc_encoding(value: nat) -> Seq<u8> {
    Seq::new(value / 255, |i: int| ESCAPE).push((value % 255) as u8)
}

/// Appends the code of `value` to `out`.
pub fn encode_vlc_value(value: u32, out: &mut Vec<u8>)
    ensures
        final(out)@ == old(out)@ + vlc_encoding(value as nat),
{
    let mut rest: u32 = value;
    while rest >= 255
        invariant
            rest <= value,
            (value - rest) % 255 == 0,
            out@ == old(out)@ + Seq::new(((value - rest) / 255) as nat, |i: int| ESCAPE),
        decreases rest,
    {
        out.push(ESCAPE);
        rest -= 255;
    }
    out.push(rest as u8);
    assert(rest as nat == value as nat % 255 && (value - rest) / 255 == value as nat / 255) by {
        vstd::arithmetic::div_mod::lemma_fundamental_div_mod_converse(
            value as int,
            255,
            (value - rest) / 255,
            rest as int,
        );
    }
}

/// The sum of the bytes of `s`.
pub open spec fn byte_sum(s: Seq<u8>) -> nat
    decreases s.len(),
{
    if s.len() == 0 {
        0
    } else {
        s[0] as nat + byte_sum(s.skip(1))
    }
}

/// A run of escape bytes never reaches past the end of the data.
pub proof fn lemma_escape_run_bounds(s: Seq<u8>, from: int)
    ensures
        0 <= from <= s.len() ==> from + escape_run(s, from) <= s.len(),
        !(0 <= from < s.len()) ==> escape_run(s, from) == 0,
        forall|i: int| from <= i < from + escape_run(s, from) ==> s[i] == ESCAPE,
        0 <= from && from + escape_run(s, from) < s.len() ==> s[from + escape_run(s, from)]
            != ESCAPE,
    decreases s.len() - from,
{
    if 0 <= from < s.len() && s[from] == ESCAPE {
        lemma_escape_run_bounds(s, from + 1);
    }
}

/// A stretch of `run` escape bytes that a lower byte closes is a run of
/// exactly that length.
pub proof fn lemma_escape_run_closed(s: Seq<u8>, from: int, run: nat)
    requires
        0 <= from,
        from + run <= s.len(),
        forall|i: int| from <= i < from + run ==> s[i] == ESCAPE,
        from + run < s.len() ==> s[from + run] != ESCAPE,
    ensures
        escape_run(s, from) == run,
    decreases run,
{
    if run > 0 {
        lemma_escape_run_closed(s, from + 1, (run - 1) as nat);
    }
}

/// A run of `run` escape bytes followed by a closing byte `last` decodes to
/// `255 * run + last`, and the cursor moves by `run + 1`.
pub proof fn lemma_vlc_run_then_closing_byte(s: Seq<u8>, from: int, run: nat, last: u8)
    requires
        0 <= from,
        from + run < s.len(),
        forall|i: int| from <= i < from + run ==> s[i] == ESCAPE,
        s[from + run] == last,
        last != ESCAPE,
    ensures
        vlc_decode(s, from) == Some(
            (VlcRead { value: (255 * run + last) as nat, next: from + run + 1 }),
        ),
{
    lemma_escape_run_closed(s, from, run);
}

/// A decoded value is the sum of the bytes that were consumed for it.
pub proof fn lemma_vlc_value_is_sum_of_consumed(s: Seq<u8>, from: int)
    requires
        vlc_decode(s, from) is Some,
    ensures
        vlc_decode(s, from).unwrap().value == byte_sum(
            s.subrange(from, vlc_decode(s, from).unwrap().next),
        ),
    decreases s.len() - from,
{
    let next: int = vlc_decode(s, from).unwrap().next;
    let consumed: Seq<u8> = s.subrange(from, next);
    lemma_escape_run_bounds(s, from);
    if s[from] == ESCAPE {
        lemma_escape_run_bounds(s, from + 1);
        lemma_vlc_value_is_sum_of_consumed(s, from + 1);
        assert(consumed.skip(1) == s.subrange(from + 1, next));
    } else {
        assert(consumed.skip(1).len() == 0);
        assert(byte_sum(consumed.skip(1)) == 0);
    }
}

/// Decoding fails exactly when no byte below the escape value is left.
pub proof fn lemma_vlc_insufficient_iff_no_closing_byte(s: Seq<u8>, from: int)
    requires
        0 <= from,
    ensures
        vlc_decode(s, from) is None <==> forall|i: int| from <= i < s.len() ==> s[i] == ESCAPE,
{
    lemma_escape_run_bounds(s, from);
    if forall|i: int| from <= i < s.len() ==> s[i] == ESCAPE {
        if from <= s.len() {
            lemma_escape_run_closed(s, from, (s.len() - from) as nat);
        }
    }
}

/// A code cut short anywhere before its end no longer decodes.
pub proof fn lemma_vlc_truncated_is_insufficient(s: Seq<u8>, from: int, cut: int)
    requires
        vlc_decode(s, from) is Some,
        from <= cut < vlc_decode(s, from).unwrap().next,
    ensures
        vlc_decode(s.take(cut), from) is None,
{
    lemma_escape_run_bounds(s, from);
    lemma_vlc_insufficient_iff_no_closing_byte(s.take(cut), from);
}

/// Decoding the code of a value gives the value back, wherever the code
/// stands, and the cursor ends just behind the code.
pub proof fn lemma_vlc_decode_encoding(before: Seq<u8>, value: nat, after: Seq<u8>)
    ensures
        vlc_decode(before + vlc_encoding(value) + after, before.len() as int) == Some(
            (VlcRead { value, next: (before.len() + vlc_encoding(value).len()) as int }),
        ),
        vlc_encoding(value).len() == value / 255 + 1,
{
    let s: Seq<u8> = before + vlc_encoding(value) + after;
    let run: nat = value / 255;
    let last: u8 = (value % 255) as u8;
    assert(value == 255 * run + last) by {
        vstd::arithmetic::div_mod::lemma_fundamental_div_mod(value as int, 255);
    }
    assert forall|i: int| before.len() <= i < before.len() + run implies s[i] == ESCAPE by {
        assert(s[i] == vlc_encoding(value)[i - before.len()]);
    }
    assert(s[before.len() as int + run] == vlc_encoding(value)[run as int]);
    lemma_vlc_run_then_closing_byte(s, before.len() as int, run, last);
}

/// A value has one code only: the bytes that were decoded are the code of
/// the value they gave.
pub proof fn lemma_vlc_code_is_canonical(s: Seq<u8>, from: int)
    requires
        vlc_decode(s, from) is Some,
    ensures
        s.subrange(from, vlc_decode(s, from).unwrap().next) == vlc_encoding(
            vlc_decode(s, from).unwrap().value,
        ),
{
    let read: VlcRead = vlc_decode(s, from).unwrap();
    let run: nat = escape_run(s, from);
    lemma_escape_run_bounds(s, from);
    assert(read.value / 255 == run && read.value % 255 == s[from + run]) by {
        vstd::arithmetic::div_mod::lemma_fundamental_div_mod_converse(
            read.value as int,
            255,
            run as int,
            s[from + run] as int,
        );
    }
    assert(s.subrange(from, read.next) =~= vlc_encoding(read.value));
}

/// In a buffer of at most `VLC_SAFE_LEN` bytes every code fits.
pub proof fn lemma_vlc_fits_in_short_buffer(s: Seq<u8>, from: int)
    requires
        s.len() <= VLC_SAFE_LEN,
    ensures
        vlc_fits(s, from),
{
    lemma_escape_run_bounds(s, from);
}

} // verus!
