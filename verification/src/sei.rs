//! Supplemental enhancement information: the messages carried in one
//! side-channel buffer of a compressed unit.
//!
//! A message is a type and a size, each in the variable-length code, followed
//! by `size` payload bytes. Messages follow one another until the buffer is
//! used up; a message whose header is cut short or whose payload would reach
//! past the end closes the sequence.

use crate::vlc::{
    encode_vlc_value, lemma_vlc_code_is_canonical, lemma_vlc_decode_encoding,
    lemma_vlc_fits_in_short_buffer, parse_vlc_value, vlc_decode, vlc_encoding, vlc_fits, VlcRead,
    VLC_SAFE_LEN,
};
use vstd::prelude::*;

verus! {

/// A message as a mathematical value.
pub struct SeiMessageView {
    /// The payload type.
    pub payload_type: nat,
    /// The payload bytes.
    pub payload: Seq<u8>,
}

/// The first message of a buffer and what follows it.
pub struct SeiSplit {
    /// The message at the head of the buffer.
    pub message: SeiMessageView,
    /// The bytes behind its payload.
    pub remainder: Seq<u8>,
}

/// The first message of `s` and the rest of `s`; `None` when `s` does not
/// begin with a whole message.
pub open spec fn sei_split(s: Seq<u8>) -> Option<SeiSplit> {
    match vlc_decode(s, 0) {
        None => None,
        Some(ty) => match vlc_decode(s, ty.next) {
            None => None,
            Some(size) => if size.next + size.value <= s.len() {
                Some(
                    SeiSplit {
                        message: SeiMessageView {
                            payload_type: ty.value,
                            payload: s.subrange(size.next, size.next + size.value),
                        },
                        remainder: s.subrange(size.next + size.value, s.len() as int),
                    },
                )
            } else {
                None
            },
        },
    }
}

/// Both header fields at the head of `s` hold values that fit a `u32`.
pub open spec fn sei_header_fits(s: Seq<u8>) -> bool {
    &&& vlc_fits(s, 0)
    &&& vlc_decode(s, 0) matches Some(ty) ==> vlc_fits(s, ty.next)
}

/// Parses the message at the head of `data`. Returns its type, its declared
/// size, its payload and the bytes behind the payload, the two slices being
/// parts of `data`; `None` when a header field is cut short or the declared
/// size exceeds what is left.
pub fn parse_sei_message(data: &[u8]) -> (result: Option<(u32, u32, &[u8], &[u8])>)
    requires
        sei_header_fits(data@),
    ensures
        match sei_split(data@) {
            Some(split) => {
                &&& result matches Some((payload_type, payload_size, payload, remaining))
                &&& payload_type == split.message.payload_type
                &&& payload_size == split.message.payload.len()
                &&& payload@ == split.message.payload
                &&& remaining@ == split.remainder
            },
            None => result is None,
        },
{
    let mut offset: usize = 0;
    let payload_type: u32 = match parse_vlc_value(data, &mut offset) {
        Some(value) => value,
        None => { return None; },
    };
    let payload_size: u32 = match parse_vlc_value(data, &mut offset) {
        Some(value) => value,
        None => { return None; },
    };
    if payload_size as usize > data.len() - offset {
        return None;
    }
    let end: usize = offset + payload_size as usize;
    let payload_data: &[u8] = &data[offset..end];
    let remaining_data: &[u8] = &data[end..data.len()];
    Some((payload_type, payload_size, payload_data, remaining_data))
}

/// The messages of `s`, in order: scanning stops where no whole message
/// begins, be it the end of `s` or a malformed message.
pub open spec fn sei_scan(s: Seq<u8>) -> Seq<SeiMessageView>
    decreases s.len(),
{
    match sei_split(s) {
        None => Seq::empty(),
        Some(split) => seq![split.message] + sei_scan(split.remainder),
    }
}

/// Every header that a scan of `s` reads holds values that fit a `u32`.
pub open spec fn sei_scan_fits(s: Seq<u8>) -> bool
    decreases s.len(),
{
    &&& sei_header_fits(s)
    &&& sei_split(s) matches Some(split) ==> sei_scan_fits(split.remainder)
}

/// One scanned message: its type and its payload, a part of the scanned
/// buffer.
#[derive(Clone, Copy, Debug, PartialEq, Eq)]
pub struct SeiMessage<'a> {
    /// The payload type.
    pub payload_type: u32,
    /// The payload bytes.
    pub payload: &'a [u8],
}

impl<'a> View for SeiMessage<'a> {
    type V = SeiMessageView;

    open spec fn view(&self) -> SeiMessageView {
        SeiMessageView { payload_type: self.payload_type as nat, payload: self.payload@ }
    }
}

/// A scan in progress over one side-channel buffer. It hands out the
/// messages one at a time, front to back, and cannot be rewound.
pub struct SeiScanner<'a> {
    rest: &'a [u8],
}

impl<'a> SeiScanner<'a> {
    /// The bytes not yet scanned.
    pub closed spec fn unread(&self) -> Seq<u8> {
        self.rest@
    }

    /// The messages still to come.
    pub open spec fn pending(&self) -> Seq<SeiMessageView> {
        sei_scan(self.unread())
    }

    #[verifier::type_invariant]
    spec fn header_sums_fit(&self) -> bool {
        sei_scan_fits(self.rest@)
    }

    /// Starts a scan at the head of `buffer`.
    pub fn new(buffer: &'a [u8]) -> (scanner: Self)
        requires
            sei_scan_fits(buffer@),
        ensures
            scanner.unread() == buffer@,
    {
        SeiScanner { rest: buffer }
    }

    /// Hands out the next message, or `None` once the buffer is exhausted or
    /// malformed; after `None` nothing more comes.
    pub fn next_message(&mut self) -> (message: Option<SeiMessage<'a>>)
        ensures
            match sei_split(old(self).unread()) {
                Some(split) => {
                    &&& message matches Some(m)
                    &&& m@ == split.message
                    &&& final(self).unread() == split.remainder
                },
                None => message is None && final(self).unread() == Seq::<u8>::empty(),
            },
            old(self).pending().len() > 0 ==> final(self).pending() == old(self).pending().skip(1),
            old(self).pending().len() == 0 ==> final(self).pending().len() == 0,
            message is Some ==> final(self).unread().len() < old(self).unread().len(),
    {
        proof {
            use_type_invariant(&*self);
        }
        match parse_sei_message(self.rest) {
            Some((payload_type, _, payload, remaining)) => {
                proof {
                    assert(old(self).pending().skip(1) == sei_scan(remaining@));
                }
                self.rest = remaining;
                Some(SeiMessage { payload_type, payload })
            },
            None => {
                let end: usize = self.rest.len();
                self.rest = &self.rest[end..end];
                proof {
                    lemma_vlc_fits_in_short_buffer(self.rest@, 0);
                }
                None
            },
        }
    }
}

/// The bytes of one message: type, payload length, payload.
pub open spec fn sei_encoding(message: SeiMessageView) -> Seq<u8> {
    vlc_encoding(message.payload_type) + vlc_encoding(message.payload.len()) + message.payload
}

/// The bytes of a sequence of messages, one behind the other.
pub open spec fn sei_stream(messages: Seq<SeiMessageView>) -> Seq<u8>
    decreases messages.len(),
{
    if messages.len() == 0 {
        Seq::empty()
    } else {
        sei_encoding(messages[0]) + sei_stream(messages.skip(1))
    }
}

/// Appends the bytes of one message to `out`.
pub fn encode_sei_message(payload_type: u32, payload: &[u8], out: &mut Vec<u8>)
    requires
        payload@.len() <= u32::MAX,
    ensures
        final(out)@ == old(out)@ + sei_encoding(
            (SeiMessageView { payload_type: payload_type as nat, payload: payload@ }),
        ),
{
    encode_vlc_value(payload_type, out);
    encode_vlc_value(payload.len() as u32, out);
    let mut i: usize = 0;
    while i < payload.len()
        invariant
            i <= payload@.len(),
            out@ == old(out)@ + vlc_encoding(payload_type as nat) + vlc_encoding(payload@.len())
                + payload@.take(i as int),
        decreases payload@.len() - i,
    {
        out.push(payload[i]);
        i += 1;
    }
    assert(payload@.take(i as int) == payload@);
}

/// A message followed by anything splits into that message and what
/// follows.
pub proof fn lemma_split_encoding(message: SeiMessageView, after: Seq<u8>)
    ensures
        sei_split(sei_encoding(message) + after) == Some(SeiSplit { message, remainder: after }),
{
    let ty: Seq<u8> = vlc_encoding(message.payload_type);
    let size: Seq<u8> = vlc_encoding(message.payload.len());
    let s: Seq<u8> = sei_encoding(message) + after;
    lemma_vlc_decode_encoding(Seq::empty(), message.payload_type, size + message.payload + after);
    assert(s == Seq::<u8>::empty() + ty + (size + message.payload + after));
    lemma_vlc_decode_encoding(ty, message.payload.len(), message.payload + after);
    assert(s == ty + size + (message.payload + after));
    let start: int = (ty.len() + size.len()) as int;
    assert(s.subrange(start, start + message.payload.len()) == message.payload);
    assert(s.subrange(start + message.payload.len(), s.len() as int) == after);
}

/// Scanning the bytes of a sequence of messages gives the sequence back,
/// message for message and in order.
pub proof fn lemma_scan_of_stream(messages: Seq<SeiMessageView>)
    ensures
        sei_scan(sei_stream(messages)) == messages,
    decreases messages.len(),
{
    if messages.len() == 0 {
        assert(sei_split(Seq::<u8>::empty()) is None);
    } else {
        lemma_split_encoding(messages[0], sei_stream(messages.skip(1)));
        lemma_scan_of_stream(messages.skip(1));
        assert(seq![messages[0]] + messages.skip(1) == messages);
    }
}

/// A header that declares more payload than the buffer still holds ends the
/// scan: no message comes out of it.
pub proof fn lemma_oversized_payload_ends_scan(s: Seq<u8>)
    requires
        vlc_decode(s, 0) matches Some(ty) && vlc_decode(s, ty.next) matches Some(size) && size.next
            + size.value > s.len(),
    ensures
        sei_split(s) is None,
        sei_scan(s) == Seq::<SeiMessageView>::empty(),
{
}

/// The messages of a scan are read off the front of the buffer, byte for
/// byte: a scan never reaches past the end, and what it leaves unread does
/// not begin with a whole message.
pub proof fn lemma_scan_reads_a_prefix(s: Seq<u8>)
    ensures
        sei_stream(sei_scan(s)).is_prefix_of(s),
        sei_split(s.skip(sei_stream(sei_scan(s)).len() as int)) is None,
    decreases s.len(),
{
    match sei_split(s) {
        None => {
            assert(s.skip(0) == s);
        },
        Some(split) => {
            let ty: VlcRead = vlc_decode(s, 0).unwrap();
            let size: VlcRead = vlc_decode(s, ty.next).unwrap();
            let head: int = size.next + size.value;
            lemma_scan_reads_a_prefix(split.remainder);
            let scanned: Seq<SeiMessageView> = sei_scan(s);
            assert(scanned.skip(1) == sei_scan(split.remainder));
            lemma_vlc_code_is_canonical(s, 0);
            lemma_vlc_code_is_canonical(s, ty.next);
            let tail: Seq<u8> = sei_stream(sei_scan(split.remainder));
            assert(sei_stream(scanned) == sei_encoding(split.message) + tail);
            assert(sei_encoding(split.message) == s.subrange(0, head));
            assert forall|i: int| 0 <= i < sei_stream(scanned).len() implies sei_stream(scanned)[i]
                == s[i] by {
                if i >= head {
                    assert(tail[i - head] == split.remainder[i - head]);
                }
            }
            assert(s.skip(head + tail.len()) == split.remainder.skip(tail.len() as int));
        },
    }
}

/// The bytes of messages whose types and payload lengths fit a `u32` can be
/// scanned: every header sum fits.
pub proof fn lemma_stream_of_u32_messages_fits(messages: Seq<SeiMessageView>)
    requires
        forall|i: int|
            0 <= i < messages.len() ==> (#[trigger] messages[i]).payload_type <= u32::MAX
                && messages[i].payload.len() <= u32::MAX,
    ensures
        sei_scan_fits(sei_stream(messages)),
    decreases messages.len(),
{
    let s: Seq<u8> = sei_stream(messages);
    if messages.len() == 0 {
        lemma_vlc_fits_in_short_buffer(s, 0);
    } else {
        let first: SeiMessageView = messages[0];
        let after: Seq<u8> = sei_stream(messages.skip(1));
        lemma_split_encoding(first, after);
        lemma_stream_of_u32_messages_fits(messages.skip(1));
        assert(vlc_decode(s, 0).unwrap().value == first.payload_type);
        let ty: VlcRead = vlc_decode(s, 0).unwrap();
        assert(vlc_decode(s, ty.next).unwrap().value == first.payload.len());
    }
}

/// A buffer of at most `VLC_SAFE_LEN` bytes can be scanned whatever it
/// holds.
pub proof fn lemma_short_buffer_scan_fits(s: Seq<u8>)
    requires
        s.len() <= VLC_SAFE_LEN,
    ensures
        sei_scan_fits(s),
    decreases s.len(),
{
    lemma_vlc_fits_in_short_buffer(s, 0);
    if let Some(ty) = vlc_decode(s, 0) {
        lemma_vlc_fits_in_short_buffer(s, ty.next);
    }
    if let Some(split) = sei_split(s) {
        lemma_short_buffer_scan_fits(split.remainder);
    }
}

} // verus!
