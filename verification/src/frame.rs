//! Received CAN frames and the text they are shown as.
//!
//! A poll of the driver yields a count and (possibly) one frame. A
//! benign-timeout sentinel count and non-positive counts yield no
//! message; a real frame is rendered as `ID=0x<hex>, Data=[b0, b1, ..]`.

use vstd::prelude::*;

verus! {

/// The driver's benign-timeout return value: "no frame within timeout".
pub const TIMEOUT_SENTINEL: i32 = 995;

/// One received CAN frame, in the layout the vendor driver fills:
/// identifier, timestamp, flag bytes, payload length, and up to eight
/// payload bytes.
#[derive(Clone, Copy, Debug)]
pub struct VciCanObj {
    pub id: u32,
    pub time_stamp: u32,
    pub time_flag: u8,
    pub send_type: u8,
    pub remote_flag: u8,
    pub extended_flag: u8,
    pub data_len: u8,
    pub data: [u8; 8],
    pub reserved: [u8; 3],
}

impl Default for VciCanObj {
    /// An all-zero frame, as handed to the driver as a receive buffer.
    fn default() -> (r: Self)
        ensures
            r.id == 0,
            r.time_stamp == 0,
            r.time_flag == 0,
            r.send_type == 0,
            r.remote_flag == 0,
            r.extended_flag == 0,
            r.data_len == 0,
            r.data@ == Seq::new(8, |i: int| 0u8),
            r.reserved@ == Seq::new(3, |i: int| 0u8),
    {
        let r = VciCanObj {
            id: 0,
            time_stamp: 0,
            time_flag: 0,
            send_type: 0,
            remote_flag: 0,
            extended_flag: 0,
            data_len: 0,
            data: [0u8; 8],
            reserved: [0u8; 3],
        };
        proof {
            assert(r.data@ =~= Seq::new(8, |i: int| 0u8));
            assert(r.reserved@ =~= Seq::new(3, |i: int| 0u8));
        }
        r
    }
}

/// The character for one digit value, `0`..`9` then `A`..`F`.
pub open spec fn spec_digit(d: int) -> char
    recommends
        0 <= d < 16,
{
    if d == 0 { '0' }
    else if d == 1 { '1' }
    else if d == 2 { '2' }
    else if d == 3 { '3' }
    else if d == 4 { '4' }
    else if d == 5 { '5' }
    else if d == 6 { '6' }
    else if d == 7 { '7' }
    else if d == 8 { '8' }
    else if d == 9 { '9' }
    else if d == 10 { 'A' }
    else if d == 11 { 'B' }
    else if d == 12 { 'C' }
    else if d == 13 { 'D' }
    else if d == 14 { 'E' }
    else { 'F' }
}

/// Uppercase hexadecimal digits of `n`, most significant first, no
/// leading zeros (`0` itself is a single `0`).
pub open spec fn spec_hex_upper(n: int) -> Seq<char>
    recommends
        n >= 0,
    decreases n,
{
    if n < 16 {
        seq![spec_digit(n)]
    } else {
        spec_hex_upper(n / 16) + seq![spec_digit(n % 16)]
    }
}

/// Decimal digits of `n`, most significant first.
pub open spec fn spec_dec(n: int) -> Seq<char>
    recommends
        n >= 0,
    decreases n,
{
    if n < 10 {
        seq![spec_digit(n)]
    } else {
        spec_dec(n / 10) + seq![spec_digit(n % 10)]
    }
}

/// The comma-separated decimal values of the bytes of `s`.
pub open spec fn spec_byte_list_body(s: Seq<u8>) -> Seq<char>
    decreases s.len(),
{
    if s.len() == 0 {
        Seq::empty()
    } else if s.len() == 1 {
        spec_dec(s[0] as int)
    } else {
        spec_byte_list_body(s.drop_last()) + seq![',', ' '] + spec_dec(s.last() as int)
    }
}

/// The bytes of `s` rendered the way a byte slice prints: `[1, 2, 3]`.
pub open spec fn spec_byte_list(s: Seq<u8>) -> Seq<char> {
    seq!['['] + spec_byte_list_body(s) + seq![']']
}

/// The full text a received frame is shown as.
pub open spec fn spec_frame_text(id: u32, data: Seq<u8>) -> Seq<char> {
    seq!['I', 'D', '=', '0', 'x'] + spec_hex_upper(id as int)
        + seq![',', ' ', 'D', 'a', 't', 'a', '='] + spec_byte_list(data)
}

/// What one poll emits: nothing for the sentinel count, for a failed or
/// empty poll, or for a frame whose stated length exceeds its payload;
/// otherwise the frame's text.
pub open spec fn spec_frame_message(count: i32, frame: VciCanObj) -> Option<Seq<char>> {
    if count == TIMEOUT_SENTINEL || count <= 0 || frame.data_len > 8 {
        None
    } else {
        Some(spec_frame_text(frame.id, frame.data@.take(frame.data_len as int)))
    }
}

/// The one-character string for a digit value.
fn digit_str(d: u8) -> (s: String)
    requires
        d < 16,
    ensures
        s@ == seq![spec_digit(d as int)],
{
    proof {
        reveal_strlit("0");
        reveal_strlit("1");
        reveal_strlit("2");
        reveal_strlit("3");
        reveal_strlit("4");
        reveal_strlit("5");
        reveal_strlit("6");
        reveal_strlit("7");
        reveal_strlit("8");
        reveal_strlit("9");
        reveal_strlit("A");
        reveal_strlit("B");
        reveal_strlit("C");
        reveal_strlit("D");
        reveal_strlit("E");
        reveal_strlit("F");
    }
    let s: String = if d == 0 { String::from_str("0") }
    else if d == 1 { String::from_str("1") }
    else if d == 2 { String::from_str("2") }
    else if d == 3 { String::from_str("3") }
    else if d == 4 { String::from_str("4") }
    else if d == 5 { String::from_str("5") }
    else if d == 6 { String::from_str("6") }
    else if d == 7 { String::from_str("7") }
    else if d == 8 { String::from_str("8") }
    else if d == 9 { String::from_str("9") }
    else if d == 10 { String::from_str("A") }
    else if d == 11 { String::from_str("B") }
    else if d == 12 { String::from_str("C") }
    else if d == 13 { String::from_str("D") }
    else if d == 14 { String::from_str("E") }
    else { String::from_str("F") };
    proof {
        assert(s@ =~= seq![spec_digit(d as int)]);
    }
    s
}

/// Uppercase hexadecimal rendering of a 32-bit identifier.
pub fn u32_hex_string(n: u32) -> (s: String)
    ensures
        s@ == spec_hex_upper(n as int),
    decreases n,
{
    if n < 16 {
        digit_str(n as u8)
    } else {
        let mut s = u32_hex_string(n / 16);
        let d = digit_str((n % 16) as u8);
        s.append(d.as_str());
        s
    }
}

/// Decimal rendering of one payload byte.
pub fn u8_dec_string(n: u8) -> (s: String)
    ensures
        s@ == spec_dec(n as int),
    decreases n,
{
    if n < 10 {
        digit_str(n)
    } else {
        let mut s = u8_dec_string(n / 10);
        let d = digit_str(n % 10);
        s.append(d.as_str());
        s
    }
}

/// The first `len` payload bytes rendered as `[b0, b1, ..]`.
pub fn byte_list_string(data: &[u8; 8], len: usize) -> (s: String)
    requires
        len <= 8,
    ensures
        s@ == spec_byte_list(data@.take(len as int)),
{
    proof {
        reveal_strlit("[");
        reveal_strlit("]");
        reveal_strlit(", ");
    }
    let mut s = String::from_str("[");
    proof {
        assert(data@.take(0) =~= Seq::<u8>::empty());
        assert(s@ =~= seq!['['] + spec_byte_list_body(data@.take(0)));
    }
    let mut i: usize = 0;
    while i < len
        invariant
            i <= len,
            len <= 8,
            s@ == seq!['['] + spec_byte_list_body(data@.take(i as int)),
        decreases len - i,
    {
        if i > 0 {
            s.append(", ");
        }
        let d = u8_dec_string(data[i]);
        s.append(d.as_str());
        proof {
            reveal_strlit(", ");
            let prefix = data@.take(i as int + 1);
            assert(prefix.drop_last() =~= data@.take(i as int));
            assert(prefix.last() == data@[i as int]);
            assert(s@ =~= seq!['['] + spec_byte_list_body(prefix));
        }
        i = i + 1;
    }
    s.append("]");
    proof {
        assert(s@ =~= spec_byte_list(data@.take(len as int)));
    }
    s
}

/// The message one poll result produces, if any: `None` for the
/// sentinel count, a non-positive count, or an over-long stated length.
pub fn frame_message(count: i32, frame: &VciCanObj) -> (r: Option<String>)
    ensures
        r.deep_view() == spec_frame_message(count, *frame),
{
    if count == TIMEOUT_SENTINEL || count <= 0 || frame.data_len > 8 {
        None
    } else {
        proof {
            reveal_strlit("ID=0x");
            reveal_strlit(", Data=");
        }
        let mut s = String::from_str("ID=0x");
        proof {
            assert(s@ =~= seq!['I', 'D', '=', '0', 'x']);
        }
        let h = u32_hex_string(frame.id);
        s.append(h.as_str());
        s.append(", Data=");
        let b = byte_list_string(&frame.data, frame.data_len as usize);
        s.append(b.as_str());
        proof {
            assert(s@ =~= spec_frame_text(frame.id, frame.data@.take(frame.data_len as int)));
        }
        Some(s)
    }
}

/// The messages a whole run of polls emits, oldest first: each poll
/// contributes its message or nothing.
pub open spec fn spec_emitted(polls: Seq<(i32, VciCanObj)>) -> Seq<Seq<char>>
    decreases polls.len(),
{
    if polls.len() == 0 {
        Seq::empty()
    } else {
        let rest = spec_emitted(polls.drop_last());
        match spec_frame_message(polls.last().0, polls.last().1) {
            Some(m) => rest.push(m),
            None => rest,
        }
    }
}

/// A run in which the driver only ever reports the benign-timeout
/// sentinel emits no message at all, however long the run is.
pub proof fn lemma_sentinel_run_emits_nothing(polls: Seq<(i32, VciCanObj)>)
    requires
        forall|i: int| 0 <= i < polls.len() ==> #[trigger] polls[i].0 == TIMEOUT_SENTINEL,
    ensures
        spec_emitted(polls) == Seq::<Seq<char>>::empty(),
    decreases polls.len(),
{
    if polls.len() > 0 {
        lemma_sentinel_run_emits_nothing(polls.drop_last());
        assert(polls.last().0 == TIMEOUT_SENTINEL);
    }
}

} // verus!
