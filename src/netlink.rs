//! Netlink stream reassembly and the generic-netlink control messages.

use vstd::prelude::*;
use vstd::string::StringSliceAdditionalSpecFns;
use crate::bytes::{le_u16_at, le_u32_at, push_range, read_le_u16, read_le_u32};

verus! {

/// Size of the netlink message header.
pub const NLMSG_HDRLEN: usize = 16;
/// Size of the netlink header followed by the generic-netlink header.
pub const TOTAL_HEADER_SIZE: usize = 20;
/// Largest declared netlink message length that is accepted (1 MiB).
pub const MAX_MESSAGE_SIZE: u32 = 1048576;

/// Why a netlink buffer or message was rejected.
#[derive(Debug, Clone, PartialEq, Eq)]
pub enum NetlinkError {
    /// The declared length of the message at the head of the stream is
    /// below the header size or above 1 MiB. The payloads completed before it
    /// are carried along so that none is lost.
    InvalidLength { length: u32, payloads: Vec<Vec<u8>> },
    /// A message shorter than both headers together.
    MessageTooSmall { size: usize },
    /// The header's length differs from the message's size.
    LengthMismatch { declared: u32, actual: usize },
}

/// Payload of one complete netlink message: what follows the 20 header bytes.
pub open spec fn payload_of(msg: Seq<u8>) -> Seq<u8> {
    msg.subrange(TOTAL_HEADER_SIZE as int, msg.len() as int)
}

/// Whether the declared length `n` marks the stream as corrupt.
pub open spec fn corrupt_length(n: nat) -> bool {
    n < NLMSG_HDRLEN || n > MAX_MESSAGE_SIZE
}

/// Scan of a byte stream from its start: the payloads of the complete
/// messages in order (messages too short for a generic-netlink header carry
/// none), the tail to keep for the next receive, and whether a corrupt
/// length was met (the rest of the stream is then dropped).
pub open spec fn scan(buf: Seq<u8>) -> (Seq<Seq<u8>>, Seq<u8>, bool)
    decreases buf.len(),
{
    if buf.len() < NLMSG_HDRLEN {
        (seq![], buf, false)
    } else {
        let n = le_u32_at(buf, 0);
        if corrupt_length(n) {
            (seq![], seq![], true)
        } else if buf.len() < n {
            (seq![], buf, false)
        } else {
            let msg = buf.subrange(0, n as int);
            let next = scan(buf.subrange(n as int, buf.len() as int));
            if n < TOTAL_HEADER_SIZE {
                next
            } else {
                (seq![payload_of(msg)] + next.0, next.1, next.2)
            }
        }
    }
}

/// Views of a list of byte vectors.
pub open spec fn views(v: Seq<Vec<u8>>) -> Seq<Seq<u8>> {
    v.map_values(|x: Vec<u8>| x@)
}

/// Reassembles netlink messages from receives whose boundaries need not
/// coincide with message boundaries.
#[derive(Debug)]
pub struct NetlinkMessageParser {
    pub incomplete_buffer: Vec<u8>,
}

impl NetlinkMessageParser {
    pub fn new() -> (r: Self)
        ensures
            r.incomplete_buffer@ == Seq::<u8>::empty(),
    {
        NetlinkMessageParser { incomplete_buffer: Vec::new() }
    }

    /// Appends `new_data` to the kept tail and extracts every complete
    /// message. On a corrupt length the error carries the payloads completed
    /// before it and the buffer is emptied.
    pub fn parse_buffer(&mut self, new_data: &[u8]) -> (r: Result<Vec<Vec<u8>>, NetlinkError>)
        ensures
            ({
                let s = scan(old(self).incomplete_buffer@ + new_data@);
                &&& final(self).incomplete_buffer@ == s.1
                &&& r is Ok <==> !s.2
                &&& r is Ok ==> views(r->Ok_0@) == s.0
                &&& r is Err ==> r->Err_0 is InvalidLength && views(r->Err_0->payloads@) == s.0
            }),
    {
        let mut buf = Vec::new();
        push_range(&mut buf, self.incomplete_buffer.as_slice(), 0, self.incomplete_buffer.len());
        push_range(&mut buf, new_data, 0, new_data.len());
        assert(buf@ =~= old(self).incomplete_buffer@ + new_data@);
        let ghost whole = buf@;
        let mut out: Vec<Vec<u8>> = Vec::new();
        let mut offset: usize = 0;
        proof {
            assert(whole.subrange(0, whole.len() as int) =~= whole);
            assert(views(out@) =~= Seq::<Seq<u8>>::empty());
            assert(views(out@) + scan(whole).0 =~= scan(whole).0);
        }
        while offset < buf.len()
            invariant_except_break
                buf@ == whole,
                whole == old(self).incomplete_buffer@ + new_data@,
                offset <= buf@.len(),
                ({
                    let s = scan(whole);
                    let t = scan(whole.subrange(offset as int, whole.len() as int));
                    s == (views(out@) + t.0, t.1, t.2)
                }),
            ensures
                buf@ == whole,
                whole == old(self).incomplete_buffer@ + new_data@,
                offset <= buf@.len(),
                ({
                    let s = scan(whole);
                    let t = scan(whole.subrange(offset as int, whole.len() as int));
                    &&& s == (views(out@) + t.0, t.1, t.2)
                    &&& t.0 == Seq::<Seq<u8>>::empty()
                    &&& !t.2
                    &&& t.1 == whole.subrange(offset as int, whole.len() as int)
                }),
            decreases buf.len() - offset,
        {
            let ghost rest = whole.subrange(offset as int, whole.len() as int);
            if buf.len() - offset < NLMSG_HDRLEN {
                break;
            }
            let nl_len = read_le_u32(buf.as_slice(), offset);
            assert(nl_len as nat == le_u32_at(rest, 0));
            if nl_len < NLMSG_HDRLEN as u32 || nl_len > MAX_MESSAGE_SIZE {
                let bad = nl_len;
                self.incomplete_buffer = Vec::new();
                proof {
                    assert(scan(rest) == (Seq::<Seq<u8>>::empty(), Seq::<u8>::empty(), true));
                    assert(views(out@) + Seq::<Seq<u8>>::empty() =~= views(out@));
                    assert(scan(whole).0 == views(out@));
                    assert(scan(whole).2);
                    assert(self.incomplete_buffer@ == scan(whole).1);
                }
                let e = NetlinkError::InvalidLength { length: bad, payloads: out };
                return Err(e);
            }
            let n = nl_len as usize;
            if buf.len() - offset < n {
                break;
            }
            let ghost next = whole.subrange(offset + n, whole.len() as int);
            assert(rest.subrange(n as int, rest.len() as int) =~= next);
            if n >= TOTAL_HEADER_SIZE {
                let mut payload = Vec::new();
                push_range(&mut payload, buf.as_slice(), offset + TOTAL_HEADER_SIZE, offset + n);
                assert(payload@ =~= payload_of(rest.subrange(0, n as int)));
                let ghost old_out = out@;
                out.push(payload);
                proof {
                    assert(views(out@) =~= views(old_out).push(payload@));
                    let t = scan(next);
                    assert(scan(rest) == (seq![payload@] + t.0, t.1, t.2));
                    assert(views(old_out) + (seq![payload@] + t.0) =~= views(out@) + t.0);
                }
            }
            else {
                assert(scan(rest) == scan(next));
            }
            offset = offset + n;
        }
        let mut tail = Vec::new();
        push_range(&mut tail, buf.as_slice(), offset, buf.len());
        self.incomplete_buffer = tail;
        proof {
            assert(views(out@) + Seq::<Seq<u8>>::empty() =~= views(out@));
            assert(scan(whole).0 == views(out@));
            assert(!scan(whole).2);
            assert(self.incomplete_buffer@ == scan(whole).1);
        }
        Ok(out)
    }

    /// Payload of a single complete netlink message.
    pub fn extract_payload_from_slice(message_data: &[u8]) -> (r: Result<Vec<u8>, NetlinkError>)
        ensures
            message_data@.len() < TOTAL_HEADER_SIZE ==> r == Err::<Vec<u8>, NetlinkError>(
                NetlinkError::MessageTooSmall { size: message_data@.len() as usize },
            ),
            message_data@.len() >= TOTAL_HEADER_SIZE && le_u32_at(message_data@, 0)
                != message_data@.len() ==> r is Err && r->Err_0 is LengthMismatch,
            message_data@.len() >= TOTAL_HEADER_SIZE && le_u32_at(message_data@, 0)
                == message_data@.len() ==> r is Ok && r->Ok_0@ == payload_of(message_data@),
    {
        if message_data.len() < TOTAL_HEADER_SIZE {
            return Err(NetlinkError::MessageTooSmall { size: message_data.len() });
        }
        let nl_len = read_le_u32(message_data, 0);
        if nl_len as usize != message_data.len() {
            return Err(NetlinkError::LengthMismatch { declared: nl_len, actual: message_data.len() });
        }
        let mut payload = Vec::new();
        push_range(&mut payload, message_data, TOTAL_HEADER_SIZE, message_data.len());
        assert(payload@ =~= payload_of(message_data@));
        Ok(payload)
    }
}

/// Netlink message type of generic netlink.
pub const NETLINK_GENERIC_TYPE: u16 = 16;
/// Generic-netlink control command: a family was registered.
pub const CTRL_CMD_NEWFAMILY: u8 = 1;
/// Generic-netlink control command: a family was removed.
pub const CTRL_CMD_DELFAMILY: u8 = 2;
/// Control attribute that carries a family name.
pub const CTRL_ATTR_FAMILY_NAME: u16 = 2;

/// `n` rounded up to a multiple of four.
pub open spec fn align4(n: nat) -> nat {
    ((n + 3) / 4 * 4) as nat
}

/// Whether `seg` holds `name` followed by a terminating zero byte, `name`
/// itself holding none.
pub open spec fn holds_nul_terminated(seg: Seq<u8>, name: Seq<u8>) -> bool {
    &&& name.len() < seg.len()
    &&& seg[name.len() as int] == 0
    &&& seg.subrange(0, name.len() as int) == name
    &&& forall|i: int| 0 <= i < name.len() ==> name[i] != 0
}

/// Whether the attribute at `off` is a family-name attribute naming `name`.
pub open spec fn attr_names(a: Seq<u8>, off: int, name: Seq<u8>) -> bool {
    let len = le_u16_at(a, off + 0);
    &&& le_u16_at(a, off + 2) == CTRL_ATTR_FAMILY_NAME
    &&& len > 4
    &&& off + len <= a.len()
    &&& holds_nul_terminated(a.subrange(off + 4, off + len), name)
}

/// Whether the attribute list from `off` on holds a family-name attribute
/// naming `name`; attributes are 4-byte aligned and a zero length ends the list.
pub open spec fn family_in_attrs(a: Seq<u8>, off: nat, name: Seq<u8>) -> bool
    decreases a.len() - off,
{
    if off + 4 > a.len() {
        false
    } else if attr_names(a, off as int, name) {
        true
    } else {
        let step = align4(le_u16_at(a, off as int));
        if step == 0 || off + step > a.len() {
            false
        } else {
            family_in_attrs(a, off + step, name)
        }
    }
}

/// Whether a control message announces or withdraws the family `name`.
pub open spec fn control_message_names(b: Seq<u8>, name: Seq<u8>) -> bool {
    &&& b.len() > TOTAL_HEADER_SIZE
    &&& le_u16_at(b, 4) == NETLINK_GENERIC_TYPE
    &&& (b[16] == CTRL_CMD_NEWFAMILY || b[16] == CTRL_CMD_DELFAMILY)
    &&& family_in_attrs(b.subrange(TOTAL_HEADER_SIZE as int, b.len() as int), 0, name)
}

/// Whether `seg[from..from + name.len()]` equals `name`, followed by a zero.
fn nul_terminated_equals(seg: &[u8], from: usize, to: usize, name: &[u8]) -> (r: bool)
    requires
        from <= to <= seg@.len(),
    ensures
        r == holds_nul_terminated(seg@.subrange(from as int, to as int), name@),
{
    let ghost part = seg@.subrange(from as int, to as int);
    if name.len() >= to - from {
        return false;
    }
    if seg[from + name.len()] != 0 {
        return false;
    }
    let mut i: usize = 0;
    while i < name.len()
        invariant
            from <= to <= seg@.len(),
            name@.len() < to - from,
            i <= name@.len(),
            part == seg@.subrange(from as int, to as int),
            forall|j: int| 0 <= j < i ==> #[trigger] name@[j] != 0 && seg@[from + j] == name@[j],
        decreases name@.len() - i,
    {
        let a = seg[from + i];
        let b = name[i];
        if b == 0 || a != b {
            return false;
        }
        assert(b == name@[i as int]);
        assert(a == seg@[from + i]);
        i = i + 1;
    }
    assert forall|j: int| 0 <= j < name@.len() implies part.subrange(0, name@.len() as int)[j] == name@[j] by {
        assert(seg@[from + j] == name@[j]);
    }
    assert(part.subrange(0, name@.len() as int) =~= name@);
    true
}

/// Scans netlink attributes for a family-name attribute naming `target_family`.
pub fn parse_family_name_from_attrs(attrs_buffer: &[u8], target_family: &str) -> (r: bool)
    ensures
        r == family_in_attrs(attrs_buffer@, 0, target_family.spec_bytes()),
{
    let name = target_family.as_bytes();
    let mut offset: usize = 0;
    while offset <= attrs_buffer.len() && attrs_buffer.len() - offset >= 4
        invariant
            name@ == target_family.spec_bytes(),
            family_in_attrs(attrs_buffer@, 0, name@) == family_in_attrs(attrs_buffer@, offset as nat, name@),
        decreases attrs_buffer@.len() - offset,
    {
        let attr_len = read_le_u16(attrs_buffer, offset) as usize;
        let attr_type = read_le_u16(attrs_buffer, offset + 2);
        if attr_type == CTRL_ATTR_FAMILY_NAME && attr_len > 4 && attr_len <= attrs_buffer.len() - offset {
            if nul_terminated_equals(attrs_buffer, offset + 4, offset + attr_len, name) {
                return true;
            }
        }
        let step = (attr_len + 3) / 4 * 4;
        if step == 0 {
            return false;
        }
        if step > attrs_buffer.len() - offset {
            return false;
        }
        offset = offset + step;
    }
    false
}

/// Whether a generic-netlink control message announces or withdraws
/// `target_family`.
pub fn parse_control_message(buffer: &[u8], target_family: &str) -> (r: bool)
    ensures
        r == control_message_names(buffer@, target_family.spec_bytes()),
{
    if buffer.len() <= TOTAL_HEADER_SIZE {
        return false;
    }
    let nl_type = read_le_u16(buffer, 4);
    if nl_type != NETLINK_GENERIC_TYPE {
        return false;
    }
    let genl_cmd = buffer[16];
    if genl_cmd != CTRL_CMD_NEWFAMILY && genl_cmd != CTRL_CMD_DELFAMILY {
        return false;
    }
    let mut attrs = Vec::new();
    push_range(&mut attrs, buffer, TOTAL_HEADER_SIZE, buffer.len());
    parse_family_name_from_attrs(attrs.as_slice(), target_family)
}

/// Splitting a byte stream into two receives changes nothing: the payloads
/// of the first receive followed by those of the kept tail plus the second
/// receive are the payloads of the whole stream, and the same tail is kept.
pub proof fn lemma_chunked_scan(a: Seq<u8>, b: Seq<u8>)
    requires
        !scan(a).2,
    ensures
        ({
            let first = scan(a);
            let second = scan(first.1 + b);
            let whole = scan(a + b);
            &&& first.0 + second.0 == whole.0
            &&& second.1 == whole.1
            &&& second.2 == whole.2
        }),
    decreases a.len(),
{
    let ab = a + b;
    if a.len() < NLMSG_HDRLEN {
        assert(Seq::<Seq<u8>>::empty() + scan(ab).0 =~= scan(ab).0);
    } else {
        assert(le_u32_at(ab, 0) == le_u32_at(a, 0));
        let n = le_u32_at(a, 0);
        if a.len() < n {
            assert(Seq::<Seq<u8>>::empty() + scan(ab).0 =~= scan(ab).0);
        } else {
            let rest = a.subrange(n as int, a.len() as int);
            assert(ab.subrange(n as int, ab.len() as int) =~= rest + b);
            assert(ab.subrange(0, n as int) =~= a.subrange(0, n as int));
            lemma_chunked_scan(rest, b);
            let first = scan(a);
            let second = scan(first.1 + b);
            if n >= TOTAL_HEADER_SIZE {
                assert(first.0 + second.0 =~= seq![payload_of(a.subrange(0, n as int))] + (scan(rest).0 + second.0));
            }
        }
    }
}

/// The bytes of `chunks` one after the other.
pub open spec fn concat(chunks: Seq<Seq<u8>>) -> Seq<u8>
    decreases chunks.len(),
{
    if chunks.len() == 0 {
        seq![]
    } else {
        concat(chunks.drop_last()) + chunks.last()
    }
}

/// What successive `parse_buffer` calls on `chunks` deliver from a parser
/// that keeps `tail`: the payloads of all calls, the tail kept at the end,
/// and whether a corrupt length was met (the fold stops there).
pub open spec fn feed(tail: Seq<u8>, chunks: Seq<Seq<u8>>) -> (Seq<Seq<u8>>, Seq<u8>, bool)
    decreases chunks.len(),
{
    if chunks.len() == 0 {
        (seq![], tail, false)
    } else {
        let p = feed(tail, chunks.drop_last());
        if p.2 {
            p
        } else {
            let s = scan(p.1 + chunks.last());
            (p.0 + s.0, s.1, s.2)
        }
    }
}

/// However the stream is cut into receives, a fresh parser delivers the
/// payloads of the whole stream in wire order and keeps the same tail, as
/// long as no corrupt length is met.
pub proof fn lemma_receives_deliver_stream(chunks: Seq<Seq<u8>>)
    ensures
        !feed(seq![], chunks).2 ==> feed(seq![], chunks) == scan(concat(chunks)),
    decreases chunks.len(),
{
    if chunks.len() == 0 {
        assert(concat(chunks) =~= Seq::<u8>::empty());
        assert(scan(Seq::<u8>::empty()).1 =~= Seq::<u8>::empty());
    } else {
        let d = chunks.drop_last();
        lemma_receives_deliver_stream(d);
        let p = feed(seq![], d);
        if !p.2 {
            lemma_chunked_scan(concat(d), chunks.last());
        }
    }
}

} // verus!
