//! Wire format of control frames.
//!
//! Every frame is a record `0x30, len_hi, len_lo, body`, where the
//! big-endian `u16` length counts the body. The body starts with one byte
//! that names the variant; the rest is the variant's payload. Structured
//! payloads (`Register`, `Subscribe`, `Connection`, `TargetConnection`)
//! are JSON documents carried here as bytes.
use crate::client::AgentMode;
use crate::MetaData;
use vstd::prelude::*;

verus! {

/// First byte of every frame.
pub const SYNC: u8 = 0x30;

/// Variant byte of `Connection`.
pub const KIND_CONNECTION: u8 = 0x2A;

/// Variant byte of `TargetConnection`.
pub const KIND_TARGET_CONNECTION: u8 = 0x26;

/// Variant byte of `Register`.
pub const KIND_REGISTER: u8 = 0x2B;

/// Variant byte of `Subscribe`.
pub const KIND_SUBSCRIBE: u8 = 0x24;

/// Variant byte of the probes `Ping`, `Ack` and `KeepAlive`.
pub const KIND_PROBE: u8 = 0x21;

/// Largest body that the `u16` length field can describe.
pub const MAX_BODY: usize = 65535;

/// Why a frame could not be decoded or encoded.
#[derive(Clone, Copy, Debug, PartialEq, Eq, Structural)]
pub enum Error {
    /// The input ends before the frame does: read more and try again.
    Incomplete,
    /// The first byte is not the sync byte.
    Verify,
    /// The body is empty or starts with an unknown variant byte.
    Unknown,
    /// The body is too long for the `u16` length field.
    TooLong,
}

impl Error {
    /// Text for logs.
    pub fn message(&self) -> (r: String)
        ensures
            r@ == match self {
                Error::Incomplete => "incomplete frame"@,
                Error::Verify => "parse verify error"@,
                Error::Unknown => "parse error"@,
                Error::TooLong => "frame too long"@,
            },
    {
        let s = match self {
            Error::Incomplete => "incomplete frame",
            Error::Verify => "parse verify error",
            Error::Unknown => "parse error",
            Error::TooLong => "frame too long",
        };
        proof {
            reveal_strlit("incomplete frame");
            reveal_strlit("parse verify error");
            reveal_strlit("parse error");
            reveal_strlit("frame too long");
        }
        s.to_owned()
    }
}

/// A control frame as it travels on the wire.
#[derive(Debug)]
pub enum Frame {
    Ping,
    Ack,
    KeepAlive,
    /// JSON of a `RegisterInfo`.
    Register(Vec<u8>),
    /// JSON of a `SubscribeInfo`.
    Subscribe(Vec<u8>),
    /// JSON of a `ConnectionInfo`.
    Connection(Vec<u8>),
    /// JSON of a `ConnectionInfo`.
    TargetConnection(Vec<u8>),
}

/// Mathematical value of a `Frame`.
pub ghost enum FrameModel {
    Ping,
    Ack,
    KeepAlive,
    Register(Seq<u8>),
    Subscribe(Seq<u8>),
    Connection(Seq<u8>),
    TargetConnection(Seq<u8>),
}

impl View for Frame {
    type V = FrameModel;

    open spec fn view(&self) -> FrameModel {
        match self {
            Frame::Ping => FrameModel::Ping,
            Frame::Ack => FrameModel::Ack,
            Frame::KeepAlive => FrameModel::KeepAlive,
            Frame::Register(p) => FrameModel::Register(p@),
            Frame::Subscribe(p) => FrameModel::Subscribe(p@),
            Frame::Connection(p) => FrameModel::Connection(p@),
            Frame::TargetConnection(p) => FrameModel::TargetConnection(p@),
        }
    }
}

/// ASCII `ping`.
pub open spec fn ping_text() -> Seq<u8> {
    seq![0x70u8, 0x69, 0x6e, 0x67]
}

/// ASCII `ack`.
pub open spec fn ack_text() -> Seq<u8> {
    seq![0x61u8, 0x63, 0x6b]
}

/// ASCII `keepalive`.
pub open spec fn keepalive_text() -> Seq<u8> {
    seq![0x6bu8, 0x65, 0x65, 0x70, 0x61, 0x6c, 0x69, 0x76, 0x65]
}

/// Variant byte of a frame.
pub open spec fn kind_of(f: FrameModel) -> u8 {
    match f {
        FrameModel::Ping | FrameModel::Ack | FrameModel::KeepAlive => KIND_PROBE,
        FrameModel::Register(_) => KIND_REGISTER,
        FrameModel::Subscribe(_) => KIND_SUBSCRIBE,
        FrameModel::Connection(_) => KIND_CONNECTION,
        FrameModel::TargetConnection(_) => KIND_TARGET_CONNECTION,
    }
}

/// Payload of a frame: the body after its variant byte.
pub open spec fn payload_of(f: FrameModel) -> Seq<u8> {
    match f {
        FrameModel::Ping => ping_text(),
        FrameModel::Ack => ack_text(),
        FrameModel::KeepAlive => keepalive_text(),
        FrameModel::Register(p) => p,
        FrameModel::Subscribe(p) => p,
        FrameModel::Connection(p) => p,
        FrameModel::TargetConnection(p) => p,
    }
}

/// Body of a frame: variant byte, then payload.
pub open spec fn body_of(f: FrameModel) -> Seq<u8> {
    seq![kind_of(f)] + payload_of(f)
}

/// Whether a frame's body fits the length field.
pub open spec fn encodable(f: FrameModel) -> bool {
    body_of(f).len() <= MAX_BODY
}

/// The big-endian `u16` at `start`.
pub open spec fn u16_at(b: Seq<u8>, start: int) -> int {
    b[start] as int * 256 + b[start + 1] as int
}

/// The three header bytes for a body of `n` bytes.
pub open spec fn header(n: nat) -> Seq<u8> {
    seq![SYNC, (n / 256) as u8, (n % 256) as u8]
}

/// The bytes of a frame on the wire.
pub open spec fn encode(f: FrameModel) -> Seq<u8> {
    header(body_of(f).len()) + body_of(f)
}

/// What decoding the start of a byte sequence gives.
pub ghost enum Decoded {
    /// A frame, and how many bytes it took.
    Frame(FrameModel, nat),
    Failed(Error),
}

/// The frame a body denotes, if its variant byte is known.
pub open spec fn frame_of_body(body: Seq<u8>) -> Option<FrameModel> {
    if body.len() == 0 {
        None
    } else {
        let kind = body[0];
        let payload = body.drop_first();
        if kind == KIND_CONNECTION {
            Some(FrameModel::Connection(payload))
        } else if kind == KIND_TARGET_CONNECTION {
            Some(FrameModel::TargetConnection(payload))
        } else if kind == KIND_REGISTER {
            Some(FrameModel::Register(payload))
        } else if kind == KIND_SUBSCRIBE {
            Some(FrameModel::Subscribe(payload))
        } else if kind == KIND_PROBE {
            if payload == ping_text() {
                Some(FrameModel::Ping)
            } else if payload == keepalive_text() {
                Some(FrameModel::KeepAlive)
            } else {
                Some(FrameModel::Ack)
            }
        } else {
            None
        }
    }
}

/// Decoding of the first frame in `b`.
pub open spec fn decode(b: Seq<u8>) -> Decoded {
    if b.len() == 0 {
        Decoded::Failed(Error::Incomplete)
    } else if b[0] != SYNC {
        Decoded::Failed(Error::Verify)
    } else if b.len() < 3 || b.len() < 3 + u16_at(b, 1) {
        Decoded::Failed(Error::Incomplete)
    } else {
        let n = u16_at(b, 1);
        match frame_of_body(b.subrange(3, 3 + n)) {
            Some(f) => Decoded::Frame(f, (3 + n) as nat),
            None => Decoded::Failed(Error::Unknown),
        }
    }
}

/// Decoding undoes encoding: a frame read back from its own bytes, with
/// any further bytes behind it, is the frame that was written, and it takes
/// exactly its own bytes.
pub proof fn lemma_decode_encode(f: FrameModel, rest: Seq<u8>)
    requires
        encodable(f),
    ensures
        decode(encode(f) + rest) == Decoded::Frame(f, encode(f).len()),
{
    let body = body_of(f);
    let n = body.len();
    let b = encode(f) + rest;
    assert(b[0] == SYNC);
    assert(b[1] == (n / 256) as u8 && b[2] == (n % 256) as u8);
    assert(u16_at(b, 1) == n);
    assert(b.subrange(3, 3 + n as int) =~= body);
    assert(body.drop_first() =~= payload_of(f));
    assert(body[0] == kind_of(f));
    if f is Ack {
        assert(ack_text() != ping_text()) by {
            assert(ack_text().len() != ping_text().len());
        }
        assert(ack_text() != keepalive_text()) by {
            assert(ack_text().len() != keepalive_text().len());
        }
    }
}

/// The encoded size of a frame is three header bytes plus the value of
/// its length field.
pub proof fn lemma_encoded_size(f: FrameModel)
    requires
        encodable(f),
    ensures
        encode(f).len() >= 3,
        encode(f).len() == 3 + u16_at(encode(f), 1),
{
    let n = body_of(f).len();
    assert(encode(f)[1] == (n / 256) as u8 && encode(f)[2] == (n % 256) as u8);
}

fn pop_first_u8(src: &[u8]) -> (r: Result<u8, Error>)
    ensures
        src@.len() == 0 ==> r == Err::<u8, Error>(Error::Incomplete),
        src@.len() > 0 ==> r == Ok::<u8, Error>(src@[0]),
{
    if src.len() == 0 {
        Err(Error::Incomplete)
    } else {
        Ok(src[0])
    }
}

fn get_u16(u8_array: &[u8], start: usize) -> (r: u16)
    requires
        start + 1 < u8_array@.len(),
    ensures
        r as int == u16_at(u8_array@, start as int),
{
    let hi = u8_array[start] as u16;
    let lo = u8_array[start + 1] as u16;
    hi * 256 + lo
}

/// Appends `src` to `out`.
fn push_all(out: &mut Vec<u8>, src: &[u8])
    ensures
        final(out)@ == old(out)@ + src@,
{
    let mut i: usize = 0;
    while i < src.len()
        invariant
            0 <= i <= src@.len(),
            out@ == old(out)@ + src@.subrange(0, i as int),
        decreases src@.len() - i,
    {
        out.push(src[i]);
        i = i + 1;
        assert(src@.subrange(0, i as int) =~= src@.subrange(0, i - 1) + seq![src@[i - 1]]);
    }
    assert(src@.subrange(0, i as int) =~= src@);
}

/// Whether `b[from..to]` holds exactly `text`.
fn range_is(b: &[u8], from: usize, to: usize, text: &[u8]) -> (r: bool)
    requires
        from <= to <= b@.len(),
    ensures
        r == (b@.subrange(from as int, to as int) == text@),
{
    if to - from != text.len() {
        return false;
    }
    let mut i: usize = 0;
    while i < text.len()
        invariant
            to - from == text@.len(),
            from <= to <= b@.len(),
            0 <= i <= text@.len(),
            forall|j: int| 0 <= j < i ==> b@[from + j] == text@[j],
        decreases text@.len() - i,
    {
        if b[from + i] != text[i] {
            assert(b@.subrange(from as int, to as int)[i as int] != text@[i as int]);
            return false;
        }
        i = i + 1;
    }
    assert(b@.subrange(from as int, to as int) =~= text@);
    true
}

fn ping_bytes() -> (r: Vec<u8>)
    ensures
        r@ == ping_text(),
{
    let r = vec![0x70u8, 0x69, 0x6e, 0x67];
    assert(r@ =~= ping_text());
    r
}

fn ack_bytes() -> (r: Vec<u8>)
    ensures
        r@ == ack_text(),
{
    let r = vec![0x61u8, 0x63, 0x6b];
    assert(r@ =~= ack_text());
    r
}

fn keepalive_bytes() -> (r: Vec<u8>)
    ensures
        r@ == keepalive_text(),
{
    let r = vec![0x6bu8, 0x65, 0x65, 0x70, 0x61, 0x6c, 0x69, 0x76, 0x65];
    assert(r@ =~= keepalive_text());
    r
}

impl Frame {
    /// Decodes the first frame at the start of `bytes`, returning it with
    /// the number of bytes it took.
    pub fn parse(bytes: &[u8]) -> (r: Result<(Frame, usize), Error>)
        ensures
            match decode(bytes@) {
                Decoded::Frame(f, n) => r is Ok && r->Ok_0.0@ == f && r->Ok_0.1 == n,
                Decoded::Failed(e) => r == Err::<(Frame, usize), Error>(e),
            },
    {
        let first = match pop_first_u8(bytes) {
            Ok(b) => b,
            Err(e) => return Err(e),
        };
        if first != SYNC {
            return Err(Error::Verify);
        }
        let end = bytes.len();
        if end < 3 {
            return Err(Error::Incomplete);
        }
        let length = get_u16(bytes, 1) as usize;
        if end - 3 < length {
            return Err(Error::Incomplete);
        }
        if length == 0 {
            return Err(Error::Unknown);
        }
        let ghost body = bytes@.subrange(3, 3 + length as int);
        let kind = bytes[3];
        let start: usize = 4;
        let stop: usize = 3 + length;
        assert(body.drop_first() =~= bytes@.subrange(4, stop as int));
        let frame = if kind == KIND_CONNECTION {
            Frame::Connection(copy_range(bytes, start, stop))
        } else if kind == KIND_TARGET_CONNECTION {
            Frame::TargetConnection(copy_range(bytes, start, stop))
        } else if kind == KIND_REGISTER {
            Frame::Register(copy_range(bytes, start, stop))
        } else if kind == KIND_SUBSCRIBE {
            Frame::Subscribe(copy_range(bytes, start, stop))
        } else if kind == KIND_PROBE {
            let ping = ping_bytes();
            let keepalive = keepalive_bytes();
            if range_is(bytes, start, stop, ping.as_slice()) {
                Frame::Ping
            } else if range_is(bytes, start, stop, keepalive.as_slice()) {
                Frame::KeepAlive
            } else {
                Frame::Ack
            }
        } else {
            return Err(Error::Unknown);
        };
        Ok((frame, stop))
    }

    /// Encodes the frame; fails with `TooLong` when its body does not fit
    /// the length field.
    pub fn serialization(&self) -> (r: Result<Vec<u8>, Error>)
        ensures
            encodable(self@) ==> r is Ok && r->Ok_0@ == encode(self@),
            !encodable(self@) ==> r == Err::<Vec<u8>, Error>(Error::TooLong),
    {
        let ping;
        let ack;
        let keepalive;
        let (kind, payload): (u8, &Vec<u8>) = match self {
            Frame::Ping => {
                ping = ping_bytes();
                (KIND_PROBE, &ping)
            },
            Frame::Ack => {
                ack = ack_bytes();
                (KIND_PROBE, &ack)
            },
            Frame::KeepAlive => {
                keepalive = keepalive_bytes();
                (KIND_PROBE, &keepalive)
            },
            Frame::Register(p) => (KIND_REGISTER, p),
            Frame::Subscribe(p) => (KIND_SUBSCRIBE, p),
            Frame::Connection(p) => (KIND_CONNECTION, p),
            Frame::TargetConnection(p) => (KIND_TARGET_CONNECTION, p),
        };
        assert(payload@ == payload_of(self@) && kind == kind_of(self@));
        if payload.len() >= MAX_BODY {
            return Err(Error::TooLong);
        }
        let n: usize = payload.len() + 1;
        let mut bytes: Vec<u8> = Vec::new();
        bytes.push(SYNC);
        bytes.push((n / 256) as u8);
        bytes.push((n % 256) as u8);
        bytes.push(kind);
        push_all(&mut bytes, payload.as_slice());
        assert(bytes@ =~= encode(self@));
        Ok(bytes)
    }
}

/// The bytes `b[from..to]` as a new vector.
fn copy_range(b: &[u8], from: usize, to: usize) -> (r: Vec<u8>)
    requires
        from <= to <= b@.len(),
    ensures
        r@ == b@.subrange(from as int, to as int),
{
    let mut r: Vec<u8> = Vec::new();
    let mut i: usize = from;
    while i < to
        invariant
            from <= i <= to <= b@.len(),
            r@ == b@.subrange(from as int, i as int),
        decreases to - i,
    {
        r.push(b[i]);
        i = i + 1;
        assert(b@.subrange(from as int, i as int) =~= b@.subrange(from as int, i - 1) + seq![b@[i - 1]]);
    }
    r
}

/// What a registrant announces about itself.
#[derive(Clone, Debug)]
pub struct RegisterInfo {
    tag: String,
    tcp_port: Option<String>,
    udp_port: Option<String>,
    mate_data: MetaData,
}

impl RegisterInfo {
    pub closed spec fn tag(&self) -> Seq<char> {
        self.tag@
    }

    pub closed spec fn tcp_port(&self) -> Option<Seq<char>> {
        opt_view(self.tcp_port)
    }

    pub closed spec fn udp_port(&self) -> Option<Seq<char>> {
        opt_view(self.udp_port)
    }

    pub closed spec fn mate_data(&self) -> Map<String, String> {
        self.mate_data.inner@
    }

    /// An announcement of `tag` with no ports and no annotations.
    pub fn new(tag: String) -> (r: RegisterInfo)
        ensures
            r.tag() == tag@,
            r.tcp_port() is None,
            r.udp_port() is None,
            r.mate_data() == Map::<String, String>::empty(),
    {
        RegisterInfo {
            tag,
            tcp_port: None,
            udp_port: None,
            mate_data: MetaData::default(),
        }
    }

    /// An announcement made of all its parts.
    pub fn from_parts(
        tag: String,
        tcp_port: Option<String>,
        udp_port: Option<String>,
        mate_data: MetaData,
    ) -> (r: RegisterInfo)
        ensures
            r.tag() == tag@,
            r.tcp_port() == opt_view(tcp_port),
            r.udp_port() == opt_view(udp_port),
            r.mate_data() == mate_data.inner@,
    {
        RegisterInfo { tag, tcp_port, udp_port, mate_data }
    }

    /// The parts of the announcement: tag, TCP port, UDP port, annotations.
    pub fn into_parts(self) -> (r: (String, Option<String>, Option<String>, MetaData))
        ensures
            r.0@ == self.tag(),
            opt_view(r.1) == self.tcp_port(),
            opt_view(r.2) == self.udp_port(),
            r.3.inner@ == self.mate_data(),
    {
        (self.tag, self.tcp_port, self.udp_port, self.mate_data)
    }

    pub fn get_tag(&self) -> (r: &str)
        ensures
            r@ == self.tag(),
    {
        self.tag.as_str()
    }
}

/// A splice request: which tag asks, which tag should answer, and where
/// that registrant should connect. The source tag carries the correlation id.
#[derive(Clone, Debug)]
pub struct ConnectionInfo {
    agent_mode: AgentMode,
    source_tag: String,
    target_tag: String,
    target_host: String,
}

impl ConnectionInfo {
    pub closed spec fn agent_mode(&self) -> AgentMode {
        self.agent_mode
    }

    pub closed spec fn source_tag(&self) -> Seq<char> {
        self.source_tag@
    }

    pub closed spec fn target_tag(&self) -> Seq<char> {
        self.target_tag@
    }

    pub closed spec fn target_host(&self) -> Seq<char> {
        self.target_host@
    }

    pub fn new(
        agent_mode: AgentMode,
        source_tag: String,
        target_tag: String,
        target_host: String,
    ) -> (r: ConnectionInfo)
        ensures
            r.agent_mode() == agent_mode,
            r.source_tag() == source_tag@,
            r.target_tag() == target_tag@,
            r.target_host() == target_host@,
    {
        ConnectionInfo { agent_mode, source_tag, target_tag, target_host }
    }

    pub fn get_agent_mode(&self) -> (r: AgentMode)
        ensures
            r == self.agent_mode(),
    {
        self.agent_mode
    }

    pub fn get_target_tag(&self) -> (r: &str)
        ensures
            r@ == self.target_tag(),
    {
        self.target_tag.as_str()
    }

    pub fn get_source_tag(&self) -> (r: &str)
        ensures
            r@ == self.source_tag(),
    {
        self.source_tag.as_str()
    }

    pub fn get_target_host(&self) -> (r: &str)
        ensures
            r@ == self.target_host(),
    {
        self.target_host.as_str()
    }
}

/// A question "who is behind this tag?", and its answer when the address
/// is filled in.
#[derive(Clone, Debug)]
pub struct SubscribeInfo {
    target_tag: String,
    target_sockeraddr: Option<String>,
}

/// The view of an optional string.
pub open spec fn opt_view(o: Option<String>) -> Option<Seq<char>> {
    match o {
        Some(s) => Some(s@),
        None => None,
    }
}

impl SubscribeInfo {
    pub closed spec fn target_tag(&self) -> Seq<char> {
        self.target_tag@
    }

    pub closed spec fn target_addr(&self) -> Option<Seq<char>> {
        opt_view(self.target_sockeraddr)
    }

    /// A question about `target_tag`, not yet answered.
    pub fn new(target_tag: String) -> (r: SubscribeInfo)
        ensures
            r.target_tag() == target_tag@,
            r.target_addr() is None,
    {
        SubscribeInfo { target_tag, target_sockeraddr: None }
    }

    pub fn get_target_tag(&self) -> (r: &str)
        ensures
            r@ == self.target_tag(),
    {
        self.target_tag.as_str()
    }

    pub fn get_target_sockeraddr(&self) -> (r: Option<&str>)
        ensures
            match r {
                Some(a) => self.target_addr() == Some(a@),
                None => self.target_addr() is None,
            },
    {
        match &self.target_sockeraddr {
            Some(a) => Some(a.as_str()),
            None => None,
        }
    }

    pub fn set_target_sockeraddr(&mut self, addr: Option<String>)
        ensures
            final(self).target_tag() == old(self).target_tag(),
            final(self).target_addr() == opt_view(addr),
    {
        self.target_sockeraddr = addr;
    }
}

/// A control message, with its structured payload decoded.
#[derive(Debug)]
pub enum Message {
    Ping,
    Ack,
    KeepAlive,
    Register(RegisterInfo),
    Subscribe(SubscribeInfo),
    Connection(ConnectionInfo),
    TargetConnection(ConnectionInfo),
}

} // verus!
