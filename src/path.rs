//! Logical IBC storage paths, their canonical strings and their storage keys.
use vstd::prelude::*;
use vstd::string::StringExecFns;
use vstd::utf8::{encode_utf8, encode_utf8_decode_utf8};

use crate::error::RelayError;
use crate::hash::{keccak, keccak256};
use crate::height::Height;

verus! {

/// A logical IBC storage location.
#[derive(Debug, Clone)]
pub enum Path {
    ClientState { client_id: String },
    Commitment { port_id: String, channel_id: String, sequence: u64 },
    Acknowledgement { port_id: String, channel_id: String, sequence: u64 },
    Receipt { port_id: String, channel_id: String, sequence: u64 },
    ClientConsensusState { client_id: String, height: Height },
    Connection { connection_id: String },
    ChannelEnd { port_id: String, channel_id: String },
    NextSequenceSend { port_id: String, channel_id: String },
    NextSequenceRecv { port_id: String, channel_id: String },
    NextSequenceAck { port_id: String, channel_id: String },
    NextConnectionSequence,
    NextClientSequence,
}

/// What a [`Path`] denotes, with its identifiers as character sequences.
pub enum PathModel {
    ClientState { client_id: Seq<char> },
    Commitment { port_id: Seq<char>, channel_id: Seq<char>, sequence: u64 },
    Acknowledgement { port_id: Seq<char>, channel_id: Seq<char>, sequence: u64 },
    Receipt { port_id: Seq<char>, channel_id: Seq<char>, sequence: u64 },
    ClientConsensusState { client_id: Seq<char>, height: Height },
    Connection { connection_id: Seq<char> },
    ChannelEnd { port_id: Seq<char>, channel_id: Seq<char> },
    NextSequenceSend { port_id: Seq<char>, channel_id: Seq<char> },
    NextSequenceRecv { port_id: Seq<char>, channel_id: Seq<char> },
    NextSequenceAck { port_id: Seq<char>, channel_id: Seq<char> },
    NextConnectionSequence,
    NextClientSequence,
}

impl View for Path {
    type V = PathModel;

    open spec fn view(&self) -> PathModel {
        match self {
            Path::ClientState { client_id } => PathModel::ClientState { client_id: client_id@ },
            Path::Commitment { port_id, channel_id, sequence } => PathModel::Commitment {
                port_id: port_id@,
                channel_id: channel_id@,
                sequence: *sequence,
            },
            Path::Acknowledgement { port_id, channel_id, sequence } => PathModel::Acknowledgement {
                port_id: port_id@,
                channel_id: channel_id@,
                sequence: *sequence,
            },
            Path::Receipt { port_id, channel_id, sequence } => PathModel::Receipt {
                port_id: port_id@,
                channel_id: channel_id@,
                sequence: *sequence,
            },
            Path::ClientConsensusState { client_id, height } => PathModel::ClientConsensusState {
                client_id: client_id@,
                height: *height,
            },
            Path::Connection { connection_id } => PathModel::Connection {
                connection_id: connection_id@,
            },
            Path::ChannelEnd { port_id, channel_id } => PathModel::ChannelEnd {
                port_id: port_id@,
                channel_id: channel_id@,
            },
            Path::NextSequenceSend { port_id, channel_id } => PathModel::NextSequenceSend {
                port_id: port_id@,
                channel_id: channel_id@,
            },
            Path::NextSequenceRecv { port_id, channel_id } => PathModel::NextSequenceRecv {
                port_id: port_id@,
                channel_id: channel_id@,
            },
            Path::NextSequenceAck { port_id, channel_id } => PathModel::NextSequenceAck {
                port_id: port_id@,
                channel_id: channel_id@,
            },
            Path::NextConnectionSequence => PathModel::NextConnectionSequence,
            Path::NextClientSequence => PathModel::NextClientSequence,
        }
    }
}

/// Whether the execution chain's contracts store the value at this path: client states
/// in the light client, packet commitments, acknowledgements and receipts in the
/// commitment store.
pub open spec fn is_provable(p: PathModel) -> bool {
    match p {
        PathModel::ClientState { .. } => true,
        PathModel::Commitment { .. } => true,
        PathModel::Acknowledgement { .. } => true,
        PathModel::Receipt { .. } => true,
        _ => false,
    }
}

/// Whether a packet path's sequence is positive, as packet sequences start at one.
pub open spec fn positive_sequence(p: PathModel) -> bool {
    match p {
        PathModel::Commitment { sequence, .. } => sequence > 0,
        PathModel::Acknowledgement { sequence, .. } => sequence > 0,
        PathModel::Receipt { sequence, .. } => sequence > 0,
        _ => true,
    }
}

/// Why a path has no storage key on this chain, or `None` where it has one.
pub open spec fn path_error(p: PathModel) -> Option<RelayError> {
    if !is_provable(p) {
        Some(RelayError::UnsupportedPath)
    } else if !positive_sequence(p) {
        Some(RelayError::ZeroSequence)
    } else {
        None
    }
}

/// Whether the value at this path lives in the commitment store.
pub open spec fn is_commitment_path(p: PathModel) -> bool {
    match p {
        PathModel::Commitment { .. } => true,
        PathModel::Acknowledgement { .. } => true,
        PathModel::Receipt { .. } => true,
        _ => false,
    }
}

/// The decimal digit `d`.
pub open spec fn digit_char(d: nat) -> char {
    ((d + 48) as u8) as char
}

/// The decimal rendering of `n`, without leading zeros.
pub open spec fn decimal(n: nat) -> Seq<char>
    decreases n,
{
    if n < 10 {
        seq![digit_char(n)]
    } else {
        decimal(n / 10).push(digit_char(n % 10))
    }
}

/// The canonical string of a packet path under `prefix`.
pub open spec fn packet_path(prefix: Seq<char>, port: Seq<char>, channel: Seq<char>, sequence: u64) -> Seq<char> {
    prefix + port + "/channels/"@ + channel + "/sequences/"@ + decimal(sequence as nat)
}

/// The canonical string of a path that has a storage layout on this chain.
pub open spec fn storage_path(p: PathModel) -> Seq<char> {
    match p {
        PathModel::ClientState { client_id } => "clients/"@ + client_id + "/clientState"@,
        PathModel::Commitment { port_id, channel_id, sequence } =>
            packet_path("commitments/ports/"@, port_id, channel_id, sequence),
        PathModel::Acknowledgement { port_id, channel_id, sequence } =>
            packet_path("acks/ports/"@, port_id, channel_id, sequence),
        PathModel::Receipt { port_id, channel_id, sequence } =>
            packet_path("receipts/ports/"@, port_id, channel_id, sequence),
        _ => Seq::empty(),
    }
}

/// The storage key of a provable path: the digest of its canonical string's UTF-8 bytes.
pub open spec fn storage_key(p: PathModel) -> Seq<u8> {
    keccak(encode_utf8(storage_path(p)))
}

/// An IBC identifier: no character of it is a path separator.
pub open spec fn valid_identifier(s: Seq<char>) -> bool {
    forall|i: int| 0 <= i < s.len() ==> s[i] != '/'
}

/// Whether every identifier in the path is an IBC identifier.
pub open spec fn has_valid_identifiers(p: PathModel) -> bool {
    match p {
        PathModel::ClientState { client_id } => valid_identifier(client_id),
        PathModel::Commitment { port_id, channel_id, .. } => valid_identifier(port_id)
            && valid_identifier(channel_id),
        PathModel::Acknowledgement { port_id, channel_id, .. } => valid_identifier(port_id)
            && valid_identifier(channel_id),
        PathModel::Receipt { port_id, channel_id, .. } => valid_identifier(port_id)
            && valid_identifier(channel_id),
        PathModel::ClientConsensusState { client_id, .. } => valid_identifier(client_id),
        PathModel::Connection { connection_id } => valid_identifier(connection_id),
        PathModel::ChannelEnd { port_id, channel_id } => valid_identifier(port_id)
            && valid_identifier(channel_id),
        PathModel::NextSequenceSend { port_id, channel_id } => valid_identifier(port_id)
            && valid_identifier(channel_id),
        PathModel::NextSequenceRecv { port_id, channel_id } => valid_identifier(port_id)
            && valid_identifier(channel_id),
        PathModel::NextSequenceAck { port_id, channel_id } => valid_identifier(port_id)
            && valid_identifier(channel_id),
        _ => true,
    }
}

/// The decimal digit `d` as a string.
fn digit_str(d: u64) -> (r: &'static str)
    requires
        d < 10,
    ensures
        r@ == seq![digit_char(d as nat)],
{
    proof {
        reveal_strlit("0");
        reveal_strlit("1");
        reveal_strlit("2");
        reveal_strlit("3");
        reveal_strlit("4");
        reveal_strlit("5");
        reveal_strlit("6");
        reveal_strlit("7");
        reveal_strlit("8");
        reveal_strlit("9");
    }
    if d == 0 {
        "0"
    } else if d == 1 {
        "1"
    } else if d == 2 {
        "2"
    } else if d == 3 {
        "3"
    } else if d == 4 {
        "4"
    } else if d == 5 {
        "5"
    } else if d == 6 {
        "6"
    } else if d == 7 {
        "7"
    } else if d == 8 {
        "8"
    } else {
        "9"
    }
}

/// Appends the decimal rendering of `n` to `s`.
pub fn push_decimal(s: &mut String, n: u64)
    ensures
        final(s)@ == old(s)@ + decimal(n as nat),
    decreases n,
{
    if n >= 10 {
        push_decimal(s, n / 10);
    }
    s.append(digit_str(n % 10));
    assert(s@ =~= old(s)@ + decimal(n as nat));
}

/// The canonical string of a packet path under `prefix`.
fn render_packet_path(prefix: &str, port: &String, channel: &String, sequence: u64) -> (r: String)
    ensures
        r@ == packet_path(prefix@, port@, channel@, sequence),
{
    let mut s = String::new();
    s.append(prefix);
    s.append(port.as_str());
    s.append("/channels/");
    s.append(channel.as_str());
    s.append("/sequences/");
    push_decimal(&mut s, sequence);
    assert(s@ =~= packet_path(prefix@, port@, channel@, sequence));
    s
}

impl Path {
    /// The canonical string of the path, for the paths that have a storage layout on
    /// this chain; the others are refused as unsupported, and packet paths of sequence
    /// zero as invalid.
    pub fn storage_path_string(&self) -> (r: Result<String, RelayError>)
        ensures
            path_error(self@) is None <==> r is Ok,
            r is Ok ==> r->Ok_0@ == storage_path(self@),
            r is Err ==> path_error(self@) == Some(r->Err_0),
    {
        match self {
            Path::ClientState { client_id } => {
                let mut s = String::new();
                s.append("clients/");
                s.append(client_id.as_str());
                s.append("/clientState");
                assert(s@ =~= storage_path(self@));
                Ok(s)
            },
            Path::Commitment { port_id, channel_id, sequence } => if *sequence == 0 {
                Err(RelayError::ZeroSequence)
            } else {
                Ok(
                    render_packet_path("commitments/ports/", port_id, channel_id, *sequence),
                )
            },
            Path::Acknowledgement { port_id, channel_id, sequence } => if *sequence == 0 {
                Err(RelayError::ZeroSequence)
            } else {
                Ok(
                    render_packet_path("acks/ports/", port_id, channel_id, *sequence),
                )
            },
            Path::Receipt { port_id, channel_id, sequence } => if *sequence == 0 {
                Err(RelayError::ZeroSequence)
            } else {
                Ok(
                    render_packet_path("receipts/ports/", port_id, channel_id, *sequence),
                )
            },
            _ => Err(RelayError::UnsupportedPath),
        }
    }
}

/// Conversion of a path to the key under which the execution chain stores its value.
pub trait IbcEurekaPathExt {
    /// The key of the path, or why it has none.
    spec fn spec_storage_key(&self) -> Result<Seq<u8>, RelayError>;

    /// The 32-byte storage key of the path; paths without one are refused.
    fn to_storage_key(&self) -> (r: Result<[u8; 32], RelayError>)
        ensures
            self.spec_storage_key() is Ok <==> r is Ok,
            r is Ok ==> r->Ok_0@ == self.spec_storage_key()->Ok_0,
            r is Err ==> r->Err_0 == self.spec_storage_key()->Err_0,
    ;
}

impl IbcEurekaPathExt for Path {
    open spec fn spec_storage_key(&self) -> Result<Seq<u8>, RelayError> {
        match path_error(self@) {
            None => Ok(storage_key(self@)),
            Some(e) => Err(e),
        }
    }

    fn to_storage_key(&self) -> (r: Result<[u8; 32], RelayError>) {
        match self.storage_path_string() {
            Ok(s) => Ok(keccak256(s.as_str().as_bytes())),
            Err(e) => Err(e),
        }
    }
}

/// A decimal rendering has one character below ten and at least two from ten on.
proof fn lemma_decimal_len(n: nat)
    ensures
        decimal(n).len() >= 1,
        n < 10 <==> decimal(n).len() == 1,
    decreases n,
{
    if n >= 10 {
        lemma_decimal_len(n / 10);
    }
}

/// Distinct numbers have distinct decimal renderings.
proof fn lemma_decimal_injective(n: nat, m: nat)
    requires
        decimal(n) == decimal(m),
    ensures
        n == m,
    decreases n,
{
    lemma_decimal_len(n);
    lemma_decimal_len(m);
    if n < 10 {
        assert(decimal(n)[0] == digit_char(n));
        assert(decimal(m)[0] == digit_char(m));
    } else {
        let dn = decimal(n);
        assert(dn.last() == digit_char(n % 10));
        assert(decimal(m).last() == digit_char(m % 10));
        assert(dn.drop_last() =~= decimal(n / 10));
        assert(decimal(m).drop_last() =~= decimal(m / 10));
        lemma_decimal_injective(n / 10, m / 10);
    }
}

/// An identifier followed by text that starts with a separator splits in one way only.
proof fn lemma_split_at_separator(x1: Seq<char>, r1: Seq<char>, x2: Seq<char>, r2: Seq<char>)
    requires
        valid_identifier(x1),
        valid_identifier(x2),
        r1.len() > 0 && r1[0] == '/',
        r2.len() > 0 && r2[0] == '/',
        x1 + r1 == x2 + r2,
    ensures
        x1 == x2,
        r1 == r2,
{
    let s = x1 + r1;
    if x1.len() < x2.len() {
        assert(s[x1.len() as int] == r1[0]);
        assert((x2 + r2)[x1.len() as int] == x2[x1.len() as int]);
    } else if x2.len() < x1.len() {
        assert((x2 + r2)[x2.len() as int] == r2[0]);
        assert(s[x2.len() as int] == x1[x2.len() as int]);
    }
    assert(x1 =~= s.subrange(0, x1.len() as int));
    assert(x2 =~= (x2 + r2).subrange(0, x2.len() as int));
    assert(r1 =~= s.subrange(x1.len() as int, s.len() as int));
    assert(r2 =~= (x2 + r2).subrange(x2.len() as int, s.len() as int));
}

/// Packet paths under one prefix with equal strings have equal components.
proof fn lemma_packet_path_injective(
    prefix: Seq<char>,
    p1: Seq<char>,
    c1: Seq<char>,
    n1: u64,
    p2: Seq<char>,
    c2: Seq<char>,
    n2: u64,
)
    requires
        valid_identifier(p1),
        valid_identifier(c1),
        valid_identifier(p2),
        valid_identifier(c2),
        packet_path(prefix, p1, c1, n1) == packet_path(prefix, p2, c2, n2),
    ensures
        p1 == p2,
        c1 == c2,
        n1 == n2,
{
    reveal_strlit("/channels/");
    reveal_strlit("/sequences/");
    let m = "/channels/"@;
    let q = "/sequences/"@;
    let t1 = c1 + (q + decimal(n1 as nat));
    let t2 = c2 + (q + decimal(n2 as nat));
    let u1 = p1 + (m + t1);
    let u2 = p2 + (m + t2);
    assert(packet_path(prefix, p1, c1, n1) =~= prefix + u1);
    assert(packet_path(prefix, p2, c2, n2) =~= prefix + u2);
    assert(u1 =~= (prefix + u1).subrange(prefix.len() as int, (prefix + u1).len() as int));
    assert(u2 =~= (prefix + u2).subrange(prefix.len() as int, (prefix + u2).len() as int));
    assert((m + t1)[0] == '/');
    assert((m + t2)[0] == '/');
    lemma_split_at_separator(p1, m + t1, p2, m + t2);
    assert(t1 =~= (m + t1).subrange(m.len() as int, (m + t1).len() as int));
    assert(t2 =~= (m + t2).subrange(m.len() as int, (m + t2).len() as int));
    assert((q + decimal(n1 as nat))[0] == '/');
    assert((q + decimal(n2 as nat))[0] == '/');
    lemma_split_at_separator(c1, q + decimal(n1 as nat), c2, q + decimal(n2 as nat));
    let e1 = q + decimal(n1 as nat);
    assert(decimal(n1 as nat) =~= e1.subrange(q.len() as int, e1.len() as int));
    assert(decimal(n2 as nat) =~= (q + decimal(n2 as nat)).subrange(q.len() as int, e1.len() as int));
    lemma_decimal_injective(n1 as nat, n2 as nat);
}

/// The first two characters of a provable path's string, which tell its kind apart.
proof fn lemma_storage_path_head(p: PathModel)
    requires
        is_provable(p),
    ensures
        storage_path(p).len() >= 2,
        p is ClientState ==> storage_path(p)[0] == 'c' && storage_path(p)[1] == 'l',
        p is Commitment ==> storage_path(p)[0] == 'c' && storage_path(p)[1] == 'o',
        p is Acknowledgement ==> storage_path(p)[0] == 'a',
        p is Receipt ==> storage_path(p)[0] == 'r',
{
    reveal_strlit("clients/");
    reveal_strlit("commitments/ports/");
    reveal_strlit("acks/ports/");
    reveal_strlit("receipts/ports/");
    match p {
        PathModel::ClientState { client_id } => {
            let pre = "clients/"@;
            assert(storage_path(p) == pre + (client_id + "/clientState"@));
        },
        PathModel::Commitment { port_id, channel_id, sequence } => {
            let pre = "commitments/ports/"@;
            let rest = port_id + "/channels/"@ + channel_id + "/sequences/"@ + decimal(sequence as nat);
            assert(storage_path(p) =~= pre + rest);
        },
        PathModel::Acknowledgement { port_id, channel_id, sequence } => {
            let pre = "acks/ports/"@;
            let rest = port_id + "/channels/"@ + channel_id + "/sequences/"@ + decimal(sequence as nat);
            assert(storage_path(p) =~= pre + rest);
        },
        PathModel::Receipt { port_id, channel_id, sequence } => {
            let pre = "receipts/ports/"@;
            let rest = port_id + "/channels/"@ + channel_id + "/sequences/"@ + decimal(sequence as nat);
            assert(storage_path(p) =~= pre + rest);
        },
        _ => {},
    }
}

/// The storage key depends on the path alone: two paths that denote the same location
/// have the same key.
pub proof fn lemma_storage_key_deterministic(a: Path, b: Path)
    requires
        a@ == b@,
    ensures
        a.spec_storage_key() == b.spec_storage_key(),
{
}

/// Distinct provable paths whose identifiers hold no separator have distinct canonical
/// strings, and so hand distinct byte strings to the digest that makes their keys.
pub proof fn lemma_distinct_paths_distinct_preimages(a: Path, b: Path)
    requires
        is_provable(a@),
        is_provable(b@),
        has_valid_identifiers(a@),
        has_valid_identifiers(b@),
        a@ != b@,
    ensures
        storage_path(a@) != storage_path(b@),
        encode_utf8(storage_path(a@)) != encode_utf8(storage_path(b@)),
{
    let (x, y) = (a@, b@);
    if storage_path(x) == storage_path(y) {
        lemma_storage_path_head(x);
        lemma_storage_path_head(y);
        match (x, y) {
            (PathModel::ClientState { client_id: i1 }, PathModel::ClientState { client_id: i2 }) => {
                let pre = "clients/"@;
                let suf = "/clientState"@;
                let s = storage_path(x);
                assert(i1 =~= s.subrange(pre.len() as int, s.len() - suf.len()));
                assert(i2 =~= s.subrange(pre.len() as int, s.len() - suf.len()));
            },
            (
                PathModel::Commitment { port_id: p1, channel_id: c1, sequence: n1 },
                PathModel::Commitment { port_id: p2, channel_id: c2, sequence: n2 },
            ) => {
                lemma_packet_path_injective("commitments/ports/"@, p1, c1, n1, p2, c2, n2);
            },
            (
                PathModel::Acknowledgement { port_id: p1, channel_id: c1, sequence: n1 },
                PathModel::Acknowledgement { port_id: p2, channel_id: c2, sequence: n2 },
            ) => {
                lemma_packet_path_injective("acks/ports/"@, p1, c1, n1, p2, c2, n2);
            },
            (
                PathModel::Receipt { port_id: p1, channel_id: c1, sequence: n1 },
                PathModel::Receipt { port_id: p2, channel_id: c2, sequence: n2 },
            ) => {
                lemma_packet_path_injective("receipts/ports/"@, p1, c1, n1, p2, c2, n2);
            },
            _ => {},
        }
    }
    if encode_utf8(storage_path(x)) == encode_utf8(storage_path(y)) {
        encode_utf8_decode_utf8(storage_path(x));
        encode_utf8_decode_utf8(storage_path(y));
    }
}

} // verus!
