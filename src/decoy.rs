use vstd::prelude::*;
use vstd::string::StringSliceAdditionalSpecFns;

verus! {

/// Byte standing for a random value in the packet templates.
pub const PLACEHOLDER: u8 = 0xAA;

/// Length of the TLS record header.
pub const RECORD_HEADER_LEN: usize = 5;

/// Length of the handshake message header.
pub const HANDSHAKE_HEADER_LEN: usize = 4;

/// Length of the server_name extension header in front of the host name.
pub const SNI_HEADER_LEN: usize = 9;

/// Longest host name carried by a decoy.
pub const MAX_SNI_LEN: usize = 255;

/// Template from the record header up to and including the length of the
/// extension block: record header, handshake header, version, random,
/// session id, cipher suites, compression methods, extensions length.
pub const PART0: [u8; 88] = [
    0x16, 0x03, 0x01, 0x00, 0x00, 0x01, 0x00, 0x00, 0x00, 0x03, 0x03,
    0xAA, 0xAA, 0xAA, 0xAA, 0xAA, 0xAA, 0xAA, 0xAA, 0xAA, 0xAA, 0xAA,
    0xAA, 0xAA, 0xAA, 0xAA, 0xAA, 0xAA, 0xAA, 0xAA, 0xAA, 0xAA, 0xAA,
    0xAA, 0xAA, 0xAA, 0xAA, 0xAA, 0xAA, 0xAA, 0xAA, 0xAA, 0xAA, 0x20,
    0xAA, 0xAA, 0xAA, 0xAA, 0xAA, 0xAA, 0xAA, 0xAA, 0xAA, 0xAA, 0xAA,
    0xAA, 0xAA, 0xAA, 0xAA, 0xAA, 0xAA, 0xAA, 0xAA, 0xAA, 0xAA, 0xAA,
    0xAA, 0xAA, 0xAA, 0xAA, 0xAA, 0xAA, 0xAA, 0xAA, 0xAA, 0xAA, 0x00,
    0x06, 0x13, 0x01, 0x13, 0x02, 0x13, 0x03, 0x01, 0x00, 0x00, 0x00,
];

/// Template of the extensions after server_name: supported_versions,
/// supported_groups, key_share (with a random key) and signature_algorithms.
pub const PART1: [u8; 65] = [
    0x00, 0x2b, 0x00, 0x03, 0x02, 0x03, 0x04,
    0x00, 0x0a, 0x00, 0x04, 0x00, 0x02, 0x00, 0x1d,
    0x00, 0x33, 0x00, 0x26, 0x00, 0x24, 0x00, 0x1d, 0x00, 0x20,
    0xAA, 0xAA, 0xAA, 0xAA, 0xAA, 0xAA, 0xAA, 0xAA,
    0xAA, 0xAA, 0xAA, 0xAA, 0xAA, 0xAA, 0xAA, 0xAA,
    0xAA, 0xAA, 0xAA, 0xAA, 0xAA, 0xAA, 0xAA, 0xAA,
    0xAA, 0xAA, 0xAA, 0xAA, 0xAA, 0xAA, 0xAA, 0xAA,
    0x00, 0x0d, 0x00, 0x04, 0x00, 0x02, 0x04, 0x03,
];

/// Length of the first template.
pub const PART0_LEN: usize = 88;

/// Length of the second template.
pub const PART1_LEN: usize = 65;

/// Offset of the record length field.
pub const RECORD_LEN_AT: usize = RECORD_HEADER_LEN - 2;

/// Offset of the low 16 bits of the handshake length field.
pub const HANDSHAKE_LEN_AT: usize = RECORD_HEADER_LEN + HANDSHAKE_HEADER_LEN - 2;

/// Offset of the extension block length field, the last two bytes of the
/// first template.
pub const EXTENSIONS_LEN_AT: usize = PART0_LEN - 2;

/// Offset of the host name.
pub const SNI_AT: usize = PART0_LEN + SNI_HEADER_LEN;

/// Random bytes a decoy needs: one for each template position.
pub const DECOY_NOISE_LEN: usize = PART0_LEN + PART1_LEN;

/// Big-endian encoding of a 16-bit value.
pub open spec fn be16(v: int) -> Seq<u8> {
    seq![(v / 256) as u8, (v % 256) as u8]
}

/// The 16-bit big-endian value stored at `at`.
pub open spec fn read_be16(p: Seq<u8>, at: int) -> int {
    p[at] as int * 256 + p[at + 1] as int
}

/// server_name extension header for one host name of `n` bytes: extension
/// type, extension length, list length, entry type host_name, name length.
pub open spec fn sni_header(n: int) -> Seq<u8> {
    seq![0u8, 0u8] + be16(n + 5) + be16(n + 3) + seq![0u8] + be16(n)
}

/// A template whose placeholders are replaced by the noise bytes found at
/// the same positions, counted from `base`.
pub open spec fn fill(t: Seq<u8>, noise: Seq<u8>, base: int) -> Seq<u8> {
    Seq::new(t.len(), |i: int| if t[i] == PLACEHOLDER { noise[base + i] } else { t[i] })
}

/// `p` with the 16-bit big-endian value `v` written at `at`.
pub open spec fn patch16(p: Seq<u8>, at: int, v: int) -> Seq<u8> {
    p.update(at, (v / 256) as u8).update(at + 1, (v % 256) as u8)
}

/// The decoy ClientHello for host name `sni`: both templates filled with
/// noise, the server_name extension between them, and the record,
/// handshake and extension-block lengths patched to the true size.
pub open spec fn decoy_packet(sni: Seq<u8>, noise: Seq<u8>) -> Seq<u8> {
    let total = PART0_LEN + SNI_HEADER_LEN + sni.len() + PART1_LEN;
    let body = fill(PART0@, noise, 0) + sni_header(sni.len() as int) + sni + fill(
        PART1@,
        noise,
        PART0_LEN as int,
    );
    patch16(
        patch16(
            patch16(body, RECORD_LEN_AT as int, total - RECORD_HEADER_LEN),
            HANDSHAKE_LEN_AT as int,
            total - RECORD_HEADER_LEN - HANDSHAKE_HEADER_LEN,
        ),
        EXTENSIONS_LEN_AT as int,
        total - PART0_LEN,
    )
}

/// Appends a 16-bit value in big-endian order.
fn push_be16(p: &mut Vec<u8>, v: usize)
    requires
        v < 65536,
    ensures
        final(p)@ == old(p)@ + be16(v as int),
{
    p.push((v / 256) as u8);
    p.push((v % 256) as u8);
    assert(final(p)@ =~= old(p)@ + be16(v as int));
}

/// Writes a 16-bit value in big-endian order at `at`.
fn write_be16(p: &mut Vec<u8>, at: usize, v: usize)
    requires
        v < 65536,
        at + 1 < old(p)@.len(),
    ensures
        final(p)@ == patch16(old(p)@, at as int, v as int),
{
    let len = p.len();
    assert(at + 1 < len);
    p.set(at, (v / 256) as u8);
    p.set(at + 1, (v % 256) as u8);
}

/// Appends `t` with each placeholder replaced by the noise byte at the same
/// position counted from `base`.
fn push_filled(p: &mut Vec<u8>, t: &[u8], noise: &[u8], base: usize)
    requires
        base + t@.len() <= noise@.len(),
    ensures
        final(p)@ == old(p)@ + fill(t@, noise@, base as int),
{
    let ghost start = p@;
    let m = noise.len();
    let mut i: usize = 0;
    while i < t.len()
        invariant
            base + t@.len() <= noise@.len(),
            m == noise@.len(),
            0 <= i <= t@.len(),
            p@ =~= start + fill(t@, noise@, base as int).subrange(0, i as int),
        decreases t@.len() - i,
    {
        let b = t[i];
        if b == PLACEHOLDER {
            p.push(noise[base + i]);
        } else {
            p.push(b);
        }
        i += 1;
        assert(p@ =~= start + fill(t@, noise@, base as int).subrange(0, i as int));
    }
    assert(fill(t@, noise@, base as int).subrange(0, i as int) =~= fill(t@, noise@, base as int));
}

/// Builds the decoy ClientHello for host name `sni`, drawing the random
/// fields from `noise`. There is none when the name is empty or longer than
/// the maximum, or when `noise` holds fewer than `DECOY_NOISE_LEN` bytes.
pub fn build_decoy_packet(sni: &str, noise: &[u8]) -> (r: Option<Vec<u8>>)
    ensures
        r is Some <==> 1 <= sni.spec_bytes().len() <= MAX_SNI_LEN && noise@.len()
            >= DECOY_NOISE_LEN,
        r matches Some(p) ==> p@ == decoy_packet(sni.spec_bytes(), noise@),
{
    let name = sni.as_bytes();
    let n = name.len();
    if n < 1 || n > MAX_SNI_LEN || noise.len() < DECOY_NOISE_LEN {
        return None;
    }
    let mut p: Vec<u8> = Vec::new();
    push_filled(&mut p, PART0.as_slice(), noise, 0);
    let ghost with_part0 = p@;
    push_be16(&mut p, 0);
    push_be16(&mut p, n + 5);
    push_be16(&mut p, n + 3);
    p.push(0);
    push_be16(&mut p, n);
    assert(p@ =~= with_part0 + sni_header(n as int));
    let ghost with_header = p@;
    let mut k: usize = 0;
    while k < n
        invariant
            n == name@.len(),
            0 <= k <= n,
            p@ =~= with_header + name@.subrange(0, k as int),
        decreases n - k,
    {
        p.push(name[k]);
        k += 1;
        assert(p@ =~= with_header + name@.subrange(0, k as int));
    }
    assert(name@.subrange(0, n as int) =~= name@);
    push_filled(&mut p, PART1.as_slice(), noise, PART0_LEN);
    let total = p.len();
    assert(total == PART0_LEN + SNI_HEADER_LEN + n + PART1_LEN);
    write_be16(&mut p, RECORD_LEN_AT, total - RECORD_HEADER_LEN);
    write_be16(&mut p, HANDSHAKE_LEN_AT, total - RECORD_HEADER_LEN - HANDSHAKE_HEADER_LEN);
    write_be16(&mut p, EXTENSIONS_LEN_AT, total - PART0_LEN);
    Some(p)
}

/// Splitting a 16-bit value into two bytes and joining them gives it back.
proof fn lemma_be16_round_trip(v: int)
    requires
        0 <= v < 65536,
    ensures
        (v / 256) as u8 as int * 256 + (v % 256) as u8 as int == v,
{
    assert(0 <= v / 256 < 256) by (nonlinear_arith)
        requires
            0 <= v < 65536,
    ;
    assert((v / 256) * 256 + v % 256 == v) by (nonlinear_arith);
}

/// Reading back a decoy: the record, handshake and extension-block length
/// fields hold the total length less 5, less 9 and less the first template,
/// the name length field holds the name's length, and the bytes at the name
/// offset are the name itself.
pub proof fn lemma_decoy_fields(sni: Seq<u8>, noise: Seq<u8>)
    requires
        1 <= sni.len() <= MAX_SNI_LEN,
        noise.len() >= DECOY_NOISE_LEN,
    ensures
        ({
            let p = decoy_packet(sni, noise);
            &&& p.len() == PART0_LEN + SNI_HEADER_LEN + sni.len() + PART1_LEN
            &&& read_be16(p, RECORD_LEN_AT as int) == p.len() - 5
            &&& read_be16(p, HANDSHAKE_LEN_AT as int) == p.len() - 9
            &&& read_be16(p, EXTENSIONS_LEN_AT as int) == p.len() - PART0_LEN
            &&& read_be16(p, SNI_AT - 2) == sni.len()
            &&& p.subrange(SNI_AT as int, SNI_AT + sni.len()) == sni
        }),
{
    let n = sni.len() as int;
    let total = PART0_LEN + SNI_HEADER_LEN + n + PART1_LEN;
    let f0 = fill(PART0@, noise, 0);
    let body = f0 + sni_header(n) + sni + fill(PART1@, noise, PART0_LEN as int);
    let p = decoy_packet(sni, noise);
    assert(f0.len() == PART0_LEN);
    assert(p.len() == total);
    lemma_be16_round_trip(total - 5);
    lemma_be16_round_trip(total - 9);
    lemma_be16_round_trip(total - PART0_LEN);
    lemma_be16_round_trip(n);
    assert(read_be16(p, RECORD_LEN_AT as int) == total - 5);
    assert(read_be16(p, HANDSHAKE_LEN_AT as int) == total - 9);
    assert(read_be16(p, EXTENSIONS_LEN_AT as int) == total - PART0_LEN);
    assert(p[SNI_AT - 2] == body[SNI_AT - 2]);
    assert(p[SNI_AT - 1] == body[SNI_AT - 1]);
    assert(body[SNI_AT - 2] == sni_header(n)[7]);
    assert(body[SNI_AT - 1] == sni_header(n)[8]);
    assert(read_be16(p, SNI_AT - 2) == n);
    assert forall|k: int| 0 <= k < n implies #[trigger] p.subrange(SNI_AT as int, SNI_AT + n)[k]
        == sni[k] by {
        assert(p[SNI_AT + k] == body[SNI_AT + k]);
        assert(body[SNI_AT + k] == sni[k]);
    }
    assert(p.subrange(SNI_AT as int, SNI_AT + n) =~= sni);
}

} // verus!
