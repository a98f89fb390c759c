//! Placeholder point-to-point messaging: mock byte-reversal "encryption"
//! and the length-prefixed framing of the transport. This performs no real
//! cryptography and is not a security boundary.

use vstd::prelude::*;

verus! {

/// A message as it travels between peers.
#[derive(Clone, Debug)]
pub struct Message {
    pub sender: String,
    pub content: Vec<u8>,
    pub timestamp: u64,
}

/// The four-byte marker put in front of mock-encrypted content.
pub open spec fn enc_marker() -> Seq<u8> {
    seq![69u8, 78u8, 67u8, 58u8]  // "ENC:"
}

/// Mock encryption: the marker followed by the payload reversed.
pub open spec fn encrypt_spec(data: Seq<u8>) -> Seq<u8> {
    enc_marker() + data.reverse()
}

/// Mock decryption: a marked payload is reversed back; anything else is
/// passed through unchanged.
pub open spec fn decrypt_spec(data: Seq<u8>) -> Seq<u8> {
    if data.len() >= 4 && data.subrange(0, 4) == enc_marker() {
        data.skip(4).reverse()
    } else {
        data
    }
}

/// Mock encryption function; the key is unused by the placeholder scheme.
/// Always succeeds.
pub fn encrypt(data: &[u8], _key: &[u8]) -> (r: Result<Vec<u8>, ()>)
    ensures
        r matches Ok(v) && v@ == encrypt_spec(data@),
{
    let mut output: Vec<u8> = Vec::new();
    output.push(69);
    output.push(78);
    output.push(67);
    output.push(58);
    let n: usize = data.len();
    let mut i: usize = 0;
    while i < n
        invariant
            i <= n,
            n == data@.len(),
            output@.len() == 4 + i,
            output@.subrange(0, 4) =~= enc_marker(),
            forall|k: int| 0 <= k < i ==> #[trigger] output@[4 + k] == data@[n - 1 - k],
        decreases n - i,
    {
        output.push(data[n - 1 - i]);
        i += 1;
    }
    proof {
        assert forall|k: int| 0 <= k < output@.len() implies output@[k] == encrypt_spec(data@)[k] by {
            if k < 4 {
                assert(output@[k] == output@.subrange(0, 4)[k]);
            } else {
                let j = k - 4;
                assert(output@[4 + j] == data@[n - 1 - j]);
                assert(encrypt_spec(data@)[k] == data@.reverse()[j]);
            }
        }
        assert(output@ =~= encrypt_spec(data@));
    }
    Ok(output)
}

/// Mock decryption function. Always succeeds; unmarked input is handed back
/// unchanged as a fallback.
pub fn decrypt(data: &[u8]) -> (r: Result<Vec<u8>, ()>)
    ensures
        r matches Ok(v) && v@ == decrypt_spec(data@),
{
    if data.len() >= 4 && data[0] == 69 && data[1] == 78 && data[2] == 67 && data[3] == 58 {
        proof {
            assert(data@.subrange(0, 4) =~= enc_marker());
        }
        let n: usize = data.len();
        let mut output: Vec<u8> = Vec::new();
        let mut i: usize = 0;
        while i < n - 4
            invariant
                4 <= n == data@.len(),
                i <= n - 4,
                output@.len() == i,
                forall|k: int| 0 <= k < i ==> output@[k] == data@[n - 1 - k],
            decreases n - 4 - i,
        {
            output.push(data[n - 1 - i]);
            i += 1;
        }
        proof {
            assert(output@ =~= data@.skip(4).reverse());
        }
        Ok(output)
    } else {
        proof {
            if data@.len() >= 4 {
                assert(data@.subrange(0, 4) != enc_marker()) by {
                    if data@.subrange(0, 4) == enc_marker() {
                        assert(data@[0] == 69 && data@[1] == 78 && data@[2] == 67 && data@[3]
                            == 58);
                    }
                }
            }
        }
        let mut output: Vec<u8> = Vec::new();
        let n: usize = data.len();
        let mut i: usize = 0;
        while i < n
            invariant
                i <= n,
                n == data@.len(),
                output@.len() == i,
                forall|k: int| 0 <= k < i ==> output@[k] == data@[k],
            decreases n - i,
        {
            output.push(data[i]);
            i += 1;
        }
        proof {
            assert(output@ =~= data@);
        }
        Ok(output)
    }
}

/// Decrypting what was encrypted gives the payload back unchanged.
pub proof fn lemma_encrypt_decrypt_roundtrip(data: Seq<u8>)
    ensures
        decrypt_spec(encrypt_spec(data)) == data,
{
    let enc = encrypt_spec(data);
    assert(enc.subrange(0, 4) =~= enc_marker());
    assert(enc.skip(4) =~= data.reverse());
    assert(enc.skip(4).reverse() =~= data);
}

/// The transport frame: payload length as four big-endian bytes, then the
/// payload itself.
pub open spec fn be32_spec(x: u32) -> Seq<u8> {
    seq![
        (x as int / 16777216 % 256) as u8,
        (x as int / 65536 % 256) as u8,
        (x as int / 256 % 256) as u8,
        (x as int % 256) as u8,
    ]
}

pub open spec fn frame_spec(payload: Seq<u8>) -> Seq<u8> {
    be32_spec(payload.len() as u32) + payload
}

/// Splits a 32-bit length into its four big-endian bytes.
pub fn be32_bytes(x: u32) -> (r: Vec<u8>)
    ensures
        r@ == be32_spec(x),
        r@.len() == 4,
{
    let mut r: Vec<u8> = Vec::new();
    r.push((x / 16777216 % 256) as u8);
    r.push((x / 65536 % 256) as u8);
    r.push((x / 256 % 256) as u8);
    r.push((x % 256) as u8);
    proof {
        assert(r@ =~= be32_spec(x));
    }
    r
}

/// Reads a frame header back into the payload length it encodes.
pub fn be32_value(b0: u8, b1: u8, b2: u8, b3: u8) -> (r: u32)
    ensures
        r == (b0 as int) * 16777216 + (b1 as int) * 65536 + (b2 as int) * 256 + (b3 as int),
        be32_spec(r) == seq![b0, b1, b2, b3],
{
    let r: u32 = (b0 as u32) * 16777216 + (b1 as u32) * 65536 + (b2 as u32) * 256 + (b3 as u32);
    proof {
        assert(r / 16777216 % 256 == b0 as u32 && r / 65536 % 256 == b1 as u32 && r / 256 % 256
            == b2 as u32 && r % 256 == b3 as u32) by (bit_vector)
            requires
                r == (b0 as u32) * 16777216 + (b1 as u32) * 65536 + (b2 as u32) * 256 + (
                b3 as u32),
        ;
        assert(be32_spec(r) =~= seq![b0, b1, b2, b3]);
    }
    r
}

/// Wraps a payload in a length-prefixed frame; fails if the payload is too
/// long for a 32-bit length.
pub fn encode_frame(payload: &Vec<u8>) -> (r: Option<Vec<u8>>)
    ensures
        payload@.len() <= u32::MAX ==> (r matches Some(v) && v@ == frame_spec(payload@)),
        payload@.len() > u32::MAX ==> r is None,
{
    if payload.len() > u32::MAX as usize {
        return None;
    }
    let mut out: Vec<u8> = be32_bytes(payload.len() as u32);
    let mut i: usize = 0;
    while i < payload.len()
        invariant
            i <= payload@.len(),
            payload@.len() <= u32::MAX,
            out@.len() == 4 + i,
            out@.subrange(0, 4) =~= be32_spec(payload@.len() as u32),
            forall|k: int| 0 <= k < i ==> #[trigger] out@[4 + k] == payload@[k],
        decreases payload@.len() - i,
    {
        out.push(payload[i]);
        i += 1;
    }
    proof {
        assert forall|k: int| 0 <= k < out@.len() implies out@[k] == frame_spec(payload@)[k] by {
            if k < 4 {
                assert(out@[k] == out@.subrange(0, 4)[k]);
            } else {
                let j = k - 4;
                assert(out@[4 + j] == payload@[j]);
            }
        }
        assert(out@ =~= frame_spec(payload@));
    }
    Some(out)
}

} // verus!
