//! Order payload codec.
//!
//! A settlement order is encoded sequentially, little endian throughout:
//! `order_id` (16 bytes), `token` (4-byte length prefix, then the bytes),
//! `nonce` (16), `settle_amount` (8), `sell_order_value` (8), `side`
//! (length-prefixed), `customer` (32 raw bytes), `order_ids` (4-byte element
//! count, then 16 bytes per element), `sellet_amounts` (likewise). The
//! encoding must fill the input exactly: truncation or trailing garbage is a
//! decode failure.

use vstd::bytes::{
    spec_u128_from_le_bytes, spec_u128_to_le_bytes, spec_u32_from_le_bytes, spec_u32_to_le_bytes,
    spec_u64_from_le_bytes, spec_u64_to_le_bytes, u128_from_le_bytes, u128_to_le_bytes,
    u32_from_le_bytes, u32_to_le_bytes, u64_from_le_bytes, u64_to_le_bytes,
};
use vstd::prelude::*;
use vstd::slice::{slice_subrange, slice_to_vec};

use crate::errors::ErrorCode;
use crate::order::{OrderV, SettleFullOrder};

verus! {

/// The 128-bit value encoded at offset `i` of `s`.
pub open spec fn le128_at(s: Seq<u8>, i: int) -> u128 {
    spec_u128_from_le_bytes(s.subrange(i, i + 16))
}

/// The 64-bit value encoded at offset `i` of `s`.
pub open spec fn le64_at(s: Seq<u8>, i: int) -> u64 {
    spec_u64_from_le_bytes(s.subrange(i, i + 8))
}

/// The 32-bit value encoded at offset `i` of `s`.
pub open spec fn le32_at(s: Seq<u8>, i: int) -> u32 {
    spec_u32_from_le_bytes(s.subrange(i, i + 4))
}

/// The unique order a byte string encodes, if any: the ground truth the
/// executable decoder is held to.
pub open spec fn parse_order(s: Seq<u8>) -> Option<OrderV> {
    if s.len() < 20 {
        None
    } else {
        let order_id = le128_at(s, 0);
        let token_len = le32_at(s, 16) as int;
        if s.len() < 20 + token_len + 36 {
            None
        } else {
            let token = s.subrange(20, 20 + token_len);
            let p = 20 + token_len;
            let nonce = le128_at(s, p);
            let settle_amount = le64_at(s, p + 16);
            let sell_order_value = le64_at(s, p + 24);
            let side_len = le32_at(s, p + 32) as int;
            if s.len() < p + 36 + side_len + 36 {
                None
            } else {
                let side = s.subrange(p + 36, p + 36 + side_len);
                let q = p + 36 + side_len;
                let customer = s.subrange(q, q + 32);
                let ids_len = le32_at(s, q + 32) as int;
                if s.len() < q + 36 + 16 * ids_len + 4 {
                    None
                } else {
                    let order_ids = Seq::new(ids_len as nat, |k: int| le128_at(s, q + 36 + 16 * k));
                    let w = q + 36 + 16 * ids_len;
                    let amounts_len = le32_at(s, w) as int;
                    if s.len() != w + 4 + 16 * amounts_len {
                        None
                    } else {
                        let sellet_amounts = Seq::new(
                            amounts_len as nat,
                            |k: int| le128_at(s, w + 4 + 16 * k),
                        );
                        Some(
                            OrderV {
                                order_id,
                                token,
                                nonce,
                                settle_amount,
                                sell_order_value,
                                side,
                                customer,
                                order_ids,
                                sellet_amounts,
                            },
                        )
                    }
                }
            }
        }
    }
}

fn read_u128(data: &Vec<u8>, pos: usize) -> (x: u128)
    requires
        pos + 16 <= data@.len(),
    ensures
        x == le128_at(data@, pos as int),
{
    let n = data.len();
    assert(pos + 16 <= n);
    u128_from_le_bytes(slice_subrange(data.as_slice(), pos, pos + 16))
}

fn read_u64(data: &Vec<u8>, pos: usize) -> (x: u64)
    requires
        pos + 8 <= data@.len(),
    ensures
        x == le64_at(data@, pos as int),
{
    let n = data.len();
    assert(pos + 8 <= n);
    u64_from_le_bytes(slice_subrange(data.as_slice(), pos, pos + 8))
}

fn read_u32(data: &Vec<u8>, pos: usize) -> (x: u32)
    requires
        pos + 4 <= data@.len(),
    ensures
        x == le32_at(data@, pos as int),
{
    let n = data.len();
    assert(pos + 4 <= n);
    u32_from_le_bytes(slice_subrange(data.as_slice(), pos, pos + 4))
}

fn read_u128_list(data: &Vec<u8>, pos: usize, n: usize) -> (r: Vec<u128>)
    requires
        pos + 16 * n <= data@.len(),
    ensures
        r@ == Seq::new(n as nat, |k: int| le128_at(data@, pos + 16 * k)),
{
    let mut r: Vec<u128> = Vec::new();
    let len = data.len();
    let mut i: usize = 0;
    while i < n
        invariant
            i <= n,
            pos + 16 * n <= len,
            len == data@.len(),
            r@ == Seq::new(i as nat, |k: int| le128_at(data@, pos + 16 * k)),
        decreases n - i,
    {
        assert(16 * i + 16 == 16 * (i + 1) <= 16 * n);
        let x = read_u128(data, pos + 16 * i);
        r.push(x);
        assert(r@ =~= Seq::new((i + 1) as nat, |k: int| le128_at(data@, pos + 16 * k)));
        i += 1;
    }
    r
}

/// Decode a settlement order from the signed payload bytes. Succeeds exactly
/// on byte strings that are a complete, canonical order encoding; any
/// truncation, length mismatch or trailing garbage is reported as a missing
/// instruction.
pub fn deserialize_order(order_payload: &Vec<u8>) -> (r: Result<SettleFullOrder, ErrorCode>)
    ensures
        match parse_order(order_payload@) {
            Some(ov) => r is Ok && r->Ok_0@ == ov,
            None => r is Err && r->Err_0 == ErrorCode::InstructionMissing,
        },
{
    let s = order_payload;
    let len = s.len();
    if len < 20 {
        return Err(ErrorCode::InstructionMissing);
    }
    let order_id = read_u128(s, 0);
    let token_len32 = read_u32(s, 16);
    if (token_len32 as u64) > (len as u64) - 20 || (len as u64) - 20 - (token_len32 as u64) < 36 {
        return Err(ErrorCode::InstructionMissing);
    }
    let token_len = token_len32 as usize;
    let token = slice_to_vec(slice_subrange(s.as_slice(), 20, 20 + token_len));
    let p = 20 + token_len;
    let nonce = read_u128(s, p);
    let settle_amount = read_u64(s, p + 16);
    let sell_order_value = read_u64(s, p + 24);
    let side_len32 = read_u32(s, p + 32);
    if (side_len32 as u64) > (len as u64) - (p as u64) - 36 || (len as u64) - (p as u64) - 36 - (
    side_len32 as u64) < 36 {
        return Err(ErrorCode::InstructionMissing);
    }
    let side_len = side_len32 as usize;
    let side = slice_to_vec(slice_subrange(s.as_slice(), p + 36, p + 36 + side_len));
    let q = p + 36 + side_len;
    let customer = slice_to_vec(slice_subrange(s.as_slice(), q, q + 32));
    let ids_len32 = read_u32(s, q + 32);
    if 16 * (ids_len32 as u64) + 4 > (len as u64) - (q as u64) - 36 {
        return Err(ErrorCode::InstructionMissing);
    }
    let ids_len = ids_len32 as usize;
    let order_ids = read_u128_list(s, q + 36, ids_len);
    let w = q + 36 + 16 * ids_len;
    let amounts_len32 = read_u32(s, w);
    if 16 * (amounts_len32 as u64) != (len as u64) - (w as u64) - 4 {
        return Err(ErrorCode::InstructionMissing);
    }
    let amounts_len = amounts_len32 as usize;
    let sellet_amounts = read_u128_list(s, w + 4, amounts_len);
    Ok(
        SettleFullOrder {
            order_id,
            token,
            nonce,
            settle_amount,
            sell_order_value,
            side,
            customer,
            order_ids,
            sellet_amounts,
        },
    )
}

/// Little-endian encoding of a sequence of 128-bit values, 16 bytes each,
/// in order.
pub open spec fn u128s_to_le(xs: Seq<u128>) -> Seq<u8>
    decreases xs.len(),
{
    if xs.len() == 0 {
        Seq::empty()
    } else {
        spec_u128_to_le_bytes(xs[0]) + u128s_to_le(xs.skip(1))
    }
}

pub proof fn lemma_u128s_to_le_len(xs: Seq<u128>)
    ensures
        u128s_to_le(xs).len() == 16 * xs.len(),
    decreases xs.len(),
{
    vstd::bytes::lemma_auto_spec_u128_to_from_le_bytes();
    if xs.len() > 0 {
        lemma_u128s_to_le_len(xs.skip(1));
    }
}

pub proof fn lemma_u128s_to_le_index(xs: Seq<u128>, k: int)
    requires
        0 <= k < xs.len(),
    ensures
        u128s_to_le(xs).subrange(16 * k, 16 * k + 16) == spec_u128_to_le_bytes(xs[k]),
    decreases xs.len(),
{
    vstd::bytes::lemma_auto_spec_u128_to_from_le_bytes();
    lemma_u128s_to_le_len(xs.skip(1));
    if k == 0 {
        assert(u128s_to_le(xs).subrange(0, 16) =~= spec_u128_to_le_bytes(xs[0]));
    } else {
        lemma_u128s_to_le_index(xs.skip(1), k - 1);
        assert(u128s_to_le(xs).subrange(16 * k, 16 * k + 16) =~= u128s_to_le(xs.skip(1)).subrange(
            16 * (k - 1),
            16 * (k - 1) + 16,
        ));
    }
}

proof fn lemma_u128s_to_le_snoc(xs: Seq<u128>)
    requires
        xs.len() > 0,
    ensures
        u128s_to_le(xs) == u128s_to_le(xs.drop_last()) + spec_u128_to_le_bytes(xs.last()),
    decreases xs.len(),
{
    vstd::bytes::lemma_auto_spec_u128_to_from_le_bytes();
    if xs.len() == 1 {
        assert(u128s_to_le(xs.drop_last()) == Seq::<u8>::empty());
        assert(u128s_to_le(xs.skip(1)) == Seq::<u8>::empty());
        assert(u128s_to_le(xs) == spec_u128_to_le_bytes(xs[0]) + u128s_to_le(xs.skip(1)));
        assert(xs.last() == xs[0]);
        assert(u128s_to_le(xs) =~= u128s_to_le(xs.drop_last()) + spec_u128_to_le_bytes(xs.last()));
    } else {
        lemma_u128s_to_le_snoc(xs.skip(1));
        assert(xs.skip(1).drop_last() =~= xs.drop_last().skip(1));
        assert(xs.skip(1).last() == xs.last());
        assert(xs.drop_last()[0] == xs[0]);
        assert(u128s_to_le(xs.drop_last()) == spec_u128_to_le_bytes(xs[0]) + u128s_to_le(
            xs.drop_last().skip(1),
        ));
        assert(u128s_to_le(xs) == spec_u128_to_le_bytes(xs[0]) + (u128s_to_le(
            xs.drop_last().skip(1),
        ) + spec_u128_to_le_bytes(xs.last())));
        assert(u128s_to_le(xs) =~= u128s_to_le(xs.drop_last()) + spec_u128_to_le_bytes(xs.last()));
    }
}

fn write_u128_list(out: &mut Vec<u8>, xs: &Vec<u128>)
    ensures
        final(out)@ == old(out)@ + u128s_to_le(xs@),
{
    let mut i: usize = 0;
    while i < xs.len()
        invariant
            i <= xs@.len(),
            out@ == old(out)@ + u128s_to_le(xs@.take(i as int)),
        decreases xs@.len() - i,
    {
        let mut piece = u128_to_le_bytes(xs[i]);
        out.append(&mut piece);
        proof {
            lemma_u128s_to_le_snoc(xs@.take(i + 1));
            assert(xs@.take(i + 1).drop_last() =~= xs@.take(i as int));
            assert(xs@.take(i + 1).last() == xs@[i as int]);
        }
        i += 1;
    }
    proof {
        assert(xs@.take(xs@.len() as int) =~= xs@);
    }
}

/// The canonical byte encoding of an order, the inverse of [`parse_order`].
/// Length prefixes are truncated to 32 bits, so the image is faithful only
/// when every variable-length field holds fewer than `u32::MAX` elements.
pub open spec fn spec_serialize_order(o: OrderV) -> Seq<u8> {
    spec_u128_to_le_bytes(o.order_id) + spec_u32_to_le_bytes(o.token.len() as u32) + o.token
        + spec_u128_to_le_bytes(o.nonce) + spec_u64_to_le_bytes(o.settle_amount)
        + spec_u64_to_le_bytes(o.sell_order_value) + spec_u32_to_le_bytes(o.side.len() as u32)
        + o.side + o.customer + spec_u32_to_le_bytes(o.order_ids.len() as u32) + u128s_to_le(
        o.order_ids,
    ) + spec_u32_to_le_bytes(o.sellet_amounts.len() as u32) + u128s_to_le(o.sellet_amounts)
}

/// Encode an order into the byte layout the decoder accepts.
pub fn serialize_order(order: &SettleFullOrder) -> (r: Vec<u8>)
    requires
        order.token@.len() <= 0xffff_ffff,
        order.side@.len() <= 0xffff_ffff,
        order.order_ids@.len() <= 0xffff_ffff,
        order.sellet_amounts@.len() <= 0xffff_ffff,
    ensures
        r@ == spec_serialize_order(order@),
{
    let mut out: Vec<u8> = Vec::new();
    let mut piece = u128_to_le_bytes(order.order_id);
    out.append(&mut piece);
    let mut piece = u32_to_le_bytes(order.token.len() as u32);
    out.append(&mut piece);
    let mut piece = slice_to_vec(order.token.as_slice());
    out.append(&mut piece);
    let mut piece = u128_to_le_bytes(order.nonce);
    out.append(&mut piece);
    let mut piece = u64_to_le_bytes(order.settle_amount);
    out.append(&mut piece);
    let mut piece = u64_to_le_bytes(order.sell_order_value);
    out.append(&mut piece);
    let mut piece = u32_to_le_bytes(order.side.len() as u32);
    out.append(&mut piece);
    let mut piece = slice_to_vec(order.side.as_slice());
    out.append(&mut piece);
    let mut piece = slice_to_vec(order.customer.as_slice());
    out.append(&mut piece);
    let mut piece = u32_to_le_bytes(order.order_ids.len() as u32);
    out.append(&mut piece);
    write_u128_list(&mut out, &order.order_ids);
    let mut piece = u32_to_le_bytes(order.sellet_amounts.len() as u32);
    out.append(&mut piece);
    write_u128_list(&mut out, &order.sellet_amounts);
    out
}

/// Round trip: the decoder recovers exactly the order the encoder was given.
/// Every canonically encoded order — its variable-length fields within the
/// 32-bit length prefixes, its customer key 32 bytes — parses back to
/// itself.
pub proof fn lemma_parse_serialize_order(o: OrderV)
    requires
        o.token.len() <= 0xffff_ffff,
        o.side.len() <= 0xffff_ffff,
        o.order_ids.len() <= 0xffff_ffff,
        o.sellet_amounts.len() <= 0xffff_ffff,
        o.customer.len() == 32,
    ensures
        parse_order(spec_serialize_order(o)) == Some(o),
{
    vstd::bytes::lemma_auto_spec_u32_to_from_le_bytes();
    vstd::bytes::lemma_auto_spec_u64_to_from_le_bytes();
    vstd::bytes::lemma_auto_spec_u128_to_from_le_bytes();
    lemma_u128s_to_le_len(o.order_ids);
    lemma_u128s_to_le_len(o.sellet_amounts);
    let s = spec_serialize_order(o);
    let t = o.token.len() as int;
    let sl = o.side.len() as int;
    let n1 = o.order_ids.len() as int;
    let n2 = o.sellet_amounts.len() as int;
    let p = 20 + t;
    let q = p + 36 + sl;
    let w = q + 36 + 16 * n1;
    assert(s.len() == w + 4 + 16 * n2);
    assert(s.subrange(0, 16) =~= spec_u128_to_le_bytes(o.order_id));
    assert(s.subrange(16, 20) =~= spec_u32_to_le_bytes(o.token.len() as u32));
    assert(le32_at(s, 16) as int == t);
    assert(s.subrange(20, 20 + t) =~= o.token);
    assert(s.subrange(p, p + 16) =~= spec_u128_to_le_bytes(o.nonce));
    assert(s.subrange(p + 16, p + 24) =~= spec_u64_to_le_bytes(o.settle_amount));
    assert(s.subrange(p + 24, p + 32) =~= spec_u64_to_le_bytes(o.sell_order_value));
    assert(s.subrange(p + 32, p + 36) =~= spec_u32_to_le_bytes(o.side.len() as u32));
    assert(le32_at(s, p + 32) as int == sl);
    assert(s.subrange(p + 36, q) =~= o.side);
    assert(s.subrange(q, q + 32) =~= o.customer);
    assert(s.subrange(q + 32, q + 36) =~= spec_u32_to_le_bytes(o.order_ids.len() as u32));
    assert(le32_at(s, q + 32) as int == n1);
    assert(s.subrange(q + 36, w) =~= u128s_to_le(o.order_ids));
    assert(s.subrange(w, w + 4) =~= spec_u32_to_le_bytes(o.sellet_amounts.len() as u32));
    assert(le32_at(s, w) as int == n2);
    assert(s.subrange(w + 4, w + 4 + 16 * n2) =~= u128s_to_le(o.sellet_amounts));
    assert forall|k: int| 0 <= k < n1 implies le128_at(s, q + 36 + 16 * k) == o.order_ids[k] by {
        lemma_u128s_to_le_index(o.order_ids, k);
        assert(s.subrange(q + 36 + 16 * k, q + 36 + 16 * k + 16) =~= u128s_to_le(
            o.order_ids,
        ).subrange(16 * k, 16 * k + 16));
    };
    assert(Seq::new(n1 as nat, |k: int| le128_at(s, q + 36 + 16 * k)) =~= o.order_ids);
    assert forall|k: int| 0 <= k < n2 implies le128_at(s, w + 4 + 16 * k)
        == o.sellet_amounts[k] by {
        lemma_u128s_to_le_index(o.sellet_amounts, k);
        assert(s.subrange(w + 4 + 16 * k, w + 4 + 16 * k + 16) =~= u128s_to_le(
            o.sellet_amounts,
        ).subrange(16 * k, 16 * k + 16));
    };
    assert(Seq::new(n2 as nat, |k: int| le128_at(s, w + 4 + 16 * k)) =~= o.sellet_amounts);
    assert(parse_order(s) is Some);
    assert(parse_order(s)->Some_0 == o);
}

} // verus!
