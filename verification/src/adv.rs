//! The advertising payload wire format: a sequence of AD structures, each
//! `[length, type, payload…]` with `length` counting the type byte and the
//! payload, packed into an advertising-data buffer of at most 31 bytes.
//! Exceeding the budget is a clean encoding failure, never a truncation.

use vstd::prelude::*;

verus! {

/// The advertising-data budget in bytes.
pub const ADV_DATA_MAX: usize = 31;

/// Flags bit: the device is generally discoverable.
pub const LE_GENERAL_DISCOVERABLE: u8 = 0x02;

/// Flags bit: classic BR/EDR transport is not supported.
pub const BR_EDR_NOT_SUPPORTED: u8 = 0x04;

/// One AD structure of the advertising payload.
#[derive(Debug)]
pub enum AdStructure {
    /// The Flags structure (AD type 0x01) with its one flag byte.
    Flags(u8),
    /// A complete list of 16-bit service UUIDs (AD type 0x03), each as its
    /// two little-endian bytes.
    ServiceUuids16(Vec<[u8; 2]>),
    /// The complete local name (AD type 0x09), as its ASCII bytes.
    CompleteLocalName(Vec<u8>),
}

/// The AD type byte of a structure.
pub open spec fn ad_type(a: AdStructure) -> u8 {
    match a {
        AdStructure::Flags(_) => 0x01,
        AdStructure::ServiceUuids16(_) => 0x03,
        AdStructure::CompleteLocalName(_) => 0x09,
    }
}

/// The flattened little-endian bytes of a list of 16-bit UUIDs.
pub open spec fn uuid16_bytes(us: Seq<[u8; 2]>) -> Seq<u8>
    decreases us.len(),
{
    if us.len() == 0 {
        Seq::empty()
    } else {
        uuid16_bytes(us.drop_last()) + us.last()@
    }
}

/// The payload bytes of one AD structure, after its length and type bytes.
pub open spec fn ad_payload(a: AdStructure) -> Seq<u8> {
    match a {
        AdStructure::Flags(f) => seq![f],
        AdStructure::ServiceUuids16(us) => uuid16_bytes(us@),
        AdStructure::CompleteLocalName(n) => n@,
    }
}

/// The wire bytes of one AD structure: its length byte (type byte plus
/// payload), its type byte, then its payload.
pub open spec fn encode_one(a: AdStructure) -> Seq<u8> {
    seq![(ad_payload(a).len() + 1) as u8, ad_type(a)] + ad_payload(a)
}

/// The wire bytes of a whole advertising payload: the structures' encodings
/// in order.
pub open spec fn encode_ads(ads: Seq<AdStructure>) -> Seq<u8>
    decreases ads.len(),
{
    if ads.len() == 0 {
        Seq::empty()
    } else {
        encode_ads(ads.drop_last()) + encode_one(ads.last())
    }
}

/// The encoding of a prefix is never longer than the whole encoding.
pub proof fn lemma_encode_prefix_len(ads: Seq<AdStructure>, i: int)
    requires
        0 <= i <= ads.len(),
    ensures
        encode_ads(ads.take(i)).len() <= encode_ads(ads).len(),
    decreases ads.len() - i,
{
    if i == ads.len() {
        assert(ads.take(i) =~= ads);
    } else {
        lemma_encode_prefix_len(ads, i + 1);
        assert(ads.take(i + 1).drop_last() =~= ads.take(i));
        assert(ads.take(i + 1).last() == ads[i]);
    }
}

/// Failure of payload encoding: the structures do not fit the budget.
#[derive(Clone, Copy, Debug, PartialEq, Eq, Structural)]
pub enum EncodeError {
    /// The encoded payload would exceed `ADV_DATA_MAX` bytes.
    InsufficientSpace,
}

/// The one flag byte as a payload vector.
fn flags_payload(f: u8) -> (r: Vec<u8>)
    ensures
        r@ == seq![f],
{
    let mut p: Vec<u8> = Vec::new();
    p.push(f);
    proof {
        assert(p@ =~= seq![f]);
    }
    p
}

/// The flattened bytes of a 16-bit UUID list as a payload vector.
fn uuid16_payload(us: &Vec<[u8; 2]>) -> (r: Vec<u8>)
    ensures
        r@ == uuid16_bytes(us@),
{
    let mut p: Vec<u8> = Vec::new();
    let mut j: usize = 0;
    while j < us.len()
        invariant
            j <= us@.len(),
            p@ == uuid16_bytes(us@.take(j as int)),
        decreases us@.len() - j,
    {
        let u = us[j];
        p.push(u[0]);
        p.push(u[1]);
        proof {
            assert(us@.take(j as int + 1).drop_last() =~= us@.take(j as int));
            assert(us@.take(j as int + 1).last() == us@[j as int]);
            assert(u@ =~= seq![u[0], u[1]]);
            assert(p@ =~= uuid16_bytes(us@.take(j as int + 1)));
        }
        j = j + 1;
    }
    proof {
        assert(us@.take(us@.len() as int) =~= us@);
    }
    p
}

/// A copy of the name bytes as a payload vector.
fn name_payload(n: &Vec<u8>) -> (r: Vec<u8>)
    ensures
        r@ == n@,
{
    let r = n.clone();
    proof {
        assert(r@ =~= n@);
    }
    r
}

/// Encode a whole advertising payload. Succeeds with exactly the wire
/// bytes when they fit the 31-byte budget; fails, handing nothing back,
/// exactly when they would exceed it.
pub fn encode_adv_data(ads: &Vec<AdStructure>) -> (r: Result<Vec<u8>, EncodeError>)
    ensures
        encode_ads(ads@).len() <= ADV_DATA_MAX ==> (r matches Ok(v) && v@ == encode_ads(ads@)),
        encode_ads(ads@).len() > ADV_DATA_MAX ==> r == Err::<Vec<u8>, EncodeError>(
            EncodeError::InsufficientSpace,
        ),
{
    let mut out: Vec<u8> = Vec::new();
    let mut idx: usize = 0;
    while idx < ads.len()
        invariant
            idx <= ads@.len(),
            out@ == encode_ads(ads@.take(idx as int)),
            out@.len() <= ADV_DATA_MAX,
        decreases ads@.len() - idx,
    {
        let (ty, mut payload): (u8, Vec<u8>) = match &ads[idx] {
            AdStructure::Flags(f) => (0x01, flags_payload(*f)),
            AdStructure::ServiceUuids16(us) => (0x03, uuid16_payload(us)),
            AdStructure::CompleteLocalName(n) => (0x09, name_payload(n)),
        };
        proof {
            assert(ty == ad_type(ads@[idx as int]));
            assert(payload@ == ad_payload(ads@[idx as int]));
            assert(ads@.take(idx as int + 1).drop_last() =~= ads@.take(idx as int));
            assert(ads@.take(idx as int + 1).last() == ads@[idx as int]);
        }
        if payload.len() > ADV_DATA_MAX || out.len() + 2 + payload.len() > ADV_DATA_MAX {
            proof {
                lemma_encode_prefix_len(ads@, idx as int + 1);
            }
            return Err(EncodeError::InsufficientSpace);
        }
        out.push((payload.len() + 1) as u8);
        out.push(ty);
        out.append(&mut payload);
        proof {
            assert(out@ =~= encode_ads(ads@.take(idx as int + 1)));
        }
        idx = idx + 1;
    }
    proof {
        assert(ads@.take(ads@.len() as int) =~= ads@);
    }
    Ok(out)
}

/// The wire bytes of the fixed advertising payload: Flags (general
/// discoverable, BR/EDR not supported), the complete 16-bit UUID list
/// holding the Battery service, and the complete local name "Trouble".
pub open spec fn fixed_adv_bytes() -> Seq<u8> {
    seq![
        0x02u8, 0x01, 0x06, 0x03, 0x03, 0x0f, 0x18, 0x08, 0x09, 0x54, 0x72, 0x6f, 0x75, 0x62,
        0x6c, 0x65,
    ]
}

/// Build the fixed advertising payload. Its 16 bytes fit the 31-byte
/// budget, so encoding cannot fail.
pub fn build_adv_data() -> (r: Vec<u8>)
    ensures
        r@ == fixed_adv_bytes(),
        r@.len() == 16,
{
    let flags = AdStructure::Flags(LE_GENERAL_DISCOVERABLE | BR_EDR_NOT_SUPPORTED);
    proof {
        assert(LE_GENERAL_DISCOVERABLE | BR_EDR_NOT_SUPPORTED == 0x06u8) by (bit_vector);
    }
    let mut uuids: Vec<[u8; 2]> = Vec::new();
    // The Battery service UUID 0x180f, little-endian.
    uuids.push([0x0f, 0x18]);
    let service_uuids = AdStructure::ServiceUuids16(uuids);
    let mut name: Vec<u8> = Vec::new();
    // "Trouble" in ASCII.
    name.push(0x54);
    name.push(0x72);
    name.push(0x6f);
    name.push(0x75);
    name.push(0x62);
    name.push(0x6c);
    name.push(0x65);
    let name_struct = AdStructure::CompleteLocalName(name);

    let ghost g0 = flags;
    let ghost g1 = service_uuids;
    let ghost g2 = name_struct;
    let mut structures: Vec<AdStructure> = Vec::new();
    structures.push(flags);
    structures.push(service_uuids);
    structures.push(name_struct);

    proof {
        lemma_fixed_adv_encoding(structures@, g0, g1, g2);
    }
    match encode_adv_data(&structures) {
        Ok(v) => v,
        Err(_) => {
            proof {
                assert(false);
            }
            Vec::new()
        },
    }
}

/// Evaluates the encoding of the three fixed structures to its 16 wire
/// bytes.
proof fn lemma_fixed_adv_encoding(ss: Seq<AdStructure>, g0: AdStructure, g1: AdStructure, g2: AdStructure)
    requires
        ss =~= seq![g0, g1, g2],
        g0 matches AdStructure::Flags(f) && f == 0x06,
        g1 matches AdStructure::ServiceUuids16(us) && us@ =~= seq![[0x0fu8, 0x18u8]],
        g2 matches AdStructure::CompleteLocalName(n) && n@ =~= seq![
            0x54u8, 0x72, 0x6f, 0x75, 0x62, 0x6c, 0x65,
        ],
    ensures
        encode_ads(ss) == fixed_adv_bytes(),
{
    let s01 = seq![g0, g1];
    let s0 = seq![g0];
    assert(ss.drop_last() =~= s01);
    assert(s01.drop_last() =~= s0);
    assert(s0.drop_last() =~= Seq::<AdStructure>::empty());
    assert(encode_ads(Seq::<AdStructure>::empty()) == Seq::<u8>::empty());

    assert(encode_one(g0) =~= seq![0x02u8, 0x01, 0x06]);

    let us = g1->ServiceUuids16_0;
    assert(us@.drop_last() =~= Seq::<[u8; 2]>::empty());
    assert(us@.last()@ =~= seq![0x0fu8, 0x18u8]);
    assert(us@.len() == 1);
    assert(uuid16_bytes(Seq::<[u8; 2]>::empty()) == Seq::<u8>::empty());
    assert(uuid16_bytes(us@) =~= seq![0x0fu8, 0x18u8]);
    assert(encode_one(g1) =~= seq![0x03u8, 0x03, 0x0f, 0x18]);

    assert(encode_one(g2) =~= seq![0x08u8, 0x09, 0x54, 0x72, 0x6f, 0x75, 0x62, 0x6c, 0x65]);

    assert(encode_ads(ss) == encode_ads(s01) + encode_one(g2));
    assert(encode_ads(s01) == encode_ads(s0) + encode_one(g1));
    assert(encode_ads(s0) == encode_ads(Seq::<AdStructure>::empty()) + encode_one(g0));
    assert(encode_ads(ss) =~= fixed_adv_bytes());
}

} // verus!
