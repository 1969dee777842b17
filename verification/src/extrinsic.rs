//! Extrinsics: the units of block data, and their wire format.
//!
//! An encoded extrinsic starts with a version byte that tells a signed
//! transaction from an unsigned inherent. A transaction goes on with the
//! signer's address, the signature, the nonce and the mortality bound; both
//! end with the call: module index, call tag, and the call's arguments up
//! to the end of the bytes. Integers are little-endian.

use crate::error::Malformed;
use crate::primitives::{AccountId, AccountIndex, BlockNumber, ModuleIndex, Nonce, H256};
use vstd::bytes::{
    lemma_auto_spec_u128_to_from_le_bytes,
    lemma_auto_spec_u32_to_from_le_bytes,
    lemma_auto_spec_u64_to_from_le_bytes,
    spec_u128_from_le_bytes,
    spec_u128_to_le_bytes,
    spec_u32_from_le_bytes,
    spec_u32_to_le_bytes,
    spec_u64_from_le_bytes,
    spec_u64_to_le_bytes,
    u128_from_le_bytes,
    u128_to_le_bytes,
    u32_from_le_bytes,
    u32_to_le_bytes,
    u64_from_le_bytes,
    u64_to_le_bytes,
};
use vstd::prelude::*;
use vstd::slice::{slice_subrange, slice_to_vec};

verus! {

/// Version byte of an inherent.
pub const VERSION_INHERENT: u8 = 0x01;

/// Version byte of a transaction: the inherent's, with the top bit set.
pub const VERSION_TRANSACTION: u8 = 0x81;

/// Kind byte of an address that holds an account identifier.
pub const ADDRESS_ID: u8 = 0x00;

/// Kind byte of an address that holds an account index.
pub const ADDRESS_INDEX: u8 = 0x01;

/// Kind byte of a transaction that never expires.
pub const MORTALITY_IMMORTAL: u8 = 0x00;

/// Kind byte of a transaction that expires after a given block.
pub const MORTALITY_UNTIL: u8 = 0x01;

/// How a transaction names its signer.
#[derive(Clone, Copy, Debug, PartialEq, Eq, Structural)]
pub enum Address {
    /// By account identifier.
    Id(AccountId),
    /// By the short index under which the account is enumerated.
    Index(AccountIndex),
}

/// A signature of 512 bits, held as two 256-bit halves.
#[derive(Clone, Copy, Debug, PartialEq, Eq, Structural)]
pub struct Signature {
    pub first: H256,
    pub second: H256,
}

/// How long a transaction stays valid.
#[derive(Clone, Copy, Debug, PartialEq, Eq, Structural)]
pub enum Mortality {
    /// For ever.
    Immortal,
    /// Up to and including the block of this number.
    Until(BlockNumber),
}

/// The caller's identity as presented to a dispatched call.
#[derive(Clone, Copy, Debug, PartialEq, Eq, Structural)]
pub enum Origin {
    /// A transaction signed by this account.
    Signed(AccountId),
    /// The runtime itself, with every privilege.
    Root,
    /// Nobody: an inherent that the block author put in.
    Unsigned,
}

/// A call into a module: the module's index, the tag of the call variant,
/// and the encoded arguments.
#[derive(Clone, Debug, PartialEq, Eq)]
pub struct Call {
    pub module: ModuleIndex,
    pub tag: u8,
    pub args: Vec<u8>,
}

/// Mathematical content of a call.
pub struct CallSpec {
    pub module: ModuleIndex,
    pub tag: u8,
    pub args: Seq<u8>,
}

impl View for Call {
    type V = CallSpec;

    open spec fn view(&self) -> CallSpec {
        CallSpec { module: self.module, tag: self.tag, args: self.args@ }
    }
}

/// A unit of block data.
#[derive(Clone, Debug, PartialEq, Eq)]
pub enum Extrinsic {
    /// A call that a user signed.
    Transaction {
        signer: Address,
        signature: Signature,
        nonce: Nonce,
        mortality: Mortality,
        call: Call,
    },
    /// A call that the block author supplied, without signature or nonce.
    Inherent { call: Call },
}

/// Mathematical content of an extrinsic.
pub enum ExtrinsicSpec {
    Transaction {
        signer: Address,
        signature: Signature,
        nonce: Nonce,
        mortality: Mortality,
        call: CallSpec,
    },
    Inherent { call: CallSpec },
}

impl View for Extrinsic {
    type V = ExtrinsicSpec;

    open spec fn view(&self) -> ExtrinsicSpec {
        match *self {
            Extrinsic::Transaction { signer, signature, nonce, mortality, call } => {
                ExtrinsicSpec::Transaction { signer, signature, nonce, mortality, call: call@ }
            },
            Extrinsic::Inherent { call } => ExtrinsicSpec::Inherent { call: call@ },
        }
    }
}

impl ExtrinsicSpec {
    /// The call that the extrinsic carries.
    pub open spec fn call(self) -> CallSpec {
        match self {
            ExtrinsicSpec::Transaction { call, .. } => call,
            ExtrinsicSpec::Inherent { call } => call,
        }
    }
}

/// Encoding of an address: the kind byte, then the identifier in eight
/// bytes or the index in four.
pub open spec fn encode_address(address: Address) -> Seq<u8> {
    match address {
        Address::Id(id) => seq![ADDRESS_ID] + spec_u64_to_le_bytes(id),
        Address::Index(index) => seq![ADDRESS_INDEX] + spec_u32_to_le_bytes(index),
    }
}

/// Encoding of a signature: its four 128-bit words, highest first.
pub open spec fn encode_signature(signature: Signature) -> Seq<u8> {
    spec_u128_to_le_bytes(signature.first.high) + spec_u128_to_le_bytes(signature.first.low)
        + spec_u128_to_le_bytes(signature.second.high) + spec_u128_to_le_bytes(
        signature.second.low,
    )
}

/// Encoding of a mortality bound: the kind byte, then for a mortal
/// transaction the number of its last block in eight bytes.
pub open spec fn encode_mortality(mortality: Mortality) -> Seq<u8> {
    match mortality {
        Mortality::Immortal => seq![MORTALITY_IMMORTAL],
        Mortality::Until(last) => seq![MORTALITY_UNTIL] + spec_u64_to_le_bytes(last),
    }
}

/// Encoding of a call: module index, call tag, arguments.
pub open spec fn encode_call(call: CallSpec) -> Seq<u8> {
    seq![call.module, call.tag] + call.args
}

/// Encoding of an extrinsic.
pub open spec fn encode_extrinsic(extrinsic: ExtrinsicSpec) -> Seq<u8> {
    match extrinsic {
        ExtrinsicSpec::Transaction { signer, signature, nonce, mortality, call } => {
            seq![VERSION_TRANSACTION] + encode_address(signer) + encode_signature(signature)
                + spec_u64_to_le_bytes(nonce) + encode_mortality(mortality) + encode_call(call)
        },
        ExtrinsicSpec::Inherent { call } => seq![VERSION_INHERENT] + encode_call(call),
    }
}

/// The address that starts at position `at`, and the position behind it.
pub open spec fn parse_address(bytes: Seq<u8>, at: int) -> Result<(Address, int), Malformed> {
    if at >= bytes.len() {
        Err(Malformed::Truncated)
    } else if bytes[at] == ADDRESS_ID {
        if at + 9 > bytes.len() {
            Err(Malformed::Truncated)
        } else {
            Ok((Address::Id(spec_u64_from_le_bytes(bytes.subrange(at + 1, at + 9))), at + 9))
        }
    } else if bytes[at] == ADDRESS_INDEX {
        if at + 5 > bytes.len() {
            Err(Malformed::Truncated)
        } else {
            Ok((Address::Index(spec_u32_from_le_bytes(bytes.subrange(at + 1, at + 5))), at + 5))
        }
    } else {
        Err(Malformed::UnknownAddressKind)
    }
}

/// The signature that starts at position `at`, and the position behind it.
pub open spec fn parse_signature(bytes: Seq<u8>, at: int) -> Result<(Signature, int), Malformed> {
    if at + 64 > bytes.len() {
        Err(Malformed::Truncated)
    } else {
        Ok(
            (
                Signature {
                    first: H256 {
                        high: spec_u128_from_le_bytes(bytes.subrange(at, at + 16)),
                        low: spec_u128_from_le_bytes(bytes.subrange(at + 16, at + 32)),
                    },
                    second: H256 {
                        high: spec_u128_from_le_bytes(bytes.subrange(at + 32, at + 48)),
                        low: spec_u128_from_le_bytes(bytes.subrange(at + 48, at + 64)),
                    },
                },
                at + 64,
            ),
        )
    }
}

/// The nonce that starts at position `at`, and the position behind it.
pub open spec fn parse_nonce(bytes: Seq<u8>, at: int) -> Result<(Nonce, int), Malformed> {
    if at + 8 > bytes.len() {
        Err(Malformed::Truncated)
    } else {
        Ok((spec_u64_from_le_bytes(bytes.subrange(at, at + 8)), at + 8))
    }
}

/// The mortality bound that starts at position `at`, and the position
/// behind it.
pub open spec fn parse_mortality(bytes: Seq<u8>, at: int) -> Result<(Mortality, int), Malformed> {
    if at >= bytes.len() {
        Err(Malformed::Truncated)
    } else if bytes[at] == MORTALITY_IMMORTAL {
        Ok((Mortality::Immortal, at + 1))
    } else if bytes[at] == MORTALITY_UNTIL {
        if at + 9 > bytes.len() {
            Err(Malformed::Truncated)
        } else {
            Ok((Mortality::Until(spec_u64_from_le_bytes(bytes.subrange(at + 1, at + 9))), at + 9))
        }
    } else {
        Err(Malformed::UnknownMortality)
    }
}

/// The call that takes up the bytes from position `at` to the end.
pub open spec fn parse_call(bytes: Seq<u8>, at: int) -> Result<CallSpec, Malformed> {
    if at + 2 > bytes.len() {
        Err(Malformed::Truncated)
    } else {
        Ok(
            CallSpec {
                module: bytes[at],
                tag: bytes[at + 1],
                args: bytes.subrange(at + 2, bytes.len() as int),
            },
        )
    }
}

/// The transaction whose fields start at position 1.
pub open spec fn parse_transaction(bytes: Seq<u8>) -> Result<ExtrinsicSpec, Malformed> {
    match parse_address(bytes, 1) {
        Err(e) => Err(e),
        Ok((signer, at_signature)) => match parse_signature(bytes, at_signature) {
            Err(e) => Err(e),
            Ok((signature, at_nonce)) => match parse_nonce(bytes, at_nonce) {
                Err(e) => Err(e),
                Ok((nonce, at_mortality)) => match parse_mortality(bytes, at_mortality) {
                    Err(e) => Err(e),
                    Ok((mortality, at_call)) => match parse_call(bytes, at_call) {
                        Err(e) => Err(e),
                        Ok(call) => Ok(
                            ExtrinsicSpec::Transaction {
                                signer,
                                signature,
                                nonce,
                                mortality,
                                call,
                            },
                        ),
                    },
                },
            },
        },
    }
}

/// The extrinsic that the bytes encode, or why they encode none.
pub open spec fn parse_extrinsic(bytes: Seq<u8>) -> Result<ExtrinsicSpec, Malformed> {
    if bytes.len() == 0 {
        Err(Malformed::Truncated)
    } else if bytes[0] == VERSION_INHERENT {
        match parse_call(bytes, 1) {
            Err(e) => Err(e),
            Ok(call) => Ok(ExtrinsicSpec::Inherent { call }),
        }
    } else if bytes[0] == VERSION_TRANSACTION {
        parse_transaction(bytes)
    } else {
        Err(Malformed::UnknownVersion)
    }
}

/// An address that is written at position `at` is read back from there.
proof fn lemma_address_read_back(bytes: Seq<u8>, at: int, address: Address)
    requires
        0 <= at,
        at + encode_address(address).len() <= bytes.len(),
        bytes.subrange(at, at + encode_address(address).len()) == encode_address(address),
    ensures
        parse_address(bytes, at) == Ok::<(Address, int), Malformed>(
            (address, at + encode_address(address).len()),
        ),
{
    lemma_auto_spec_u64_to_from_le_bytes();
    lemma_auto_spec_u32_to_from_le_bytes();
    let part = encode_address(address);
    assert(bytes[at] == part[0]);
    match address {
        Address::Id(id) => {
            assert(bytes.subrange(at + 1, at + 9) =~= spec_u64_to_le_bytes(id)) by {
                assert(bytes.subrange(at + 1, at + 9) =~= part.subrange(1, 9));
                assert(part.subrange(1, 9) =~= spec_u64_to_le_bytes(id));
            }
        },
        Address::Index(index) => {
            assert(bytes.subrange(at + 1, at + 5) =~= spec_u32_to_le_bytes(index)) by {
                assert(bytes.subrange(at + 1, at + 5) =~= part.subrange(1, 5));
                assert(part.subrange(1, 5) =~= spec_u32_to_le_bytes(index));
            }
        },
    }
}

/// A signature that is written at position `at` is read back from there.
proof fn lemma_signature_read_back(bytes: Seq<u8>, at: int, signature: Signature)
    requires
        0 <= at,
        at + 64 <= bytes.len(),
        bytes.subrange(at, at + 64) == encode_signature(signature),
    ensures
        encode_signature(signature).len() == 64,
        parse_signature(bytes, at) == Ok::<(Signature, int), Malformed>((signature, at + 64)),
{
    lemma_auto_spec_u128_to_from_le_bytes();
    let part = encode_signature(signature);
    assert(bytes.subrange(at, at + 16) =~= spec_u128_to_le_bytes(signature.first.high)) by {
        assert(bytes.subrange(at, at + 16) =~= part.subrange(0, 16));
        assert(part.subrange(0, 16) =~= spec_u128_to_le_bytes(signature.first.high));
    }
    assert(bytes.subrange(at + 16, at + 32) =~= spec_u128_to_le_bytes(signature.first.low)) by {
        assert(bytes.subrange(at + 16, at + 32) =~= part.subrange(16, 32));
        assert(part.subrange(16, 32) =~= spec_u128_to_le_bytes(signature.first.low));
    }
    assert(bytes.subrange(at + 32, at + 48) =~= spec_u128_to_le_bytes(signature.second.high)) by {
        assert(bytes.subrange(at + 32, at + 48) =~= part.subrange(32, 48));
        assert(part.subrange(32, 48) =~= spec_u128_to_le_bytes(signature.second.high));
    }
    assert(bytes.subrange(at + 48, at + 64) =~= spec_u128_to_le_bytes(signature.second.low)) by {
        assert(bytes.subrange(at + 48, at + 64) =~= part.subrange(48, 64));
        assert(part.subrange(48, 64) =~= spec_u128_to_le_bytes(signature.second.low));
    }
}

/// A mortality bound that is written at position `at` is read back from
/// there.
proof fn lemma_mortality_read_back(bytes: Seq<u8>, at: int, mortality: Mortality)
    requires
        0 <= at,
        at + encode_mortality(mortality).len() <= bytes.len(),
        bytes.subrange(at, at + encode_mortality(mortality).len()) == encode_mortality(mortality),
    ensures
        parse_mortality(bytes, at) == Ok::<(Mortality, int), Malformed>(
            (mortality, at + encode_mortality(mortality).len()),
        ),
{
    lemma_auto_spec_u64_to_from_le_bytes();
    let part = encode_mortality(mortality);
    assert(bytes[at] == part[0]);
    match mortality {
        Mortality::Immortal => {},
        Mortality::Until(last) => {
            assert(bytes.subrange(at + 1, at + 9) =~= spec_u64_to_le_bytes(last)) by {
                assert(bytes.subrange(at + 1, at + 9) =~= part.subrange(1, 9));
                assert(part.subrange(1, 9) =~= spec_u64_to_le_bytes(last));
            }
        },
    }
}

/// Decoding inverts encoding: the bytes that an extrinsic encodes to decode
/// to that extrinsic.
pub proof fn decode_inverts_encode(extrinsic: ExtrinsicSpec)
    ensures
        parse_extrinsic(encode_extrinsic(extrinsic)) == Ok::<ExtrinsicSpec, Malformed>(extrinsic),
{
    lemma_auto_spec_u64_to_from_le_bytes();
    lemma_auto_spec_u32_to_from_le_bytes();
    lemma_auto_spec_u128_to_from_le_bytes();
    let bytes = encode_extrinsic(extrinsic);
    match extrinsic {
        ExtrinsicSpec::Inherent { call } => {
            assert(bytes[0] == VERSION_INHERENT);
            assert(bytes[1] == call.module);
            assert(bytes[2] == call.tag);
            assert(bytes.subrange(3, bytes.len() as int) =~= call.args);
        },
        ExtrinsicSpec::Transaction { signer, signature, nonce, mortality, call } => {
            let a = encode_address(signer);
            let g = encode_signature(signature);
            let n = spec_u64_to_le_bytes(nonce);
            let m = encode_mortality(mortality);
            let c = encode_call(call);
            assert(bytes[0] == VERSION_TRANSACTION);
            let at_signature = 1 + a.len() as int;
            let at_nonce = at_signature + 64;
            let at_mortality = at_nonce + 8;
            let at_call = at_mortality + m.len() as int;
            assert(g.len() == 64);
            assert(bytes.subrange(1, at_signature) =~= a);
            assert(bytes.subrange(at_signature, at_nonce) =~= g);
            assert(bytes.subrange(at_nonce, at_mortality) =~= n);
            assert(bytes.subrange(at_mortality, at_call) =~= m);
            lemma_address_read_back(bytes, 1, signer);
            lemma_signature_read_back(bytes, at_signature, signature);
            lemma_mortality_read_back(bytes, at_mortality, mortality);
            assert(bytes[at_call] == call.module);
            assert(bytes[at_call + 1] == call.tag);
            assert(bytes.subrange(at_call + 2, bytes.len() as int) =~= call.args);
        },
    }
}

/// Encoding inverts decoding: bytes that decode to an extrinsic are the
/// encoding of that extrinsic, so no two byte strings decode alike.
pub proof fn encode_inverts_decode(bytes: Seq<u8>)
    requires
        parse_extrinsic(bytes) is Ok,
    ensures
        encode_extrinsic(parse_extrinsic(bytes)->Ok_0) == bytes,
{
    lemma_auto_spec_u64_to_from_le_bytes();
    lemma_auto_spec_u32_to_from_le_bytes();
    lemma_auto_spec_u128_to_from_le_bytes();
    let len = bytes.len() as int;
    if bytes[0] == VERSION_INHERENT {
        let call = parse_call(bytes, 1)->Ok_0;
        assert(encode_extrinsic(ExtrinsicSpec::Inherent { call }) =~= bytes);
    } else {
        let (signer, at_signature) = parse_address(bytes, 1)->Ok_0;
        let (signature, at_nonce) = parse_signature(bytes, at_signature)->Ok_0;
        let (nonce, at_mortality) = parse_nonce(bytes, at_nonce)->Ok_0;
        let (mortality, at_call) = parse_mortality(bytes, at_mortality)->Ok_0;
        let call = parse_call(bytes, at_call)->Ok_0;
        assert(encode_address(signer) =~= bytes.subrange(1, at_signature)) by {
            match signer {
                Address::Id(id) => {
                    assert(spec_u64_to_le_bytes(id) == bytes.subrange(2, 10));
                },
                Address::Index(index) => {
                    assert(spec_u32_to_le_bytes(index) == bytes.subrange(2, 6));
                },
            }
        }
        assert(encode_signature(signature) =~= bytes.subrange(at_signature, at_nonce)) by {
            assert(spec_u128_to_le_bytes(signature.first.high) == bytes.subrange(
                at_signature,
                at_signature + 16,
            ));
            assert(spec_u128_to_le_bytes(signature.first.low) == bytes.subrange(
                at_signature + 16,
                at_signature + 32,
            ));
            assert(spec_u128_to_le_bytes(signature.second.high) == bytes.subrange(
                at_signature + 32,
                at_signature + 48,
            ));
            assert(spec_u128_to_le_bytes(signature.second.low) == bytes.subrange(
                at_signature + 48,
                at_signature + 64,
            ));
        }
        assert(spec_u64_to_le_bytes(nonce) == bytes.subrange(at_nonce, at_mortality));
        assert(encode_mortality(mortality) =~= bytes.subrange(at_mortality, at_call)) by {
            match mortality {
                Mortality::Immortal => {},
                Mortality::Until(last) => {
                    assert(spec_u64_to_le_bytes(last) == bytes.subrange(
                        at_mortality + 1,
                        at_mortality + 9,
                    ));
                },
            }
        }
        assert(encode_call(call) =~= bytes.subrange(at_call, len));
        assert(encode_extrinsic(
            ExtrinsicSpec::Transaction { signer, signature, nonce, mortality, call },
        ) =~= bytes);
    }
}

fn read_address(bytes: &[u8], at: usize) -> (result: Result<(Address, usize), Malformed>)
    requires
        at <= bytes@.len(),
    ensures
        result matches Ok((address, next)) ==> parse_address(bytes@, at as int) == Ok::<
            (Address, int),
            Malformed,
        >((address, next as int)) && next <= bytes@.len(),
        result matches Err(e) ==> parse_address(bytes@, at as int) == Err::<
            (Address, int),
            Malformed,
        >(e),
{
    if at >= bytes.len() {
        return Err(Malformed::Truncated);
    }
    let kind = bytes[at];
    if kind == ADDRESS_ID {
        if bytes.len() - at < 9 {
            return Err(Malformed::Truncated);
        }
        let id = u64_from_le_bytes(slice_subrange(bytes, at + 1, at + 9));
        Ok((Address::Id(id), at + 9))
    } else if kind == ADDRESS_INDEX {
        if bytes.len() - at < 5 {
            return Err(Malformed::Truncated);
        }
        let index = u32_from_le_bytes(slice_subrange(bytes, at + 1, at + 5));
        Ok((Address::Index(index), at + 5))
    } else {
        Err(Malformed::UnknownAddressKind)
    }
}

fn read_signature(bytes: &[u8], at: usize) -> (result: Result<(Signature, usize), Malformed>)
    requires
        at <= bytes@.len(),
    ensures
        result matches Ok((signature, next)) ==> parse_signature(bytes@, at as int) == Ok::<
            (Signature, int),
            Malformed,
        >((signature, next as int)) && next <= bytes@.len(),
        result matches Err(e) ==> parse_signature(bytes@, at as int) == Err::<
            (Signature, int),
            Malformed,
        >(e),
{
    if bytes.len() - at < 64 {
        return Err(Malformed::Truncated);
    }
    let first_high = u128_from_le_bytes(slice_subrange(bytes, at, at + 16));
    let first_low = u128_from_le_bytes(slice_subrange(bytes, at + 16, at + 32));
    let second_high = u128_from_le_bytes(slice_subrange(bytes, at + 32, at + 48));
    let second_low = u128_from_le_bytes(slice_subrange(bytes, at + 48, at + 64));
    Ok(
        (
            Signature {
                first: H256 { high: first_high, low: first_low },
                second: H256 { high: second_high, low: second_low },
            },
            at + 64,
        ),
    )
}

fn read_nonce(bytes: &[u8], at: usize) -> (result: Result<(Nonce, usize), Malformed>)
    requires
        at <= bytes@.len(),
    ensures
        result matches Ok((nonce, next)) ==> parse_nonce(bytes@, at as int) == Ok::<
            (Nonce, int),
            Malformed,
        >((nonce, next as int)) && next <= bytes@.len(),
        result matches Err(e) ==> parse_nonce(bytes@, at as int) == Err::<(Nonce, int), Malformed>(
            e,
        ),
{
    if bytes.len() - at < 8 {
        return Err(Malformed::Truncated);
    }
    let nonce = u64_from_le_bytes(slice_subrange(bytes, at, at + 8));
    Ok((nonce, at + 8))
}

fn read_mortality(bytes: &[u8], at: usize) -> (result: Result<(Mortality, usize), Malformed>)
    requires
        at <= bytes@.len(),
    ensures
        result matches Ok((mortality, next)) ==> parse_mortality(bytes@, at as int) == Ok::<
            (Mortality, int),
            Malformed,
        >((mortality, next as int)) && next <= bytes@.len(),
        result matches Err(e) ==> parse_mortality(bytes@, at as int) == Err::<
            (Mortality, int),
            Malformed,
        >(e),
{
    if at >= bytes.len() {
        return Err(Malformed::Truncated);
    }
    let kind = bytes[at];
    if kind == MORTALITY_IMMORTAL {
        Ok((Mortality::Immortal, at + 1))
    } else if kind == MORTALITY_UNTIL {
        if bytes.len() - at < 9 {
            return Err(Malformed::Truncated);
        }
        let last = u64_from_le_bytes(slice_subrange(bytes, at + 1, at + 9));
        Ok((Mortality::Until(last), at + 9))
    } else {
        Err(Malformed::UnknownMortality)
    }
}

fn read_call(bytes: &[u8], at: usize) -> (result: Result<Call, Malformed>)
    requires
        at <= bytes@.len(),
    ensures
        result matches Ok(call) ==> parse_call(bytes@, at as int) == Ok::<CallSpec, Malformed>(
            call@,
        ),
        result matches Err(e) ==> parse_call(bytes@, at as int) == Err::<CallSpec, Malformed>(e),
{
    if bytes.len() - at < 2 {
        return Err(Malformed::Truncated);
    }
    let args = slice_to_vec(slice_subrange(bytes, at + 2, bytes.len()));
    Ok(Call { module: bytes[at], tag: bytes[at + 1], args })
}

impl Call {
    /// Appends the encoding of the call to `out`.
    fn encode_into(&self, out: &mut Vec<u8>)
        ensures
            final(out)@ == old(out)@ + encode_call(self@),
    {
        out.push(self.module);
        out.push(self.tag);
        let mut args = self.args.clone();
        out.append(&mut args);
        assert(out@ =~= old(out)@ + encode_call(self@));
    }
}

impl Extrinsic {
    /// The call that the extrinsic carries.
    pub fn call(&self) -> (call: &Call)
        ensures
            call@ == self@.call(),
    {
        match self {
            Extrinsic::Transaction { call, .. } => call,
            Extrinsic::Inherent { call } => call,
        }
    }

    /// Decodes an extrinsic. The bytes are malformed where they end early or
    /// hold an unknown version or kind byte.
    pub fn decode(bytes: &[u8]) -> (result: Result<Extrinsic, Malformed>)
        ensures
            result matches Ok(extrinsic) ==> parse_extrinsic(bytes@) == Ok::<
                ExtrinsicSpec,
                Malformed,
            >(extrinsic@),
            result matches Err(e) ==> parse_extrinsic(bytes@) == Err::<ExtrinsicSpec, Malformed>(e),
    {
        if bytes.len() == 0 {
            return Err(Malformed::Truncated);
        }
        let version = bytes[0];
        if version == VERSION_INHERENT {
            let call = read_call(bytes, 1)?;
            Ok(Extrinsic::Inherent { call })
        } else if version == VERSION_TRANSACTION {
            let (signer, at_signature) = read_address(bytes, 1)?;
            let (signature, at_nonce) = read_signature(bytes, at_signature)?;
            let (nonce, at_mortality) = read_nonce(bytes, at_nonce)?;
            let (mortality, at_call) = read_mortality(bytes, at_mortality)?;
            let call = read_call(bytes, at_call)?;
            Ok(Extrinsic::Transaction { signer, signature, nonce, mortality, call })
        } else {
            Err(Malformed::UnknownVersion)
        }
    }

    /// Encodes the extrinsic.
    pub fn encode(&self) -> (bytes: Vec<u8>)
        ensures
            bytes@ == encode_extrinsic(self@),
    {
        let mut out: Vec<u8> = Vec::new();
        match self {
            Extrinsic::Inherent { call } => {
                out.push(VERSION_INHERENT);
                call.encode_into(&mut out);
                assert(out@ =~= encode_extrinsic(self@));
            },
            Extrinsic::Transaction { signer, signature, nonce, mortality, call } => {
                out.push(VERSION_TRANSACTION);
                match signer {
                    Address::Id(id) => {
                        out.push(ADDRESS_ID);
                        let mut word = u64_to_le_bytes(*id);
                        out.append(&mut word);
                    },
                    Address::Index(index) => {
                        out.push(ADDRESS_INDEX);
                        let mut word = u32_to_le_bytes(*index);
                        out.append(&mut word);
                    },
                }
                assert(out@ =~= seq![VERSION_TRANSACTION] + encode_address(*signer));
                let mut word = u128_to_le_bytes(signature.first.high);
                out.append(&mut word);
                let mut word = u128_to_le_bytes(signature.first.low);
                out.append(&mut word);
                let mut word = u128_to_le_bytes(signature.second.high);
                out.append(&mut word);
                let mut word = u128_to_le_bytes(signature.second.low);
                out.append(&mut word);
                assert(out@ =~= seq![VERSION_TRANSACTION] + encode_address(*signer)
                    + encode_signature(*signature));
                let mut word = u64_to_le_bytes(*nonce);
                out.append(&mut word);
                match mortality {
                    Mortality::Immortal => {
                        out.push(MORTALITY_IMMORTAL);
                    },
                    Mortality::Until(last) => {
                        out.push(MORTALITY_UNTIL);
                        let mut word = u64_to_le_bytes(*last);
                        out.append(&mut word);
                    },
                }
                assert(out@ =~= seq![VERSION_TRANSACTION] + encode_address(*signer)
                    + encode_signature(*signature) + spec_u64_to_le_bytes(*nonce)
                    + encode_mortality(*mortality));
                call.encode_into(&mut out);
            },
        }
        out
    }
}

} // verus!
