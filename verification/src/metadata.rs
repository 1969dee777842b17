//! The schema of the runtime: what the registry holds, module by module
//! and in registry order, as bytes that a host can read.
//!
//! The schema starts with a magic number, a format version and the number
//! of modules. Each module follows with its index, the length of its name
//! and the name, the number of its call variants and the weight of each,
//! the number of its event variants, a byte of flags, and, where the flags
//! say so, its inherent. Integers are little-endian.

use crate::primitives::{ModuleIndex, Weight};
use crate::registry::{
    lemma_no_defect,
    registry_defect,
    Inherent,
    ModuleDescriptor,
    ModuleSpec,
    Registry,
    MAX_MODULES,
    MAX_NAME_BYTES,
    MAX_VARIANTS,
};
use vstd::bytes::{
    lemma_auto_spec_u16_to_from_le_bytes,
    lemma_auto_spec_u32_to_from_le_bytes,
    lemma_auto_spec_u64_to_from_le_bytes,
    spec_u16_from_le_bytes,
    spec_u16_to_le_bytes,
    spec_u32_to_le_bytes,
    spec_u64_from_le_bytes,
    spec_u64_to_le_bytes,
    u16_to_le_bytes,
    u32_to_le_bytes,
    u64_to_le_bytes,
};
use vstd::prelude::*;
use vstd::utf8::{encode_utf8, encode_utf8_decode_utf8};

verus! {

/// The bytes of "meta", which open every schema.
pub const METADATA_MAGIC: u32 = 0x6174_656d;

/// Version of the schema format.
pub const METADATA_VERSION: u8 = 1;

/// Flag of a module that keeps storage.
pub const FLAG_STORAGE: u8 = 1;

/// Flag of a module with an `on_initialize` hook.
pub const FLAG_ON_INITIALIZE: u8 = 2;

/// Flag of a module with an `on_finalize` hook.
pub const FLAG_ON_FINALIZE: u8 = 4;

/// Flag of a module with an inherent.
pub const FLAG_INHERENT: u8 = 8;

/// Flag of a module with an offchain worker.
pub const FLAG_OFFCHAIN_WORKER: u8 = 16;

/// The flags of a module, added up.
pub open spec fn module_flags(module: ModuleSpec) -> u8 {
    ((if module.storage {
        FLAG_STORAGE as int
    } else {
        0
    }) + (if module.on_initialize {
        FLAG_ON_INITIALIZE as int
    } else {
        0
    }) + (if module.on_finalize {
        FLAG_ON_FINALIZE as int
    } else {
        0
    }) + (if module.inherent is Some {
        FLAG_INHERENT as int
    } else {
        0
    }) + (if module.offchain_worker {
        FLAG_OFFCHAIN_WORKER as int
    } else {
        0
    })) as u8
}

/// The first `n` weights, eight bytes each.
pub open spec fn encode_weights(weights: Seq<Weight>, n: int) -> Seq<u8>
    decreases n,
{
    if n <= 0 {
        Seq::empty()
    } else {
        encode_weights(weights, n - 1) + spec_u64_to_le_bytes(weights[n - 1])
    }
}

/// An inherent: identifier, then the tag of the call. Nothing for a module
/// without one.
pub open spec fn encode_inherent(inherent: Option<Inherent>) -> Seq<u8> {
    match inherent {
        None => Seq::empty(),
        Some(inherent) => spec_u64_to_le_bytes(inherent.identifier) + seq![inherent.call],
    }
}

/// One module of the schema, registered at `index`.
pub open spec fn encode_module(module: ModuleSpec, index: int) -> Seq<u8> {
    seq![index as u8, encode_utf8(module.name).len() as u8] + encode_utf8(module.name)
        + spec_u16_to_le_bytes(module.calls.len() as u16) + encode_weights(
        module.calls,
        module.calls.len() as int,
    ) + spec_u16_to_le_bytes(module.events as u16) + seq![module_flags(module)] + encode_inherent(
        module.inherent,
    )
}

/// The first `n` modules of the schema, in registry order.
pub open spec fn encode_modules(modules: Seq<ModuleSpec>, n: int) -> Seq<u8>
    decreases n,
{
    if n <= 0 {
        Seq::empty()
    } else {
        encode_modules(modules, n - 1) + encode_module(modules[n - 1], n - 1)
    }
}

/// The schema of a registry.
pub open spec fn spec_metadata(modules: Seq<ModuleSpec>) -> Seq<u8> {
    spec_u32_to_le_bytes(METADATA_MAGIC) + seq![METADATA_VERSION] + spec_u16_to_le_bytes(
        modules.len() as u16,
    ) + encode_modules(modules, modules.len() as int)
}

/// The first `n` weights take up eight bytes each.
proof fn lemma_weights_len(weights: Seq<Weight>, n: int)
    requires
        0 <= n <= weights.len(),
    ensures
        encode_weights(weights, n).len() == 8 * n,
    decreases n,
{
    lemma_auto_spec_u64_to_from_le_bytes();
    if n > 0 {
        lemma_weights_len(weights, n - 1);
    }
}

/// The weight at position `k` stands at byte `8 * k` of the encoded
/// weights.
proof fn lemma_weight_at(weights: Seq<Weight>, n: int, k: int)
    requires
        0 <= k < n <= weights.len(),
    ensures
        encode_weights(weights, n).len() == 8 * n,
        encode_weights(weights, n).subrange(8 * k, 8 * k + 8) == spec_u64_to_le_bytes(weights[k]),
    decreases n,
{
    lemma_auto_spec_u64_to_from_le_bytes();
    lemma_weights_len(weights, n);
    lemma_weights_len(weights, n - 1);
    let whole = encode_weights(weights, n);
    let before = encode_weights(weights, n - 1);
    if k < n - 1 {
        lemma_weight_at(weights, n - 1, k);
        assert(whole.subrange(8 * k, 8 * k + 8) =~= before.subrange(8 * k, 8 * k + 8));
    } else {
        assert(whole.subrange(8 * k, 8 * k + 8) =~= spec_u64_to_le_bytes(weights[k]));
    }
}

/// Lists of weights of one length that encode alike are alike.
proof fn lemma_weights_injective(first: Seq<Weight>, second: Seq<Weight>)
    requires
        first.len() == second.len(),
        encode_weights(first, first.len() as int) == encode_weights(second, second.len() as int),
    ensures
        first == second,
{
    lemma_auto_spec_u64_to_from_le_bytes();
    let n = first.len() as int;
    assert forall|k: int| 0 <= k < n implies first[k] == second[k] by {
        lemma_weight_at(first, n, k);
        lemma_weight_at(second, n, k);
        assert(spec_u64_from_le_bytes(spec_u64_to_le_bytes(first[k])) == first[k]);
        assert(spec_u64_from_le_bytes(spec_u64_to_le_bytes(second[k])) == second[k]);
    }
    assert(first =~= second);
}

/// Whether a module has shapes that a schema can hold.
pub open spec fn fits_schema(module: ModuleSpec) -> bool {
    &&& 0 < encode_utf8(module.name).len() <= MAX_NAME_BYTES
    &&& module.calls.len() <= MAX_VARIANTS
    &&& module.events <= MAX_VARIANTS
}

/// Where the inherent of a module starts in its encoding.
pub open spec fn inherent_offset(module: ModuleSpec) -> int {
    2 + encode_utf8(module.name).len() as int + 2 + 8 * module.calls.len() as int + 2 + 1
}

/// Where each part of a module lies in its encoding, whatever bytes follow.
proof fn lemma_module_layout(module: ModuleSpec, index: int, rest: Seq<u8>)
    requires
        fits_schema(module),
        0 <= index < 256,
    ensures
        ({
            let bytes = encode_module(module, index) + rest;
            let name = encode_utf8(module.name);
            let at_calls = 2 + name.len() as int;
            let at_weights = at_calls + 2;
            let at_events = at_weights + 8 * module.calls.len() as int;
            let at_inherent = inherent_offset(module);
            let end = encode_module(module, index).len() as int;
            &&& bytes[0] == index
            &&& bytes[1] == name.len()
            &&& bytes.subrange(2, at_calls) == name
            &&& bytes.subrange(at_calls, at_weights) == spec_u16_to_le_bytes(
                module.calls.len() as u16,
            )
            &&& bytes.subrange(at_weights, at_events) == encode_weights(
                module.calls,
                module.calls.len() as int,
            )
            &&& bytes.subrange(at_events, at_events + 2) == spec_u16_to_le_bytes(
                module.events as u16,
            )
            &&& bytes[at_events + 2] == module_flags(module)
            &&& module.inherent matches Some(inherent) ==> {
                &&& bytes.subrange(at_inherent, at_inherent + 8) == spec_u64_to_le_bytes(
                    inherent.identifier,
                )
                &&& bytes[at_inherent + 8] == inherent.call
                &&& end == at_inherent + 9
            }
            &&& module.inherent is None ==> end == at_inherent
            &&& bytes.subrange(end, bytes.len() as int) == rest
        }),
{
    lemma_auto_spec_u16_to_from_le_bytes();
    lemma_auto_spec_u64_to_from_le_bytes();
    lemma_weights_len(module.calls, module.calls.len() as int);
    let encoded = encode_module(module, index);
    let bytes = encoded + rest;
    let name = encode_utf8(module.name);
    let at_calls = 2 + name.len() as int;
    let at_weights = at_calls + 2;
    let at_events = at_weights + 8 * module.calls.len() as int;
    let at_inherent = inherent_offset(module);
    assert(bytes.subrange(2, at_calls) =~= name);
    assert(bytes.subrange(at_calls, at_weights) =~= spec_u16_to_le_bytes(
        module.calls.len() as u16,
    ));
    assert(bytes.subrange(at_weights, at_events) =~= encode_weights(
        module.calls,
        module.calls.len() as int,
    ));
    assert(bytes.subrange(at_events, at_events + 2) =~= spec_u16_to_le_bytes(
        module.events as u16,
    ));
    if module.inherent is Some {
        assert(bytes.subrange(at_inherent, at_inherent + 8) =~= spec_u64_to_le_bytes(
            module.inherent->0.identifier,
        ));
    }
    assert(bytes.subrange(encoded.len() as int, bytes.len() as int) =~= rest);
}

/// Modules with the same flags byte have the same flags.
proof fn lemma_flags_read_off(first: ModuleSpec, second: ModuleSpec)
    requires
        module_flags(first) == module_flags(second),
    ensures
        first.storage == second.storage,
        first.on_initialize == second.on_initialize,
        first.on_finalize == second.on_finalize,
        first.offchain_worker == second.offchain_worker,
        first.inherent is Some <==> second.inherent is Some,
{
}

/// A module is read off the front of its encoding without ambiguity: where
/// the encodings of two modules, each followed by more bytes, are the same
/// bytes, the modules are the same, they are registered at the same index,
/// and the bytes that follow are the same.
proof fn lemma_module_read_off(
    first: ModuleSpec,
    first_index: int,
    first_rest: Seq<u8>,
    second: ModuleSpec,
    second_index: int,
    second_rest: Seq<u8>,
)
    requires
        fits_schema(first),
        fits_schema(second),
        0 <= first_index < 256,
        0 <= second_index < 256,
        encode_module(first, first_index) + first_rest == encode_module(second, second_index)
            + second_rest,
    ensures
        first == second,
        first_index == second_index,
        first_rest == second_rest,
{
    lemma_auto_spec_u16_to_from_le_bytes();
    lemma_auto_spec_u64_to_from_le_bytes();
    lemma_module_layout(first, first_index, first_rest);
    lemma_module_layout(second, second_index, second_rest);
    assert(encode_utf8(first.name).len() == encode_utf8(second.name).len());
    assert(first.name == second.name) by {
        encode_utf8_decode_utf8(first.name);
        encode_utf8_decode_utf8(second.name);
    }
    assert(first.calls.len() == second.calls.len()) by {
        assert(spec_u16_from_le_bytes(spec_u16_to_le_bytes(first.calls.len() as u16))
            == first.calls.len() as u16);
        assert(spec_u16_from_le_bytes(spec_u16_to_le_bytes(second.calls.len() as u16))
            == second.calls.len() as u16);
    }
    lemma_weights_injective(first.calls, second.calls);
    assert(first.events == second.events) by {
        assert(spec_u16_from_le_bytes(spec_u16_to_le_bytes(first.events as u16))
            == first.events as u16);
        assert(spec_u16_from_le_bytes(spec_u16_to_le_bytes(second.events as u16))
            == second.events as u16);
    }
    lemma_flags_read_off(first, second);
    if first.inherent is Some {
        let a = first.inherent->0;
        let b = second.inherent->0;
        assert(a.identifier == b.identifier) by {
            assert(spec_u64_from_le_bytes(spec_u64_to_le_bytes(a.identifier)) == a.identifier);
            assert(spec_u64_from_le_bytes(spec_u64_to_le_bytes(b.identifier)) == b.identifier);
        }
        assert(first.inherent == second.inherent);
    }
    assert(first == second);
}

/// The first `n` modules are read off the front of their encoding without
/// ambiguity.
proof fn lemma_modules_read_off(
    first: Seq<ModuleSpec>,
    first_rest: Seq<u8>,
    second: Seq<ModuleSpec>,
    second_rest: Seq<u8>,
    n: int,
)
    requires
        0 <= n <= first.len(),
        n <= second.len(),
        n <= 256,
        forall|i: int| 0 <= i < n ==> fits_schema(#[trigger] first[i]),
        forall|i: int| 0 <= i < n ==> fits_schema(#[trigger] second[i]),
        encode_modules(first, n) + first_rest == encode_modules(second, n) + second_rest,
    ensures
        first.take(n) == second.take(n),
        first_rest == second_rest,
    decreases n,
{
    if n == 0 {
        assert(encode_modules(first, 0) + first_rest =~= first_rest);
        assert(encode_modules(second, 0) + second_rest =~= second_rest);
        assert(first.take(0) =~= second.take(0));
    } else {
        let last_first = encode_module(first[n - 1], n - 1) + first_rest;
        let last_second = encode_module(second[n - 1], n - 1) + second_rest;
        assert(encode_modules(first, n) + first_rest =~= encode_modules(first, n - 1) + last_first);
        assert(encode_modules(second, n) + second_rest =~= encode_modules(second, n - 1)
            + last_second);
        lemma_modules_read_off(first, last_first, second, last_second, n - 1);
        lemma_module_read_off(first[n - 1], n - 1, first_rest, second[n - 1], n - 1, second_rest);
        assert(first.take(n) =~= first.take(n - 1).push(first[n - 1]));
        assert(second.take(n) =~= second.take(n - 1).push(second[n - 1]));
    }
}

/// The schema reflects the registry: two registries with the same schema
/// hold the same modules, with the same names and shapes, in the same
/// order.
pub proof fn schema_determines_registry(first: Seq<ModuleSpec>, second: Seq<ModuleSpec>)
    requires
        registry_defect(first) is None,
        registry_defect(second) is None,
        spec_metadata(first) == spec_metadata(second),
    ensures
        first == second,
{
    lemma_auto_spec_u16_to_from_le_bytes();
    lemma_auto_spec_u32_to_from_le_bytes();
    let x = spec_metadata(first);
    let y = spec_metadata(second);
    assert(x.subrange(5, 7) =~= spec_u16_to_le_bytes(first.len() as u16));
    assert(y.subrange(5, 7) =~= spec_u16_to_le_bytes(second.len() as u16));
    assert(first.len() as u16 == second.len() as u16) by {
        assert(spec_u16_from_le_bytes(spec_u16_to_le_bytes(first.len() as u16))
            == first.len() as u16);
        assert(spec_u16_from_le_bytes(spec_u16_to_le_bytes(second.len() as u16))
            == second.len() as u16);
    }
    let n = first.len() as int;
    assert(second.len() == n);
    assert(x.subrange(7, x.len() as int) =~= encode_modules(first, n));
    assert(y.subrange(7, y.len() as int) =~= encode_modules(second, n));
    assert forall|i: int| 0 <= i < n implies fits_schema(#[trigger] first[i]) by {
        lemma_no_defect(first, 0, i);
    }
    assert forall|i: int| 0 <= i < n implies fits_schema(#[trigger] second[i]) by {
        lemma_no_defect(second, 0, i);
    }
    assert(encode_modules(first, n) + Seq::<u8>::empty() =~= encode_modules(second, n)
        + Seq::<u8>::empty());
    lemma_modules_read_off(first, Seq::empty(), second, Seq::empty(), n);
    assert(first.take(n) =~= first);
    assert(second.take(n) =~= second);
}

/// The flags byte of a module.
fn flags_of(module: &ModuleDescriptor) -> (flags: u8)
    ensures
        flags == module_flags(module@),
{
    let storage: u8 = if module.storage {
        FLAG_STORAGE
    } else {
        0
    };
    let on_initialize: u8 = if module.on_initialize {
        FLAG_ON_INITIALIZE
    } else {
        0
    };
    let on_finalize: u8 = if module.on_finalize {
        FLAG_ON_FINALIZE
    } else {
        0
    };
    let inherent: u8 = if module.inherent.is_some() {
        FLAG_INHERENT
    } else {
        0
    };
    let offchain_worker: u8 = if module.offchain_worker {
        FLAG_OFFCHAIN_WORKER
    } else {
        0
    };
    storage + on_initialize + on_finalize + inherent + offchain_worker
}

/// Appends the weights of a module's calls to `out`.
fn write_weights(out: &mut Vec<u8>, weights: &Vec<Weight>)
    ensures
        final(out)@ == old(out)@ + encode_weights(weights@, weights@.len() as int),
{
    let ghost head = out@;
    assert(out@ =~= head + encode_weights(weights@, 0));
    let mut k: usize = 0;
    while k < weights.len()
        invariant
            k <= weights.len(),
            out@ == head + encode_weights(weights@, k as int),
        decreases weights.len() - k,
    {
        let mut word = u64_to_le_bytes(weights[k]);
        out.append(&mut word);
        assert(out@ =~= head + encode_weights(weights@, k as int + 1));
        k = k + 1;
    }
}

/// Appends the inherent of a module to `out`.
fn write_inherent(out: &mut Vec<u8>, inherent: Option<Inherent>)
    ensures
        final(out)@ == old(out)@ + encode_inherent(inherent),
{
    match inherent {
        None => {
            assert(out@ =~= old(out)@ + encode_inherent(inherent));
        },
        Some(declared) => {
            let mut word = u64_to_le_bytes(declared.identifier);
            out.append(&mut word);
            out.push(declared.call);
            assert(out@ =~= old(out)@ + encode_inherent(inherent));
        },
    }
}

/// Appends one module of the schema to `out`.
fn write_module(out: &mut Vec<u8>, module: &ModuleDescriptor, index: ModuleIndex)
    requires
        fits_schema(module@),
    ensures
        final(out)@ == old(out)@ + encode_module(module@, index as int),
{
    let name = module.name.as_str().as_bytes();
    out.push(index);
    out.push(name.len() as u8);
    let mut copy = vstd::slice::slice_to_vec(name);
    out.append(&mut copy);
    let mut word = u16_to_le_bytes(module.calls.len() as u16);
    out.append(&mut word);
    let ghost head = out@;
    assert(head =~= old(out)@ + seq![index as u8, encode_utf8(module@.name).len() as u8]
        + encode_utf8(module@.name) + spec_u16_to_le_bytes(module@.calls.len() as u16));
    write_weights(out, &module.calls);
    let mut word = u16_to_le_bytes(module.events);
    out.append(&mut word);
    out.push(flags_of(module));
    let ghost body = out@;
    assert(body =~= head + encode_weights(module@.calls, module@.calls.len() as int)
        + spec_u16_to_le_bytes(module@.events as u16) + seq![module_flags(module@)]);
    write_inherent(out, module.inherent);
    assert(out@ =~= old(out)@ + encode_module(module@, index as int));
}

impl Registry {
    /// The schema of the registry: every module with its shapes, in
    /// registry order.
    pub fn metadata(&self) -> (schema: Vec<u8>)
        ensures
            schema@ == spec_metadata(self@),
    {
        let n = self.len();
        let mut out = u32_to_le_bytes(METADATA_MAGIC);
        out.push(METADATA_VERSION);
        let mut word = u16_to_le_bytes(n as u16);
        out.append(&mut word);
        let ghost head = out@;
        assert(head =~= spec_u32_to_le_bytes(METADATA_MAGIC) + seq![METADATA_VERSION]
            + spec_u16_to_le_bytes(self@.len() as u16));
        let mut i: usize = 0;
        while i < n
            invariant
                i <= n,
                n == self@.len(),
                n <= MAX_MODULES,
                out@ == head + encode_modules(self@, i as int),
            decreases n - i,
        {
            let module = self.module(i as ModuleIndex).unwrap();
            write_module(&mut out, module, i as ModuleIndex);
            assert(out@ =~= head + encode_modules(self@, i as int + 1));
            i = i + 1;
        }
        out
    }
}

} // verus!
