use vstd::prelude::*;
use crate::codegen::{spec_binding_stage, spec_binding_type_name, spec_descriptor_type, BindingType};
use crate::config::{DescriptorBinding, DescriptorSet};
use crate::text::{decimal, push_decimal};

verus! {

pub const INDENT: &'static str = "    ";

pub const BINDINGS_OPEN: &'static str = "_bindings: [\n";

pub const BINDING_INDEX: &'static str = "        vk::DescriptorSetLayoutBinding {\n            binding: ";

pub const BINDING_TYPE: &'static str = ",\n            descriptor_type: vk::DescriptorType::";

pub const BINDING_STAGE: &'static str = ",\n            descriptor_count: 1,\n            stage_flags: vk::ShaderStageFlags::";

pub const BINDING_CLOSE: &'static str = ",\n            p_immutable_samplers: std::ptr::null(),\n        },\n";

pub const LAYOUT_OPEN: &'static str = "    ],\n    ";

pub const LAYOUT_COUNT: &'static str = "_layout: vk::DescriptorSetLayoutCreateInfo {\n        s_type: vk::StructureType::DESCRIPTOR_SET_LAYOUT_CREATE_INFO,\n        p_next: std::ptr::null(),\n        flags: vk::DescriptorSetLayoutCreateFlags::empty(),\n        binding_count: ";

pub const LAYOUT_BINDINGS: &'static str = ",\n        p_bindings: unsafe { SCRATCH.";

pub const LAYOUT_CLOSE: &'static str = "_bindings.as_ptr() },\n    },\n    ";

pub const POOL_SIZES_OPEN: &'static str = "_pool_sizes: [\n";

pub const POOL_SIZE_TYPE: &'static str = "        vk::DescriptorPoolSize {\n            ty: vk::DescriptorType::";

pub const POOL_SIZE_COUNT: &'static str = ",\n            descriptor_count: ";

pub const POOL_SIZE_CLOSE: &'static str = ",\n        },\n";

pub const POOL_MAX_SETS: &'static str = "_pool: vk::DescriptorPoolCreateInfo {\n        s_type: vk::StructureType::DESCRIPTOR_POOL_CREATE_INFO,\n        p_next: std::ptr::null(),\n        flags: vk::DescriptorPoolCreateFlags::empty(),\n        max_sets: ";

pub const POOL_SIZE_COUNT_FIELD: &'static str = ",\n        pool_size_count: ";

pub const POOL_SIZES_PTR: &'static str = ",\n        p_pool_sizes: unsafe { SCRATCH.";

pub const POOL_CLOSE: &'static str = "_pool_sizes.as_ptr() },\n    },\n";

/// The binding kinds of the first `n` bindings, each once, in the order they first appear.
pub open spec fn pool_types(bs: Seq<DescriptorBinding>, n: int) -> Seq<BindingType>
    decreases n,
{
    if n <= 0 || n > bs.len() {
        seq![]
    } else {
        let prev = pool_types(bs, n - 1);
        let t = spec_descriptor_type(bs[n - 1]);
        if prev.contains(t) {
            prev
        } else {
            prev.push(t)
        }
    }
}

/// Number of bindings of kind `t` among the first `n`.
pub open spec fn type_count(bs: Seq<DescriptorBinding>, t: BindingType, n: int) -> nat
    decreases n,
{
    if n <= 0 || n > bs.len() {
        0
    } else {
        type_count(bs, t, n - 1) + if spec_descriptor_type(bs[n - 1]) == t {
            1nat
        } else {
            0nat
        }
    }
}

/// Whether the pool sizes of the set fit in `usize`: twice the pool size, and for each binding
/// kind, that many descriptors for each binding of the kind.
pub open spec fn pool_counts_fit(s: DescriptorSet) -> bool {
    &&& 2 * s.pool_size <= usize::MAX
    &&& forall|t: BindingType|
        #[trigger] type_count(s.bindings@, t, s.bindings@.len() as int) * (2 * s.pool_size)
            <= usize::MAX
}

/// The layout binding of binding `i`.
pub open spec fn binding_entry(i: nat, b: DescriptorBinding) -> Seq<char> {
    BINDING_INDEX@ + decimal(i) + BINDING_TYPE@ + spec_binding_type_name(spec_descriptor_type(b))
        + BINDING_STAGE@ + spec_binding_stage(b) + BINDING_CLOSE@
}

/// The layout bindings of the first `n` bindings.
pub open spec fn binding_entries(bs: Seq<DescriptorBinding>, n: int) -> Seq<char>
    decreases n,
{
    if n <= 0 || n > bs.len() {
        seq![]
    } else {
        binding_entries(bs, n - 1) + binding_entry((n - 1) as nat, bs[n - 1])
    }
}

/// The pool sizes of the first `k` binding kinds of `types`: for each kind, twice the pool
/// size per binding of that kind.
pub open spec fn pool_size_entries(s: DescriptorSet, types: Seq<BindingType>, k: int) -> Seq<char>
    decreases k,
{
    if k <= 0 || k > types.len() {
        seq![]
    } else {
        pool_size_entries(s, types, k - 1) + POOL_SIZE_TYPE@ + spec_binding_type_name(types[k - 1])
            + POOL_SIZE_COUNT@ + decimal(
            (type_count(s.bindings@, types[k - 1], s.bindings@.len() as int) * (2 * s.pool_size)) as nat,
        ) + POOL_SIZE_CLOSE@
    }
}

/// The scratch data of a descriptor set: its layout bindings and layout create info, one pool
/// size per binding kind (in the order the kinds first appear, each with twice the pool size
/// per binding of the kind), and the pool create info for twice the pool size of sets.
pub open spec fn spec_descriptor_set(s: DescriptorSet) -> Seq<char> {
    let bs = s.bindings@;
    let n = bs.len() as int;
    let name = s.name@;
    let types = pool_types(bs, n);
    INDENT@ + name + BINDINGS_OPEN@ + binding_entries(bs, n) + LAYOUT_OPEN@ + name + LAYOUT_COUNT@
        + decimal(bs.len()) + LAYOUT_BINDINGS@ + name + LAYOUT_CLOSE@ + name + POOL_SIZES_OPEN@
        + pool_size_entries(s, types, types.len() as int) + LAYOUT_OPEN@ + name + POOL_MAX_SETS@
        + decimal((2 * s.pool_size) as nat) + POOL_SIZE_COUNT_FIELD@ + decimal(types.len())
        + POOL_SIZES_PTR@ + name + POOL_CLOSE@
}

proof fn lemma_type_count_monotone(bs: Seq<DescriptorBinding>, t: BindingType, i: int, k: int)
    requires
        0 <= i <= k <= bs.len(),
    ensures
        type_count(bs, t, i) <= type_count(bs, t, k),
    decreases k - i,
{
    if i < k {
        lemma_type_count_monotone(bs, t, i, k - 1);
    }
}

proof fn lemma_absent_type_count(bs: Seq<DescriptorBinding>, t: BindingType, n: int)
    requires
        0 <= n <= bs.len(),
        !pool_types(bs, n).contains(t),
    ensures
        type_count(bs, t, n) == 0,
    decreases n,
{
    if n > 0 {
        let prev = pool_types(bs, n - 1);
        if prev.contains(t) {
            let k = choose|k: int| 0 <= k < prev.len() && prev[k] == t;
            if prev.contains(spec_descriptor_type(bs[n - 1])) {
                assert(pool_types(bs, n)[k] == t);
            } else {
                assert(pool_types(bs, n)[k] == t);
            }
        }
        lemma_absent_type_count(bs, t, n - 1);
        if spec_descriptor_type(bs[n - 1]) == t {
            if !prev.contains(t) {
                assert(pool_types(bs, n)[prev.len() as int] == t);
            }
        }
    }
}

proof fn lemma_pool_types_distinct(bs: Seq<DescriptorBinding>, n: int)
    requires
        0 <= n <= bs.len(),
    ensures
        pool_types(bs, n).no_duplicates(),
    decreases n,
{
    if n > 0 {
        lemma_pool_types_distinct(bs, n - 1);
    }
}

/// Appends the layout bindings.
fn push_binding_entries(t: &mut String, bs: &Vec<DescriptorBinding>)
    ensures
        final(t)@ == old(t)@ + binding_entries(bs@, bs@.len() as int),
{
    let ghost start = t@;
    let mut i: usize = 0;
    while i < bs.len()
        invariant
            i <= bs@.len(),
            t@ == start + binding_entries(bs@, i as int),
        decreases bs@.len() - i,
    {
        let b = &bs[i];
        let kind = b.descriptor_type();
        t.append(BINDING_INDEX);
        push_decimal(t, i as u64);
        t.append(BINDING_TYPE);
        t.append(kind.name());
        t.append(BINDING_STAGE);
        t.append(b.stage());
        t.append(BINDING_CLOSE);
        assert(t@ =~= start + binding_entries(bs@, i as int) + binding_entry(i as nat, bs@[i as int]));
        i = i + 1;
    }
}

/// Position of the pool size entry for `kind`, if there is one.
fn find_kind(pools: &Vec<(BindingType, usize)>, kind: BindingType) -> (res: Option<usize>)
    ensures
        match res {
            Some(k) => k < pools@.len() && pools@[k as int].0 == kind,
            None => forall|j: int| 0 <= j < pools@.len() ==> pools@[j].0 != kind,
        },
{
    let mut k: usize = 0;
    while k < pools.len()
        invariant
            k <= pools@.len(),
            forall|j: int| 0 <= j < k ==> pools@[j].0 != kind,
        decreases pools@.len() - k,
    {
        if pools[k].0 == kind {
            return Some(k);
        }
        k = k + 1;
    }
    None
}

/// The pool sizes of the set: each binding kind once, in order of first appearance, with its
/// descriptor count.
fn pool_sizes(s: &DescriptorSet) -> (res: Vec<(BindingType, usize)>)
    requires
        pool_counts_fit(*s),
    ensures
        res@.len() == pool_types(s.bindings@, s.bindings@.len() as int).len(),
        forall|k: int|
            0 <= k < res@.len() ==> (#[trigger] res@[k]).0 == pool_types(
                s.bindings@,
                s.bindings@.len() as int,
            )[k] && res@[k].1 == type_count(s.bindings@, res@[k].0, s.bindings@.len() as int) * (
            2 * s.pool_size),
{
    let bs = &s.bindings;
    let step = s.pool_size * 2;
    let mut pools: Vec<(BindingType, usize)> = Vec::new();
    let mut i: usize = 0;
    while i < bs.len()
        invariant
            *bs == s.bindings,
            pool_counts_fit(*s),
            step == 2 * s.pool_size,
            i <= bs@.len(),
            pools@.len() == pool_types(bs@, i as int).len(),
            forall|k: int|
                0 <= k < pools@.len() ==> (#[trigger] pools@[k]).0 == pool_types(bs@, i as int)[k]
                    && pools@[k].1 == type_count(bs@, pools@[k].0, i as int) * step,
        decreases bs@.len() - i,
    {
        let kind = bs[i].descriptor_type();
        let ghost prev = pool_types(bs@, i as int);
        proof {
            lemma_pool_types_distinct(bs@, i as int);
            lemma_type_count_monotone(bs@, kind, (i + 1) as int, bs@.len() as int);
            let c = type_count(bs@, kind, (i + 1) as int);
            let total = type_count(bs@, kind, bs@.len() as int);
            assert(type_count(bs@, kind, bs@.len() as int) * (2 * s.pool_size) <= usize::MAX);
            assert(c * step <= usize::MAX) by (nonlinear_arith)
                requires
                    c <= total,
                    total * step <= usize::MAX,
                    step >= 0,
            ;
        }
        let search = find_kind(&pools, kind);
        let found = search.is_some();
        let k: usize = match search {
            Some(k) => k,
            None => 0,
        };
        assert(found ==> pools@[k as int].0 == kind);
        assert(!found ==> forall|j: int| 0 <= j < pools@.len() ==> pools@[j].0 != kind);
        if found {
            let ghost old_pools = pools@;
            assert(prev.contains(kind)) by {
                assert(prev[k as int] == kind);
            }
            assert(type_count(bs@, kind, (i + 1) as int) == type_count(bs@, kind, i as int) + 1);
            proof {
                let c = type_count(bs@, kind, i as int);
                assert(c * step + step == (c + 1) * step) by (nonlinear_arith);
            }
            let count = pools[k].1 + step;
            pools.set(k, (kind, count));
            assert forall|j: int| 0 <= j < pools@.len() implies (#[trigger] pools@[j]).0 == pool_types(
                bs@,
                (i + 1) as int,
            )[j] && pools@[j].1 == type_count(bs@, pools@[j].0, (i + 1) as int) * step by {
                if j != k {
                    assert(old_pools[j].0 != kind) by {
                        assert(prev.no_duplicates());
                    }
                }
            }
        } else {
            assert(!prev.contains(kind)) by {
                if prev.contains(kind) {
                    let j = choose|j: int| 0 <= j < prev.len() && prev[j] == kind;
                    assert(pools@[j].0 == kind);
                }
            }
            proof {
                lemma_absent_type_count(bs@, kind, i as int);
            }
            let ghost old_pools = pools@;
            assert(type_count(bs@, kind, (i + 1) as int) == 1);
            assert(1 * step == step);
            pools.push((kind, step));
            assert forall|j: int| 0 <= j < pools@.len() implies (#[trigger] pools@[j]).0 == pool_types(
                bs@,
                (i + 1) as int,
            )[j] && pools@[j].1 == type_count(bs@, pools@[j].0, (i + 1) as int) * step by {
                if j < old_pools.len() {
                    assert(old_pools[j].0 != kind) by {
                        assert(prev[j] == old_pools[j].0);
                    }
                }
            }
        }
        i = i + 1;
    }
    pools
}

/// Appends the pool sizes.
fn push_pool_size_entries(t: &mut String, s: &DescriptorSet, pools: &Vec<(BindingType, usize)>)
    requires
        pools@.len() == pool_types(s.bindings@, s.bindings@.len() as int).len(),
        forall|k: int|
            0 <= k < pools@.len() ==> (#[trigger] pools@[k]).0 == pool_types(
                s.bindings@,
                s.bindings@.len() as int,
            )[k] && pools@[k].1 == type_count(s.bindings@, pools@[k].0, s.bindings@.len() as int)
                * (2 * s.pool_size),
    ensures
        final(t)@ == old(t)@ + pool_size_entries(
            *s,
            pool_types(s.bindings@, s.bindings@.len() as int),
            pools@.len() as int,
        ),
{
    let ghost start = t@;
    let ghost types = pool_types(s.bindings@, s.bindings@.len() as int);
    let mut k: usize = 0;
    while k < pools.len()
        invariant
            types == pool_types(s.bindings@, s.bindings@.len() as int),
            pools@.len() == types.len(),
            forall|j: int|
                0 <= j < pools@.len() ==> (#[trigger] pools@[j]).0 == types[j] && pools@[j].1
                    == type_count(s.bindings@, pools@[j].0, s.bindings@.len() as int) * (2
                    * s.pool_size),
            k <= pools@.len(),
            t@ == start + pool_size_entries(*s, types, k as int),
        decreases pools@.len() - k,
    {
        let entry = pools[k];
        assert(entry == pools@[k as int]);
        t.append(POOL_SIZE_TYPE);
        t.append(entry.0.name());
        t.append(POOL_SIZE_COUNT);
        push_decimal(t, entry.1 as u64);
        t.append(POOL_SIZE_CLOSE);
        assert(t@ =~= start + pool_size_entries(*s, types, (k + 1) as int));
        k = k + 1;
    }
}

/// The scratch data of a descriptor set, as [`spec_descriptor_set`] states: its layout
/// bindings, layout create info, pool sizes and pool create info.
pub fn descriptor_set_text(s: &DescriptorSet) -> (res: String)
    requires
        pool_counts_fit(*s),
    ensures
        res@ == spec_descriptor_set(*s),
{
    let name = s.name.as_str();
    let pools = pool_sizes(s);
    let mut t = String::new();
    t.append(INDENT);
    t.append(name);
    t.append(BINDINGS_OPEN);
    push_binding_entries(&mut t, &s.bindings);
    t.append(LAYOUT_OPEN);
    t.append(name);
    t.append(LAYOUT_COUNT);
    push_decimal(&mut t, s.bindings.len() as u64);
    t.append(LAYOUT_BINDINGS);
    t.append(name);
    t.append(LAYOUT_CLOSE);
    t.append(name);
    t.append(POOL_SIZES_OPEN);
    push_pool_size_entries(&mut t, s, &pools);
    t.append(LAYOUT_OPEN);
    t.append(name);
    t.append(POOL_MAX_SETS);
    push_decimal(&mut t, (s.pool_size * 2) as u64);
    t.append(POOL_SIZE_COUNT_FIELD);
    push_decimal(&mut t, pools.len() as u64);
    t.append(POOL_SIZES_PTR);
    t.append(name);
    t.append(POOL_CLOSE);
    t
}

} // verus!
