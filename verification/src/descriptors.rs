use vstd::prelude::*;
use crate::reflect::TypeDescription;

verus! {

/// The type of a reflected descriptor binding.
#[derive(Debug, Clone, Copy, PartialEq, Eq, Structural)]
pub enum DescriptorType {
    Undefined,
    Sampler,
    CombinedImageSampler,
    SampledImage,
    StorageImage,
    UniformTexelBuffer,
    StorageTexelBuffer,
    UniformBuffer,
    StorageBuffer,
    UniformBufferDynamic,
    StorageBufferDynamic,
    InputAttachment,
    AccelerationStructure,
}

/// A descriptor binding as the reflection of a compiled shader reports it.
#[derive(Debug)]
pub struct ReflectedBinding {
    pub name: String,
    pub binding: u32,
    pub descriptor_type: DescriptorType,
    pub type_description: Option<TypeDescription>,
}

/// A descriptor set as the reflection of a compiled shader reports it.
#[derive(Debug)]
pub struct ReflectedSet {
    pub bindings: Vec<ReflectedBinding>,
}

/// A descriptor binding, as the generated descriptor code names and types it.
pub trait AshDescriptor {
    /// Whether the binding's type description has a first member to take the name from.
    spec fn has_member_name(&self) -> bool;

    /// Whether the binding has a Rust value type in generated code.
    spec fn has_value_type(&self) -> bool;

    fn name(&self) -> &str
        requires
            self.has_member_name(),
    ;

    fn ash_value_type(&self) -> String
        requires
            self.has_value_type(),
    ;

    fn struct_type(&self) -> Option<&str>;
}

/// A descriptor type, as named in ash's `vk::DescriptorType`.
pub trait AshEnum {
    /// Whether the descriptor type has a name in generated code.
    spec fn has_ash_variant(&self) -> bool;

    fn ash_variant(&self) -> &'static str
        requires
            self.has_ash_variant(),
    ;
}

/// Name of the struct a buffer binding holds: the block's type for a uniform buffer, the first
/// member's type for a storage buffer, none otherwise.
pub open spec fn spec_struct_type(b: ReflectedBinding) -> Option<Seq<char>> {
    match b.type_description {
        None => None,
        Some(t) => if b.descriptor_type == DescriptorType::UniformBuffer {
            Some(t.name@)
        } else if b.descriptor_type == DescriptorType::StorageBuffer {
            if t.members@.len() > 0 {
                Some(t.members@[0].name@)
            } else {
                None
            }
        } else {
            None
        },
    }
}

/// Rust type of a binding's value in generated code.
pub open spec fn spec_value_type(b: ReflectedBinding) -> Seq<char> {
    match b.descriptor_type {
        DescriptorType::AccelerationStructure => "&Option<RaytraceResources>"@,
        DescriptorType::SampledImage | DescriptorType::InputAttachment
        | DescriptorType::StorageImage => "vk::ImageView"@,
        DescriptorType::StorageBuffer => "&StorageBuffer<[crate::gpu::"@ + spec_struct_type(
            b,
        ).unwrap() + "]>"@,
        _ => "&UniformBuffer<crate::gpu::"@ + spec_struct_type(b).unwrap() + ">"@,
    }
}

impl AshDescriptor for ReflectedBinding {
    open spec fn has_member_name(&self) -> bool {
        self.type_description matches Some(t) && t.members@.len() > 0
    }

    open spec fn has_value_type(&self) -> bool {
        match self.descriptor_type {
            DescriptorType::AccelerationStructure | DescriptorType::SampledImage
            | DescriptorType::InputAttachment | DescriptorType::StorageImage => true,
            DescriptorType::StorageBuffer | DescriptorType::UniformBuffer => spec_struct_type(
                *self,
            ) is Some,
            _ => false,
        }
    }

    /// The binding's name: the name of the first member of its block.
    fn name(&self) -> (res: &str)
        ensures
            res@ == self.type_description.unwrap().members@[0].struct_member_name@,
    {
        match &self.type_description {
            Some(t) => t.members[0].struct_member_name.as_str(),
            None => "",
        }
    }

    fn ash_value_type(&self) -> (res: String)
        ensures
            res@ == spec_value_type(*self),
    {
        match self.descriptor_type {
            DescriptorType::AccelerationStructure => String::from_str("&Option<RaytraceResources>"),
            DescriptorType::SampledImage | DescriptorType::InputAttachment
            | DescriptorType::StorageImage => String::from_str("vk::ImageView"),
            DescriptorType::StorageBuffer => {
                let typ = match self.struct_type() {
                    Some(t) => t,
                    None => "",
                };
                let mut res = String::from_str("&StorageBuffer<[crate::gpu::");
                res.append(typ);
                res.append("]>");
                res
            },
            _ => {
                let typ = match self.struct_type() {
                    Some(t) => t,
                    None => "",
                };
                let mut res = String::from_str("&UniformBuffer<crate::gpu::");
                res.append(typ);
                res.append(">");
                res
            },
        }
    }

    fn struct_type(&self) -> (res: Option<&str>)
        ensures
            match res {
                Some(s) => spec_struct_type(*self) == Some(s@),
                None => spec_struct_type(*self) is None,
            },
    {
        let type_description = match &self.type_description {
            Some(t) => t,
            None => return None,
        };
        if self.descriptor_type == DescriptorType::UniformBuffer {
            Some(type_description.name.as_str())
        } else if self.descriptor_type == DescriptorType::StorageBuffer {
            if type_description.members.len() > 0 {
                Some(type_description.members[0].name.as_str())
            } else {
                None
            }
        } else {
            None
        }
    }
}

/// Name of a descriptor type in ash's `vk::DescriptorType`.
pub open spec fn spec_ash_variant(t: DescriptorType) -> Seq<char> {
    if t == DescriptorType::UniformBuffer {
        "UNIFORM_BUFFER"@
    } else {
        "STORAGE_BUFFER"@
    }
}

impl AshEnum for DescriptorType {
    open spec fn has_ash_variant(&self) -> bool {
        *self == DescriptorType::UniformBuffer || *self == DescriptorType::StorageBuffer
    }

    fn ash_variant(&self) -> (res: &'static str)
        ensures
            res@ == spec_ash_variant(*self),
    {
        if *self == DescriptorType::UniformBuffer {
            "UNIFORM_BUFFER"
        } else {
            "STORAGE_BUFFER"
        }
    }
}

/// Number of bindings of type `t` among `types`.
pub open spec fn count_type(types: Seq<DescriptorType>, t: DescriptorType) -> nat
    decreases types.len(),
{
    if types.len() == 0 {
        0
    } else {
        count_type(types.drop_last(), t) + if types.last() == t {
            1nat
        } else {
            0nat
        }
    }
}

/// The distinct descriptor types among `types`, in the order they first occur.
pub open spec fn distinct_types(types: Seq<DescriptorType>) -> Seq<DescriptorType>
    decreases types.len(),
{
    if types.len() == 0 {
        seq![]
    } else {
        let d = distinct_types(types.drop_last());
        if d.contains(types.last()) {
            d
        } else {
            d.push(types.last())
        }
    }
}

pub open spec fn binding_types(bindings: Seq<ReflectedBinding>) -> Seq<DescriptorType> {
    bindings.map_values(|b: ReflectedBinding| b.descriptor_type)
}

/// Pool sizes of a descriptor set: for each distinct descriptor type, in the order it first
/// occurs, two descriptors per binding of that type (one per frame in flight).
pub open spec fn spec_pool_sizes(types: Seq<DescriptorType>) -> Seq<(DescriptorType, nat)> {
    distinct_types(types).map_values(|t: DescriptorType| (t, 2 * count_type(types, t)))
}

pub open spec fn pool_sizes_view(v: Seq<(DescriptorType, u32)>) -> Seq<(DescriptorType, nat)> {
    v.map_values(|p: (DescriptorType, u32)| (p.0, p.1 as nat))
}

proof fn lemma_distinct_contains(types: Seq<DescriptorType>, t: DescriptorType)
    ensures
        distinct_types(types).contains(t) <==> types.contains(t),
        count_type(types, t) > 0 <==> types.contains(t),
        count_type(types, t) <= types.len(),
    decreases types.len(),
{
    if types.len() > 0 {
        let d = types.drop_last();
        lemma_distinct_contains(d, t);
        if d.contains(t) {
            let k = choose|k: int| 0 <= k < d.len() && d[k] == t;
            assert(types[k] == t);
        }
        if types.contains(t) {
            let k = choose|k: int| 0 <= k < types.len() && types[k] == t;
            if k < types.len() - 1 {
                assert(d[k] == t);
            }
        }
        if distinct_types(d).contains(t) {
            let k = choose|k: int| 0 <= k < distinct_types(d).len() && distinct_types(d)[k] == t;
            assert(distinct_types(d).push(types.last())[k] == t);
        }
        if !distinct_types(d).contains(types.last()) && types.last() == t {
            assert(distinct_types(d).push(types.last())[distinct_types(d).len() as int] == t);
        }
        if distinct_types(types).contains(t) && !distinct_types(d).contains(types.last()) {
            let k = choose|k: int|
                0 <= k < distinct_types(types).len() && distinct_types(types)[k] == t;
            if k < distinct_types(d).len() {
                assert(distinct_types(d)[k] == t);
            }
        }
    }
}

/// Every descriptor type the pool sizes list occurs among the bindings.
pub proof fn lemma_distinct_in_types(types: Seq<DescriptorType>, i: int)
    requires
        0 <= i < spec_pool_sizes(types).len(),
    ensures
        types.contains(spec_pool_sizes(types)[i].0),
{
    let d = distinct_types(types);
    assert(d.contains(d[i]));
    lemma_distinct_contains(types, d[i]);
}

proof fn lemma_distinct_unique(types: Seq<DescriptorType>)
    ensures
        forall|i: int, j: int|
            0 <= i < j < distinct_types(types).len() ==> distinct_types(types)[i]
                != distinct_types(types)[j],
    decreases types.len(),
{
    if types.len() > 0 {
        lemma_distinct_unique(types.drop_last());
        let d = distinct_types(types.drop_last());
        if !d.contains(types.last()) {
            assert forall|i: int, j: int|
                0 <= i < j < distinct_types(types).len() implies distinct_types(types)[i]
                != distinct_types(types)[j] by {
                if j == d.len() {
                    assert(d[i] != types.last());
                }
            }
        }
    }
}

proof fn lemma_count_push(prefix: Seq<DescriptorType>, t: DescriptorType)
    ensures
        forall|u: DescriptorType|
            #[trigger] count_type(prefix.push(t), u) == count_type(prefix, u) + if u == t {
                1nat
            } else {
                0nat
            },
{
    assert forall|u: DescriptorType| #[trigger]
        count_type(prefix.push(t), u) == count_type(prefix, u) + if u == t {
            1nat
        } else {
            0nat
        } by {
        assert(prefix.push(t).drop_last() =~= prefix);
    }
}

/// A prefix of the bindings holds no more bindings of a type than all of them.
proof fn lemma_count_prefix(types: Seq<DescriptorType>, n: int, t: DescriptorType)
    requires
        0 <= n <= types.len(),
    ensures
        count_type(types.take(n), t) <= count_type(types, t),
    decreases types.len() - n,
{
    if n < types.len() {
        lemma_count_prefix(types, n + 1, t);
        assert(types.take(n + 1).drop_last() =~= types.take(n));
    } else {
        assert(types.take(n) =~= types);
    }
}

/// Counts the descriptors of each type a descriptor set needs to allocate from its pool.
pub fn pool_sizes(bindings: &Vec<ReflectedBinding>) -> (res: Vec<(DescriptorType, u32)>)
    requires
        forall|t: DescriptorType| 2 * #[trigger] count_type(binding_types(bindings@), t) <= i32::MAX,
    ensures
        pool_sizes_view(res@) == spec_pool_sizes(binding_types(bindings@)),
{
    let ghost types = binding_types(bindings@);
    let mut res: Vec<(DescriptorType, u32)> = Vec::new();
    let mut i: usize = 0;
    while i < bindings.len()
        invariant
            types == binding_types(bindings@),
            forall|t: DescriptorType| 2 * #[trigger] count_type(types, t) <= i32::MAX,
            i <= bindings@.len(),
            pool_sizes_view(res@) == spec_pool_sizes(types.take(i as int)),
        decreases bindings@.len() - i,
    {
        let t = bindings[i].descriptor_type;
        let ghost prefix = types.take(i as int);
        let ghost next = types.take((i + 1) as int);
        assert(next.drop_last() =~= prefix);
        assert(next.last() == t);
        assert(next =~= prefix.push(t));
        proof {
            lemma_distinct_contains(prefix, t);
            lemma_distinct_contains(next, t);
        }
        let mut k: usize = 0;
        while k < res.len()
            invariant
                pool_sizes_view(res@) == spec_pool_sizes(prefix),
                k <= res@.len(),
                forall|m: int| 0 <= m < k ==> (#[trigger] res@[m]).0 != t,
            ensures
                pool_sizes_view(res@) == spec_pool_sizes(prefix),
                k <= res@.len(),
                forall|m: int| 0 <= m < k ==> (#[trigger] res@[m]).0 != t,
                k < res@.len() ==> res@[k as int].0 == t,
            decreases res@.len() - k,
        {
            if res[k].0 == t {
                break;
            }
            k = k + 1;
        }
        let ghost d = distinct_types(prefix);
        proof {
            lemma_distinct_unique(prefix);
            lemma_count_push(prefix, t);
            assert(pool_sizes_view(res@).len() == d.len());
            assert forall|m: int| 0 <= m < res@.len() implies (#[trigger] res@[m]).0 == d[m] by {
                assert(pool_sizes_view(res@)[m] == spec_pool_sizes(prefix)[m]);
            }
        }
        if k < res.len() {
            assert(d[k as int] == t);
            assert(d.contains(t));
            assert(pool_sizes_view(res@)[k as int] == spec_pool_sizes(prefix)[k as int]);
            assert(res@[k as int].1 == 2 * count_type(prefix, t));
            assert(distinct_types(next) == d);
            let old_count = res[k].1;
            proof {
                lemma_distinct_contains(next, t);
                lemma_count_prefix(types, (i + 1) as int, t);
                lemma_count_push(prefix, t);
                assert(2 * count_type(types, t) <= i32::MAX);
            }
            let ghost before = res@;
            res.set(k, (t, old_count + 2));
            assert forall|m: int| 0 <= m < d.len() implies #[trigger] pool_sizes_view(res@)[m]
                == spec_pool_sizes(next)[m] by {
                assert(pool_sizes_view(before)[m] == spec_pool_sizes(prefix)[m]);
                if m != k {
                    assert(d[m] != d[k as int]);
                }
            }
            assert(pool_sizes_view(res@) =~= spec_pool_sizes(next));
        } else {
            assert(!d.contains(t)) by {
                if d.contains(t) {
                    let m = choose|m: int| 0 <= m < d.len() && d[m] == t;
                    assert(res@[m].0 == t);
                }
            }
            assert(count_type(prefix, t) == 0);
            assert(distinct_types(next) == d.push(t));
            let ghost before = res@;
            res.push((t, 2));
            assert forall|m: int| 0 <= m < d.len() implies #[trigger] pool_sizes_view(res@)[m]
                == spec_pool_sizes(next)[m] by {
                assert(pool_sizes_view(before)[m] == spec_pool_sizes(prefix)[m]);
                assert(d[m] != t);
            }
            assert(pool_sizes_view(res@) =~= spec_pool_sizes(next));
        }
        i = i + 1;
    }
    assert(types.take(bindings@.len() as int) =~= types);
    res
}


/// Total of the descriptor counts of a list of pool sizes.
pub open spec fn total_descriptors(sizes: Seq<(DescriptorType, nat)>) -> nat
    decreases sizes.len(),
{
    if sizes.len() == 0 {
        0
    } else {
        total_descriptors(sizes.drop_last()) + sizes.last().1
    }
}

/// Sum over the types in `d` of how often each occurs in `types`.
spec fn sum_counts(d: Seq<DescriptorType>, types: Seq<DescriptorType>) -> nat
    decreases d.len(),
{
    if d.len() == 0 {
        0
    } else {
        sum_counts(d.drop_last(), types) + count_type(types, d.last())
    }
}

proof fn lemma_sum_counts_push(d: Seq<DescriptorType>, prefix: Seq<DescriptorType>, t: DescriptorType)
    requires
        forall|i: int, j: int| 0 <= i < j < d.len() ==> d[i] != d[j],
    ensures
        sum_counts(d, prefix.push(t)) == sum_counts(d, prefix) + if d.contains(t) {
            1nat
        } else {
            0nat
        },
    decreases d.len(),
{
    lemma_count_push(prefix, t);
    if d.len() > 0 {
        let e = d.drop_last();
        lemma_sum_counts_push(e, prefix, t);
        if e.contains(t) {
            let k = choose|k: int| 0 <= k < e.len() && e[k] == t;
            assert(d[k] == t);
            assert(d.last() != t);
            assert(d.contains(t));
        } else if d.last() == t {
            assert(d.contains(t));
        } else {
            assert(!d.contains(t)) by {
                if d.contains(t) {
                    let k = choose|k: int| 0 <= k < d.len() && d[k] == t;
                    assert(e[k] == t);
                }
            }
        }
    }
}

proof fn lemma_sum_counts_extend(d: Seq<DescriptorType>, t: DescriptorType, types: Seq<DescriptorType>)
    ensures
        sum_counts(d.push(t), types) == sum_counts(d, types) + count_type(types, t),
{
    assert(d.push(t).drop_last() =~= d);
}

proof fn lemma_total_is_sum(types: Seq<DescriptorType>, d: Seq<DescriptorType>)
    ensures
        total_descriptors(d.map_values(|u: DescriptorType| (u, 2 * count_type(types, u)))) == 2
            * sum_counts(d, types),
    decreases d.len(),
{
    if d.len() > 0 {
        lemma_total_is_sum(types, d.drop_last());
        assert(d.map_values(|u: DescriptorType| (u, 2 * count_type(types, u))).drop_last()
            =~= d.drop_last().map_values(|u: DescriptorType| (u, 2 * count_type(types, u))));
    }
}

proof fn lemma_sum_distinct(types: Seq<DescriptorType>)
    ensures
        sum_counts(distinct_types(types), types) == types.len(),
    decreases types.len(),
{
    if types.len() > 0 {
        let prefix = types.drop_last();
        let t = types.last();
        assert(types =~= prefix.push(t));
        lemma_sum_distinct(prefix);
        let d = distinct_types(prefix);
        lemma_distinct_unique(prefix);
        lemma_sum_counts_push(d, prefix, t);
        lemma_distinct_contains(prefix, t);
        if !d.contains(t) {
            lemma_sum_counts_extend(d, t, types);
            lemma_count_push(prefix, t);
        }
    }
}

/// Law: the pool sizes list each descriptor type of the set once, and they provide two
/// descriptors (one per frame in flight) for every binding of the set.
pub proof fn law_pool_sizes_cover_bindings(types: Seq<DescriptorType>)
    ensures
        total_descriptors(spec_pool_sizes(types)) == 2 * types.len(),
        forall|i: int, j: int|
            0 <= i < j < spec_pool_sizes(types).len() ==> spec_pool_sizes(types)[i].0
                != spec_pool_sizes(types)[j].0,
{
    lemma_total_is_sum(types, distinct_types(types));
    lemma_sum_distinct(types);
    lemma_distinct_unique(types);
}
} // verus!
