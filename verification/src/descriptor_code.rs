use vstd::prelude::*;
use crate::descriptors::{
    binding_types, count_type, pool_sizes, pool_sizes_view, spec_ash_variant, spec_pool_sizes, spec_struct_type,
    spec_value_type, AshDescriptor, AshEnum, DescriptorType, ReflectedBinding, ReflectedSet,
};
use crate::text::{concat_map, decimal, lemma_concat_map_step, lemma_take_all, push_decimal};

verus! {

pub const BINDINGS_OPEN: &'static str = "static DESCRIPTOR_SET_BINDINGS: [vk::DescriptorSetLayoutBinding<'static>; ";

pub const ARRAY_OPEN: &'static str = "] = [\n";

pub const LAYOUT_BINDING_OPEN: &'static str = "    vk::DescriptorSetLayoutBinding {\n        binding: ";

pub const LAYOUT_BINDING_TYPE: &'static str = ",\n        descriptor_type: vk::DescriptorType::";

pub const LAYOUT_BINDING_CLOSE: &'static str = ",\n        descriptor_count: 1,\n        stage_flags: vk::ShaderStageFlags::ALL,\n        p_immutable_samplers: std::ptr::null(),\n        _marker: std::marker::PhantomData,\n    },\n";

pub const LAYOUT_OPEN: &'static str = "];\n\nstatic DESCRIPTOR_SET_LAYOUT: vk::DescriptorSetLayoutCreateInfo = vk::DescriptorSetLayoutCreateInfo {\n    s_type: vk::StructureType::DESCRIPTOR_SET_LAYOUT_CREATE_INFO,\n    p_next: std::ptr::null(),\n    flags: vk::DescriptorSetLayoutCreateFlags::empty(),\n    binding_count: ";

pub const LAYOUT_CLOSE: &'static str = ",\n    p_bindings: &raw const DESCRIPTOR_SET_BINDINGS[0],\n    _marker: std::marker::PhantomData,\n};\n\nstatic DESCRIPTOR_POOL_SIZES: [vk::DescriptorPoolSize; ";

pub const POOL_SIZE_OPEN: &'static str = "    vk::DescriptorPoolSize {\n        ty: vk::DescriptorType::";

pub const POOL_SIZE_COUNT: &'static str = ",\n        descriptor_count: ";

pub const POOL_SIZE_CLOSE: &'static str = ",\n    },\n";

pub const POOL_OPEN: &'static str = "];\n\nstatic DESCRIPTOR_POOL: vk::DescriptorPoolCreateInfo = vk::DescriptorPoolCreateInfo {\n    s_type: vk::StructureType::DESCRIPTOR_POOL_CREATE_INFO,\n    p_next: std::ptr::null(),\n    flags: vk::DescriptorPoolCreateFlags::empty(),\n    max_sets: 2,\n    pool_size_count: ";

pub const POOL_CLOSE: &'static str = ",\n    p_pool_sizes: &raw const DESCRIPTOR_POOL_SIZES[0],\n    _marker: std::marker::PhantomData,\n};\n\npub fn alloc_descriptor_set(\n";

pub const ALLOC_PARAM_OPEN: &'static str = "    ";

pub const PARAM_TYPE: &'static str = ": ";

pub const PARAM_CLOSE: &'static str = ",\n";

pub const ALLOC_BODY: &'static str = "    dev: &Dev,\n    layout: vk::DescriptorSetLayout,\n    pool: vk::DescriptorPool,\n) -> [vk::DescriptorSet; FRAMES_IN_FLIGHT] {\n    let layouts = [layout; FRAMES_IN_FLIGHT];\n    let descriptor_set_alloc_info = vk::DescriptorSetAllocateInfo::default()\n        .descriptor_pool(pool)\n        .set_layouts(&layouts);\n    let descriptors: [vk::DescriptorSet; FRAMES_IN_FLIGHT] =\n        unsafe { dev.allocate_descriptor_sets(&descriptor_set_alloc_info) }\n            .unwrap()\n            .try_into()\n            .unwrap();\n    update_descriptor_set(&descriptors";

pub const ARG_SEPARATOR: &'static str = ", ";

pub const UPDATE_OPEN: &'static str = ", dev);\n    descriptors\n}\n\n#[allow(clippy::unused_enumerate_index)]\npub fn update_descriptor_set(\n    descriptors: &[vk::DescriptorSet; FRAMES_IN_FLIGHT],\n";

pub const UPDATE_PARAM_OPEN: &'static str = "        ";

pub const UPDATE_LOOP_OPEN: &'static str = "    dev: &Dev,\n    ) {\n    for (_flight_index, descriptor) in descriptors.iter().enumerate() {\n";

pub const BUFFER_OPEN: &'static str = "        let ";

pub const BUFFER_MIDDLE: &'static str = "_buffer = ";

pub const BUFFER_CLOSE: &'static str = ".descriptor(_flight_index);\n";

pub const WRITE_OPEN: &'static str = "        let ";

pub const WRITE_SET: &'static str = " = vk::WriteDescriptorSet::default()\n            .dst_set(*descriptor)\n            .dst_binding(";

pub const WRITE_TYPE: &'static str = ")\n            .descriptor_type(vk::DescriptorType::";

pub const WRITE_BUFFER: &'static str = ")\n            .buffer_info(std::slice::from_ref(&";

pub const WRITE_CLOSE: &'static str = "_buffer));\n";

pub const WRITES_OPEN: &'static str = "        let writes = [";

pub const WRITES_CLOSE: &'static str = "];\n        let writes = &writes;\n";

pub const DESCRIPTORS_TAIL: &'static str = "        unsafe { dev.update_descriptor_sets(writes, &[]) };\n    }\n}\n\npub fn create_descriptor_set_layout(_samplers: &Samplers, dev: &Dev) -> vk::DescriptorSetLayout {\n    unsafe { dev.create_descriptor_set_layout(&DESCRIPTOR_SET_LAYOUT, None).unwrap_unchecked() }\n}\n\npub fn create_descriptor_pool(dev: &Dev) -> vk::DescriptorPool {\n    unsafe { dev.create_descriptor_pool(&DESCRIPTOR_POOL, None).unwrap_unchecked() }\n}\n";

/// Whether the generated descriptor code can describe a binding: a uniform or storage buffer
/// whose block names the GPU struct it holds.
pub open spec fn binding_ok(b: ReflectedBinding) -> bool {
    &&& (b.descriptor_type == DescriptorType::UniformBuffer || b.descriptor_type
        == DescriptorType::StorageBuffer)
    &&& spec_struct_type(b) is Some
}

/// The layout entry of one binding.
pub open spec fn layout_binding(b: ReflectedBinding) -> Seq<char> {
    LAYOUT_BINDING_OPEN@ + decimal(b.binding as nat) + LAYOUT_BINDING_TYPE@ + spec_ash_variant(
        b.descriptor_type,
    ) + LAYOUT_BINDING_CLOSE@
}

/// The parameter of `alloc_descriptor_set` for one binding.
pub open spec fn alloc_param(b: ReflectedBinding) -> Seq<char> {
    ALLOC_PARAM_OPEN@ + b.name@ + PARAM_TYPE@ + spec_value_type(b) + PARAM_CLOSE@
}

/// The argument `alloc_descriptor_set` hands `update_descriptor_set` for one binding.
pub open spec fn alloc_arg(b: ReflectedBinding) -> Seq<char> {
    ARG_SEPARATOR@ + b.name@
}

/// The parameter of `update_descriptor_set` for one binding.
pub open spec fn update_param(b: ReflectedBinding) -> Seq<char> {
    UPDATE_PARAM_OPEN@ + b.name@ + PARAM_TYPE@ + spec_value_type(b) + PARAM_CLOSE@
}

/// The buffer info and descriptor write of one binding.
pub open spec fn binding_write(b: ReflectedBinding) -> Seq<char> {
    BUFFER_OPEN@ + b.name@ + BUFFER_MIDDLE@ + b.name@ + BUFFER_CLOSE@ + WRITE_OPEN@ + b.name@
        + WRITE_SET@ + decimal(b.binding as nat) + WRITE_TYPE@ + spec_ash_variant(
        b.descriptor_type,
    ) + WRITE_BUFFER@ + b.name@ + WRITE_CLOSE@
}

/// The text generated for one binding in one of the per-binding sections.
pub open spec fn binding_section(section: u8, b: ReflectedBinding) -> Seq<char> {
    if section == 0 {
        layout_binding(b)
    } else if section == 1 {
        alloc_param(b)
    } else if section == 2 {
        alloc_arg(b)
    } else if section == 3 {
        update_param(b)
    } else {
        binding_write(b)
    }
}

/// The pool size entry of one descriptor type.
pub open spec fn pool_size_entry(p: (DescriptorType, nat)) -> Seq<char> {
    POOL_SIZE_OPEN@ + spec_ash_variant(p.0) + POOL_SIZE_COUNT@ + decimal(p.1) + POOL_SIZE_CLOSE@
}

/// The names of the bindings, separated by commas.
pub open spec fn joined_names(bs: Seq<ReflectedBinding>) -> Seq<char>
    decreases bs.len(),
{
    if bs.len() == 0 {
        seq![]
    } else if bs.len() == 1 {
        bs[0].name@
    } else {
        joined_names(bs.drop_last()) + ARG_SEPARATOR@ + bs.last().name@
    }
}

/// The generated `descriptors.rs` for the bindings of the one descriptor set: the layout
/// bindings, the layout, the pool sizes and pool, and the functions that allocate, update and
/// create the set.
pub open spec fn descriptors_text(bs: Seq<ReflectedBinding>) -> Seq<char> {
    let sizes = spec_pool_sizes(binding_types(bs));
    BINDINGS_OPEN@ + decimal(bs.len()) + ARRAY_OPEN@ + concat_map(
        bs,
        |b: ReflectedBinding| binding_section(0, b),
    ) + LAYOUT_OPEN@ + decimal(bs.len()) + LAYOUT_CLOSE@ + decimal(sizes.len()) + ARRAY_OPEN@
        + concat_map(sizes, |p: (DescriptorType, nat)| pool_size_entry(p)) + POOL_OPEN@ + decimal(
        sizes.len(),
    ) + POOL_CLOSE@ + concat_map(bs, |b: ReflectedBinding| binding_section(1, b)) + ALLOC_BODY@
        + concat_map(bs, |b: ReflectedBinding| binding_section(2, b)) + UPDATE_OPEN@ + concat_map(
        bs,
        |b: ReflectedBinding| binding_section(3, b),
    ) + UPDATE_LOOP_OPEN@ + concat_map(bs, |b: ReflectedBinding| binding_section(4, b))
        + WRITES_OPEN@ + joined_names(bs) + WRITES_CLOSE@ + DESCRIPTORS_TAIL@
}

/// The generated `descriptors.rs` for the descriptor sets of the reflected shader, or `None`
/// where generation stops: the shader must have exactly one descriptor set, and each of its
/// bindings must be a uniform or storage buffer whose block names its struct.
pub open spec fn spec_descriptors_source(sets: Seq<ReflectedSet>) -> Option<Seq<char>> {
    if sets.len() == 1 && forall|i: int|
        0 <= i < sets[0].bindings@.len() ==> #[trigger] binding_ok(sets[0].bindings@[i]) {
        Some(descriptors_text(sets[0].bindings@))
    } else {
        None
    }
}

fn check_binding(b: &ReflectedBinding) -> (res: bool)
    ensures
        res == binding_ok(*b),
{
    (b.descriptor_type == DescriptorType::UniformBuffer || b.descriptor_type
        == DescriptorType::StorageBuffer) && b.struct_type().is_some()
}

fn push_binding_section(out: &mut String, b: &ReflectedBinding, section: u8)
    requires
        binding_ok(*b),
    ensures
        final(out)@ == old(out)@ + binding_section(section, *b),
{
    if section == 0 {
        out.append(LAYOUT_BINDING_OPEN);
        push_decimal(out, b.binding as u64);
        out.append(LAYOUT_BINDING_TYPE);
        out.append(b.descriptor_type.ash_variant());
        out.append(LAYOUT_BINDING_CLOSE);
    } else if section == 1 || section == 3 {
        if section == 1 {
            out.append(ALLOC_PARAM_OPEN);
        } else {
            out.append(UPDATE_PARAM_OPEN);
        }
        out.append(b.name.as_str());
        out.append(PARAM_TYPE);
        let typ = b.ash_value_type();
        out.append(typ.as_str());
        out.append(PARAM_CLOSE);
    } else if section == 2 {
        out.append(ARG_SEPARATOR);
        out.append(b.name.as_str());
    } else {
        let name = b.name.as_str();
        out.append(BUFFER_OPEN);
        out.append(name);
        out.append(BUFFER_MIDDLE);
        out.append(name);
        out.append(BUFFER_CLOSE);
        out.append(WRITE_OPEN);
        out.append(name);
        out.append(WRITE_SET);
        push_decimal(out, b.binding as u64);
        out.append(WRITE_TYPE);
        out.append(b.descriptor_type.ash_variant());
        out.append(WRITE_BUFFER);
        out.append(name);
        out.append(WRITE_CLOSE);
    }
}

fn push_binding_sections(out: &mut String, bindings: &Vec<ReflectedBinding>, section: u8)
    requires
        forall|i: int| 0 <= i < bindings@.len() ==> #[trigger] binding_ok(bindings@[i]),
    ensures
        final(out)@ == old(out)@ + concat_map(
            bindings@,
            |b: ReflectedBinding| binding_section(section, b),
        ),
{
    let ghost start = out@;
    let mut i: usize = 0;
    while i < bindings.len()
        invariant
            forall|i: int| 0 <= i < bindings@.len() ==> #[trigger] binding_ok(bindings@[i]),
            i <= bindings@.len(),
            out@ == start + concat_map(
                bindings@.take(i as int),
                |b: ReflectedBinding| binding_section(section, b),
            ),
        decreases bindings@.len() - i,
    {
        proof {
            lemma_concat_map_step(
                bindings@,
                |b: ReflectedBinding| binding_section(section, b),
                i as int,
            );
        }
        assert(binding_ok(bindings@[i as int]));
        push_binding_section(out, &bindings[i], section);
        i = i + 1;
    }
    proof {
        lemma_take_all(bindings@);
    }
}

fn push_pool_sizes(out: &mut String, sizes: &Vec<(DescriptorType, u32)>)
    requires
        forall|i: int|
            0 <= i < sizes@.len() ==> (#[trigger] sizes@[i]).0 == DescriptorType::UniformBuffer
                || sizes@[i].0 == DescriptorType::StorageBuffer,
    ensures
        final(out)@ == old(out)@ + concat_map(
            pool_sizes_view(sizes@),
            |p: (DescriptorType, nat)| pool_size_entry(p),
        ),
{
    let ghost start = out@;
    let ghost sv = pool_sizes_view(sizes@);
    let mut i: usize = 0;
    while i < sizes.len()
        invariant
            forall|i: int|
                0 <= i < sizes@.len() ==> (#[trigger] sizes@[i]).0 == DescriptorType::UniformBuffer
                    || sizes@[i].0 == DescriptorType::StorageBuffer,
            sv == pool_sizes_view(sizes@),
            i <= sizes@.len(),
            out@ == start + concat_map(
                sv.take(i as int),
                |p: (DescriptorType, nat)| pool_size_entry(p),
            ),
        decreases sizes@.len() - i,
    {
        proof {
            lemma_concat_map_step(sv, |p: (DescriptorType, nat)| pool_size_entry(p), i as int);
        }
        let (t, n) = sizes[i];
        assert(sizes@[i as int].0 == DescriptorType::UniformBuffer || sizes@[i as int].0
            == DescriptorType::StorageBuffer);
        out.append(POOL_SIZE_OPEN);
        out.append(t.ash_variant());
        out.append(POOL_SIZE_COUNT);
        push_decimal(out, n as u64);
        out.append(POOL_SIZE_CLOSE);
        i = i + 1;
    }
    proof {
        lemma_take_all(sv);
    }
}

fn push_joined_names(out: &mut String, bindings: &Vec<ReflectedBinding>)
    ensures
        final(out)@ == old(out)@ + joined_names(bindings@),
{
    let ghost start = out@;
    let mut i: usize = 0;
    while i < bindings.len()
        invariant
            i <= bindings@.len(),
            out@ == start + joined_names(bindings@.take(i as int)),
        decreases bindings@.len() - i,
    {
        let ghost next = bindings@.take((i + 1) as int);
        assert(next.drop_last() =~= bindings@.take(i as int));
        if i > 0 {
            out.append(ARG_SEPARATOR);
        } else {
            assert(next.len() == 1);
        }
        out.append(bindings[i].name.as_str());
        i = i + 1;
    }
    proof {
        lemma_take_all(bindings@);
    }
}

/// Every pool size of buffer bindings names a buffer type.
proof fn lemma_pool_types(bs: Seq<ReflectedBinding>, sizes: Seq<(DescriptorType, nat)>)
    requires
        forall|i: int| 0 <= i < bs.len() ==> #[trigger] binding_ok(bs[i]),
        sizes == spec_pool_sizes(binding_types(bs)),
    ensures
        forall|i: int|
            0 <= i < sizes.len() ==> (#[trigger] sizes[i]).0 == DescriptorType::UniformBuffer
                || sizes[i].0 == DescriptorType::StorageBuffer,
{
    let types = binding_types(bs);
    assert forall|i: int| 0 <= i < sizes.len() implies (#[trigger] sizes[i]).0
        == DescriptorType::UniformBuffer || sizes[i].0 == DescriptorType::StorageBuffer by {
        crate::descriptors::lemma_distinct_in_types(types, i);
        let k = choose|k: int| 0 <= k < types.len() && types[k] == sizes[i].0;
        assert(binding_ok(bs[k]));
    }
}

/// The text of the generated `descriptors.rs`, `None` where generation stops: the reflected
/// shader does not have exactly one descriptor set, or one of its bindings is not a uniform or
/// storage buffer whose block names its struct.
pub fn generate_descriptors(sets: &Vec<ReflectedSet>) -> (res: Option<String>)
    requires
        sets@.len() == 1 ==> forall|t: DescriptorType|
            2 * #[trigger] count_type(binding_types(sets@[0].bindings@), t) <= i32::MAX,
    ensures
        match res {
            Some(text) => spec_descriptors_source(sets@) == Some(text@),
            None => spec_descriptors_source(sets@) is None,
        },
{
    if sets.len() != 1 {
        return None;
    }
    let bindings = &sets[0].bindings;
    let mut i: usize = 0;
    while i < bindings.len()
        invariant
            sets@.len() == 1,
            bindings@ == sets@[0].bindings@,
            i <= bindings@.len(),
            forall|j: int| 0 <= j < i ==> #[trigger] binding_ok(bindings@[j]),
        decreases bindings@.len() - i,
    {
        if !check_binding(&bindings[i]) {
            assert(!binding_ok(bindings@[i as int]));
            return None;
        }
        i = i + 1;
    }
    let sizes = pool_sizes(bindings);
    proof {
        lemma_pool_types(bindings@, pool_sizes_view(sizes@));
        assert forall|i: int| 0 <= i < sizes@.len() implies (#[trigger] sizes@[i]).0
            == DescriptorType::UniformBuffer || sizes@[i].0 == DescriptorType::StorageBuffer by {
            assert(pool_sizes_view(sizes@)[i].0 == sizes@[i].0);
        }
    }
    let mut out = String::from_str(BINDINGS_OPEN);
    push_decimal(&mut out, bindings.len() as u64);
    out.append(ARRAY_OPEN);
    push_binding_sections(&mut out, bindings, 0);
    out.append(LAYOUT_OPEN);
    push_decimal(&mut out, bindings.len() as u64);
    out.append(LAYOUT_CLOSE);
    push_decimal(&mut out, sizes.len() as u64);
    out.append(ARRAY_OPEN);
    push_pool_sizes(&mut out, &sizes);
    out.append(POOL_OPEN);
    push_decimal(&mut out, sizes.len() as u64);
    out.append(POOL_CLOSE);
    push_binding_sections(&mut out, bindings, 1);
    out.append(ALLOC_BODY);
    push_binding_sections(&mut out, bindings, 2);
    out.append(UPDATE_OPEN);
    push_binding_sections(&mut out, bindings, 3);
    out.append(UPDATE_LOOP_OPEN);
    push_binding_sections(&mut out, bindings, 4);
    out.append(WRITES_OPEN);
    push_joined_names(&mut out, bindings);
    out.append(WRITES_CLOSE);
    out.append(DESCRIPTORS_TAIL);
    assert(pool_sizes_view(sizes@).len() == sizes@.len());
    Some(out)
}

} // verus!
