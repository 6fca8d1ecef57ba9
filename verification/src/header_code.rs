use vstd::prelude::*;
use crate::config::{view_shader_list, DescriptorBinding, DescriptorSet, Sampler};
use crate::shader_set::{law_shader_set_sorted_unique, shader_lt, shader_set, sorted_set, str_lt};
use crate::shader_type::ShaderType;

verus! {

pub const HEADER_SOURCE: &'static str = "// Code generated from ";

pub const HEADER_UNIFORMS: &'static str = ".\n\nuse crate::renderer::raytracing::RaytraceResources;\nuse crate::renderer::shader::compile_glsl;\n#[rustfmt::skip]\nuse crate::renderer::uniform::{";

pub const HEADER_REST: &'static str = "};\nuse crate::renderer::debug::set_label;\n#[allow(unused_imports)]\nuse crate::renderer::util::{AsDescriptor, Dev, ImageResources, StorageBuffer, UniformBuffer};\nuse crate::renderer::{Pass, Swapchain, COLOR_FORMAT, DEPTH_FORMAT, FRAMES_IN_FLIGHT};\nuse ash::vk;\nuse std::ffi::CStr;\nuse std::mem::MaybeUninit;\n\npub struct Samplers {\n";

pub const SEPARATOR: &'static str = ", ";

pub const FIELD_OPEN: &'static str = "    pub ";

pub const SAMPLER_FIELD: &'static str = ": vk::Sampler,\n";

pub const SET_LAYOUTS_OPEN: &'static str = "}\n\npub struct DescriptorSetLayouts {\n";

pub const SET_LAYOUT_FIELD: &'static str = ": vk::DescriptorSetLayout,\n";

pub const POOLS_OPEN: &'static str = "}\n\npub struct DescriptorPools {\n";

pub const POOL_FIELD: &'static str = ": vk::DescriptorPool,\n";

pub const POOL_LAYOUT_FIELD: &'static str = "_layout: vk::DescriptorSetLayout,\n";

pub const STRUCT_CLOSE: &'static str = "}\n";

/// The uniform types of the first `n` bindings.
pub open spec fn binding_uniform_types(bs: Seq<DescriptorBinding>, n: int) -> Seq<Seq<char>>
    decreases n,
{
    if n <= 0 || n > bs.len() {
        seq![]
    } else {
        binding_uniform_types(bs, n - 1) + match bs[n - 1] {
            DescriptorBinding::Uniform(u) => seq![u.typ@],
            _ => seq![],
        }
    }
}

/// The uniform types of the first `n` descriptor sets, set after set.
pub open spec fn uniform_types(sets: Seq<DescriptorSet>, n: int) -> Seq<Seq<char>>
    decreases n,
{
    if n <= 0 || n > sets.len() {
        seq![]
    } else {
        uniform_types(sets, n - 1) + binding_uniform_types(
            sets[n - 1].bindings@,
            sets[n - 1].bindings@.len() as int,
        )
    }
}

/// Names tagged with one and the same shader kind, so that pairs order as their names do.
pub open spec fn tagged(names: Seq<Seq<char>>) -> Seq<(Seq<char>, ShaderType)> {
    names.map_values(|n: Seq<char>| (n, ShaderType::Compute))
}

/// The distinct names in ascending order of characters, as a `BTreeSet` of strings holds them.
pub open spec fn sorted_names(names: Seq<Seq<char>>) -> Seq<Seq<char>> {
    sorted_set(tagged(names)).map_values(|p: (Seq<char>, ShaderType)| p.0)
}

/// The first `n` names, separated by a comma and a space.
pub open spec fn joined(names: Seq<Seq<char>>, n: int) -> Seq<char>
    decreases n,
{
    if n <= 0 || n > names.len() {
        seq![]
    } else if n == 1 {
        names[0]
    } else {
        joined(names, n - 1) + SEPARATOR@ + names[n - 1]
    }
}

/// The sampler fields of the first `n` samplers.
pub open spec fn sampler_fields(samplers: Seq<Sampler>, n: int) -> Seq<char>
    decreases n,
{
    if n <= 0 || n > samplers.len() {
        seq![]
    } else {
        sampler_fields(samplers, n - 1) + FIELD_OPEN@ + samplers[n - 1].name@ + SAMPLER_FIELD@
    }
}

/// The layout fields of the first `n` descriptor sets.
pub open spec fn set_layout_fields(sets: Seq<DescriptorSet>, n: int) -> Seq<char>
    decreases n,
{
    if n <= 0 || n > sets.len() {
        seq![]
    } else {
        set_layout_fields(sets, n - 1) + FIELD_OPEN@ + sets[n - 1].name@ + SET_LAYOUT_FIELD@
    }
}

/// The pool fields of the first `n` descriptor sets: the pool and its layout.
pub open spec fn pool_fields(sets: Seq<DescriptorSet>, n: int) -> Seq<char>
    decreases n,
{
    if n <= 0 || n > sets.len() {
        seq![]
    } else {
        pool_fields(sets, n - 1) + FIELD_OPEN@ + sets[n - 1].name@ + POOL_FIELD@ + FIELD_OPEN@
            + sets[n - 1].name@ + POOL_LAYOUT_FIELD@
    }
}

/// The opening of the generated renderer module: a comment naming the description it comes
/// from, the imports (the uniform types of all descriptor sets, each once, in ascending order),
/// and the structs of samplers, descriptor set layouts and descriptor pools.
pub open spec fn spec_module_header(
    in_path: Seq<char>,
    samplers: Seq<Sampler>,
    sets: Seq<DescriptorSet>,
) -> Seq<char> {
    let uniforms = sorted_names(uniform_types(sets, sets.len() as int));
    HEADER_SOURCE@ + in_path + HEADER_UNIFORMS@ + joined(uniforms, uniforms.len() as int)
        + HEADER_REST@ + sampler_fields(samplers, samplers.len() as int) + SET_LAYOUTS_OPEN@
        + set_layout_fields(sets, sets.len() as int) + POOLS_OPEN@ + pool_fields(
        sets,
        sets.len() as int,
    ) + STRUCT_CLOSE@
}

/// Law: the imported uniform types are exactly the uniform types of the descriptor sets, each
/// once, in strictly ascending order.
pub proof fn law_uniform_imports_sorted_unique(names: Seq<Seq<char>>)
    ensures
        forall|i: int, j: int|
            0 <= i < j < sorted_names(names).len() ==> str_lt(
                #[trigger] sorted_names(names)[i],
                #[trigger] sorted_names(names)[j],
            ),
        forall|x: Seq<char>| #[trigger] sorted_names(names).contains(x) <==> names.contains(x),
{
    let t = tagged(names);
    law_shader_set_sorted_unique(t);
    let s = sorted_set(t);
    assert forall|i: int| 0 <= i < s.len() implies (#[trigger] s[i]).1 == ShaderType::Compute by {
        assert(s.contains(s[i]));
        assert(t.contains(s[i]));
        let k = choose|k: int| 0 <= k < t.len() && t[k] == s[i];
        assert(t[k].1 == ShaderType::Compute);
    }
    assert forall|i: int, j: int|
        0 <= i < j < sorted_names(names).len() implies str_lt(
        #[trigger] sorted_names(names)[i],
        #[trigger] sorted_names(names)[j],
    ) by {
        assert(shader_lt(s[i], s[j]));
        assert(s[i].1 == ShaderType::Compute && s[j].1 == ShaderType::Compute);
    }
    assert forall|x: Seq<char>| #[trigger] sorted_names(names).contains(x) <==> names.contains(x) by {
        if sorted_names(names).contains(x) {
            let i = choose|i: int| 0 <= i < s.len() && sorted_names(names)[i] == x;
            assert(s.contains(s[i]));
            assert(t.contains(s[i]));
            let k = choose|k: int| 0 <= k < t.len() && t[k] == s[i];
            assert(names[k] == x);
        }
        if names.contains(x) {
            let k = choose|k: int| 0 <= k < names.len() && names[k] == x;
            assert(t[k] == (x, ShaderType::Compute));
            assert(s.contains(t[k]));
            let i = choose|i: int| 0 <= i < s.len() && s[i] == t[k];
            assert(sorted_names(names)[i] == x);
        }
    }
}

/// Collects the uniform types of the descriptor sets, tagged as [`tagged`] does.
fn collect_uniform_types<'a>(sets: &'a Vec<DescriptorSet>) -> (res: Vec<(&'a str, ShaderType)>)
    ensures
        view_shader_list(res@) == tagged(uniform_types(sets@, sets@.len() as int)),
{
    let mut res: Vec<(&'a str, ShaderType)> = Vec::new();
    let mut i: usize = 0;
    while i < sets.len()
        invariant
            i <= sets@.len(),
            view_shader_list(res@) == tagged(uniform_types(sets@, i as int)),
        decreases sets@.len() - i,
    {
        let bs = &sets[i].bindings;
        let ghost before = uniform_types(sets@, i as int);
        let mut j: usize = 0;
        while j < bs.len()
            invariant
                i < sets@.len(),
                *bs == sets@[i as int].bindings,
                j <= bs@.len(),
                view_shader_list(res@) == tagged(before + binding_uniform_types(bs@, j as int)),
            decreases bs@.len() - j,
        {
            let ghost prev = res@;
            let ghost names = before + binding_uniform_types(bs@, j as int);
            match &bs[j] {
                DescriptorBinding::Uniform(u) => {
                    res.push((u.typ.as_str(), ShaderType::Compute));
                    assert(before + binding_uniform_types(bs@, (j + 1) as int) =~= names.push(
                        u.typ@,
                    ));
                    assert(view_shader_list(res@) =~= view_shader_list(prev).push(
                        (u.typ@, ShaderType::Compute),
                    ));
                    assert(tagged(names.push(u.typ@)) =~= tagged(names).push(
                        (u.typ@, ShaderType::Compute),
                    ));
                },
                _ => {
                    assert(before + binding_uniform_types(bs@, (j + 1) as int) =~= names);
                },
            }
            assert(view_shader_list(res@) =~= tagged(before + binding_uniform_types(bs@, (j + 1) as int)));
            j = j + 1;
        }
        assert(before + binding_uniform_types(bs@, bs@.len() as int) =~= uniform_types(sets@, (i + 1) as int));
        i = i + 1;
    }
    res
}

/// Appends the names, separated by a comma and a space.
fn push_joined(t: &mut String, names: &Vec<(&str, ShaderType)>)
    ensures
        final(t)@ == old(t)@ + joined(
            view_shader_list(names@).map_values(|p: (Seq<char>, ShaderType)| p.0),
            names@.len() as int,
        ),
{
    let ghost start = t@;
    let ghost ns = view_shader_list(names@).map_values(|p: (Seq<char>, ShaderType)| p.0);
    let mut k: usize = 0;
    while k < names.len()
        invariant
            ns == view_shader_list(names@).map_values(|p: (Seq<char>, ShaderType)| p.0),
            ns.len() == names@.len(),
            k <= names@.len(),
            t@ == start + joined(ns, k as int),
        decreases names@.len() - k,
    {
        assert(ns[k as int] == names@[k as int].0@);
        if k != 0 {
            t.append(SEPARATOR);
        }
        t.append(names[k].0);
        assert(t@ =~= start + joined(ns, (k + 1) as int));
        k = k + 1;
    }
}

/// The opening of the generated renderer module, as [`spec_module_header`] states: the source
/// comment, the imports with the uniform types of all descriptor sets sorted and each once, and
/// the structs of samplers, descriptor set layouts and descriptor pools.
pub fn module_header(in_path: &str, samplers: &Vec<Sampler>, sets: &Vec<DescriptorSet>) -> (res:
    String)
    ensures
        res@ == spec_module_header(in_path@, samplers@, sets@),
{
    let uniforms = shader_set(&collect_uniform_types(sets));
    let mut t = String::from_str(HEADER_SOURCE);
    t.append(in_path);
    t.append(HEADER_UNIFORMS);
    push_joined(&mut t, &uniforms);
    t.append(HEADER_REST);
    let ghost after_imports = t@;
    let mut i: usize = 0;
    while i < samplers.len()
        invariant
            i <= samplers@.len(),
            t@ == after_imports + sampler_fields(samplers@, i as int),
        decreases samplers@.len() - i,
    {
        t.append(FIELD_OPEN);
        t.append(samplers[i].name.as_str());
        t.append(SAMPLER_FIELD);
        assert(t@ =~= after_imports + sampler_fields(samplers@, (i + 1) as int));
        i = i + 1;
    }
    t.append(SET_LAYOUTS_OPEN);
    let ghost after_samplers = t@;
    let mut i: usize = 0;
    while i < sets.len()
        invariant
            i <= sets@.len(),
            t@ == after_samplers + set_layout_fields(sets@, i as int),
        decreases sets@.len() - i,
    {
        t.append(FIELD_OPEN);
        t.append(sets[i].name.as_str());
        t.append(SET_LAYOUT_FIELD);
        assert(t@ =~= after_samplers + set_layout_fields(sets@, (i + 1) as int));
        i = i + 1;
    }
    t.append(POOLS_OPEN);
    let ghost after_layouts = t@;
    let mut i: usize = 0;
    while i < sets.len()
        invariant
            i <= sets@.len(),
            t@ == after_layouts + pool_fields(sets@, i as int),
        decreases sets@.len() - i,
    {
        t.append(FIELD_OPEN);
        t.append(sets[i].name.as_str());
        t.append(POOL_FIELD);
        t.append(FIELD_OPEN);
        t.append(sets[i].name.as_str());
        t.append(POOL_LAYOUT_FIELD);
        assert(t@ =~= after_layouts + pool_fields(sets@, (i + 1) as int));
        i = i + 1;
    }
    t.append(STRUCT_CLOSE);
    t
}

} // verus!
