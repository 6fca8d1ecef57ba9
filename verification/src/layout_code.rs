use vstd::prelude::*;
use crate::config::{Pipeline, Renderer, Subpass};
use crate::helper::{camel_from, to_camelcase};
use crate::pipeline_code::{
    all_usable, check_pipeline, default_literal, find_spec, first_spec, pipeline_ok, spec_usable,
};
use crate::state_code::{pipeline_state_text, spec_pipeline_state};
use crate::text::{decimal, push_decimal};
use crate::vertex_code::{formats_known, vertex_counts_fit};

verus! {

pub const LAYOUTS_0: &'static str = "    ";

pub const LAYOUTS_1: &'static str = "_layouts: [vk::DescriptorSetLayout::null(); ";

pub const LAYOUTS_2: &'static str = "],\n";

pub const ENTRIES_0: &'static str = "    ";

pub const ENTRIES_1: &'static str = "_fragment_specialization_entries: [\n";

pub const ENTRY_0: &'static str = "        vk::SpecializationMapEntry {\n            constant_id: ";

pub const ENTRY_1: &'static str = ",\n            offset: ";

pub const ENTRY_2: &'static str = ",\n            size: ";

pub const ENTRY_3: &'static str = ",\n        },\n";

pub const INFO_0: &'static str = "    ],\n    ";

pub const INFO_1: &'static str = "_fragment_specialization_info: vk::SpecializationInfo {\n        map_entry_count: ";

pub const INFO_2: &'static str = ",\n        p_map_entries: unsafe { SCRATCH.";

pub const INFO_3: &'static str = "_fragment_specialization_entries.as_ptr() },\n        data_size: ";

pub const INFO_4: &'static str = ",\n        p_data: unsafe { (&SCRATCH.";

pub const INFO_5: &'static str = "_fragment_specialization_scratch) as *const _ as *const std::ffi::c_void },\n    },\n    ";

pub const INFO_6: &'static str = "_fragment_specialization_scratch: ";

pub const INFO_7: &'static str = "Specialization {\n";

pub const FIELD_0: &'static str = "        ";

pub const FIELD_1: &'static str = ": ";

pub const FIELD_2: &'static str = ",\n";

pub const SCRATCH_END_0: &'static str = "    },\n";

pub const LAYOUT_0: &'static str = "    ";

pub const LAYOUT_1: &'static str = "_pipeline_layout: vk::PipelineLayoutCreateInfo {\n        s_type: vk::StructureType::PIPELINE_LAYOUT_CREATE_INFO,\n        p_next: std::ptr::null(),\n        flags: vk::PipelineLayoutCreateFlags::empty(),\n        set_layout_count: ";

pub const LAYOUT_2: &'static str = ",\n        p_set_layouts: ";

pub const LAYOUT_3: &'static str = ",\n        push_constant_range_count: 0,\n        p_push_constant_ranges: std::ptr::null(),\n    },\n    ";

pub const LAYOUT_4: &'static str = "_shader_stages: [\n        vk::PipelineShaderStageCreateInfo {\n            s_type: vk::StructureType::PIPELINE_SHADER_STAGE_CREATE_INFO,\n            p_next: std::ptr::null(),\n            flags: vk::PipelineShaderStageCreateFlags::empty(),\n            stage: vk::ShaderStageFlags::VERTEX,\n            module: vk::ShaderModule::null(),\n            p_name: unsafe { CStr::from_bytes_with_nul_unchecked(b\"main\\0\") }.as_ptr(),\n            p_specialization_info: std::ptr::null(),\n        },\n        vk::PipelineShaderStageCreateInfo {\n            s_type: vk::StructureType::PIPELINE_SHADER_STAGE_CREATE_INFO,\n            p_next: std::ptr::null(),\n            flags: vk::PipelineShaderStageCreateFlags::empty(),\n            stage: vk::ShaderStageFlags::FRAGMENT,\n            module: vk::ShaderModule::null(),\n            p_name: unsafe { CStr::from_bytes_with_nul_unchecked(b\"main\\0\") }.as_ptr(),\n            p_specialization_info: ";

pub const LAYOUT_5: &'static str = ",\n        },\n    ],\n";

pub const NULL_PTR: &'static str = "std::ptr::null()";

pub const SCRATCH_ARRAY: &'static str = "unsafe { SCRATCH.";

pub const SCRATCH_REF: &'static str = "unsafe { &SCRATCH.";

pub const LAYOUTS_PTR_END: &'static str = "_layouts.as_ptr() }";

pub const INFO_PTR_END: &'static str = "_fragment_specialization_info }";

/// The array of descriptor set layouts of a pipeline that binds more than one set.
pub open spec fn layouts_line(p: Pipeline) -> Seq<char> {
    if p.descriptor_sets@.len() > 1 {
        LAYOUTS_0@ + p.name@ + LAYOUTS_1@ + decimal(p.descriptor_sets@.len()) + LAYOUTS_2@
    } else {
        seq![]
    }
}

/// The map entry of specialization constant `k`: four bytes at offset `4 * k`.
pub open spec fn entry_line(k: nat) -> Seq<char> {
    ENTRY_0@ + decimal(k) + ENTRY_1@ + decimal(4 * k) + ENTRY_2@ + decimal(4) + ENTRY_3@
}

/// The map entries of the first `n` specialization constants.
pub open spec fn entry_lines(n: nat) -> Seq<char>
    decreases n,
{
    if n == 0 {
        seq![]
    } else {
        entry_lines((n - 1) as nat) + entry_line((n - 1) as nat)
    }
}

/// The specialization info of a pipeline with `n` constants, and the opening of its scratch
/// value.
pub open spec fn info_text(p: Pipeline, n: nat) -> Seq<char> {
    INFO_0@ + p.name@ + INFO_1@ + decimal(n) + INFO_2@ + p.name@ + INFO_3@ + decimal(4 * n) + INFO_4@ + p.name@ + INFO_5@ + p.name@ + INFO_6@ + camel_from(p.name@, true) + INFO_7@
}

/// The field of the scratch value for constant `name`: its zero value.
pub open spec fn field_line(r: Renderer, name: String) -> Seq<char> {
    FIELD_0@ + name@ + FIELD_1@ + default_literal(first_spec(r.specializations@, name@)) + FIELD_2@
}

/// The scratch fields of the first `k` constants of `names`.
pub open spec fn field_lines(r: Renderer, names: Seq<String>, k: int) -> Seq<char>
    decreases k,
{
    if k <= 0 || k > names.len() {
        seq![]
    } else {
        field_lines(r, names, k - 1) + field_line(r, names[k - 1])
    }
}

/// The fragment specialization data of a pipeline, if it has specialization constants.
pub open spec fn specialization_text(r: Renderer, p: Pipeline) -> Seq<char> {
    match p.fragment_specialization {
        Some(specs) => ENTRIES_0@ + p.name@ + ENTRIES_1@ + entry_lines(specs@.len()) + info_text(
            p,
            specs@.len(),
        ) + field_lines(r, specs@, specs@.len() as int) + SCRATCH_END_0@,
        None => seq![],
    }
}

/// Pointer to the pipeline's array of set layouts, or null when it binds at most one set.
pub open spec fn set_layouts_ptr(p: Pipeline) -> Seq<char> {
    if p.descriptor_sets@.len() > 1 {
        SCRATCH_ARRAY@ + p.name@ + LAYOUTS_PTR_END@
    } else {
        NULL_PTR@
    }
}

/// Pointer to the pipeline's specialization info, or null when it has none.
pub open spec fn specialization_ptr(p: Pipeline) -> Seq<char> {
    if p.fragment_specialization is Some {
        SCRATCH_REF@ + p.name@ + INFO_PTR_END@
    } else {
        NULL_PTR@
    }
}

/// The pipeline layout and the two shader stages.
pub open spec fn layout_stages(p: Pipeline) -> Seq<char> {
    LAYOUT_0@ + p.name@ + LAYOUT_1@ + decimal(p.descriptor_sets@.len()) + LAYOUT_2@ + set_layouts_ptr(p) + LAYOUT_3@ + p.name@ + LAYOUT_4@ + specialization_ptr(p) + LAYOUT_5@
}

/// The scratch data of a graphics pipeline before its vertex input: the array of set layouts
/// when it binds more than one descriptor set, its fragment specialization entries (four bytes
/// per constant), info and zero-valued scratch value, then the pipeline layout and the vertex
/// and fragment shader stages. `None` when the generated code cannot describe the pipeline
/// ([`pipeline_ok`]).
pub open spec fn spec_pipeline_layout(r: Renderer, p: Pipeline) -> Option<Seq<char>> {
    if pipeline_ok(r, p) {
        Some(layouts_line(p) + specialization_text(r, p) + layout_stages(p))
    } else {
        None
    }
}

/// The whole scratch data of a graphics pipeline of subpass `subpass_index`: its layout part
/// followed by its vertex input and fixed-function states. `None` when either part cannot be
/// generated.
pub open spec fn spec_pipeline_scratch(r: Renderer, p: Pipeline, s: Subpass, subpass_index: usize) -> Option<
    Seq<char>,
> {
    match (spec_pipeline_layout(r, p), spec_pipeline_state(p, s, subpass_index)) {
        (Some(a), Some(b)) => Some(a + b),
        _ => None,
    }
}

fn push_layouts_line(t: &mut String, p: &Pipeline)
    ensures
        final(t)@ == old(t)@ + layouts_line(*p),
{
    let ghost start = t@;
    if p.descriptor_sets.len() > 1 {
        t.append(LAYOUTS_0);
    t.append(p.name.as_str());
    t.append(LAYOUTS_1);
    push_decimal(t, p.descriptor_sets.len() as u64);
    t.append(LAYOUTS_2);
    }
    assert(t@ =~= start + layouts_line(*p));
}

fn push_entry_line(t: &mut String, k: usize, size: usize)
    requires
        4 * k <= usize::MAX,
        size == 4,
    ensures
        final(t)@ == old(t)@ + entry_line(k as nat),
{
    let ghost start = t@;
    t.append(ENTRY_0);
    push_decimal(t, k as u64);
    t.append(ENTRY_1);
    push_decimal(t, (4 * k) as u64);
    t.append(ENTRY_2);
    push_decimal(t, size as u64);
    t.append(ENTRY_3);
    assert(t@ =~= start + entry_line(k as nat));
}

fn push_info_text(t: &mut String, p: &Pipeline, n: usize, camel: &String)
    requires
        4 * n <= usize::MAX,
        camel@ == camel_from(p.name@, true),
    ensures
        final(t)@ == old(t)@ + info_text(*p, n as nat),
{
    let ghost start = t@;
    t.append(INFO_0);
    t.append(p.name.as_str());
    t.append(INFO_1);
    push_decimal(t, n as u64);
    t.append(INFO_2);
    t.append(p.name.as_str());
    t.append(INFO_3);
    push_decimal(t, (4 * n) as u64);
    t.append(INFO_4);
    t.append(p.name.as_str());
    t.append(INFO_5);
    t.append(p.name.as_str());
    t.append(INFO_6);
    t.append(camel.as_str());
    t.append(INFO_7);
    assert(t@ =~= start + info_text(*p, n as nat));
}

fn push_field_line(t: &mut String, r: &Renderer, name: &String)
    requires
        spec_usable(r.specializations@, name@),
    ensures
        final(t)@ == old(t)@ + field_line(*r, *name),
{
    let ghost start = t@;
    let spec = find_spec(r, name.as_str());
    t.append(FIELD_0);
    t.append(name.as_str());
    t.append(FIELD_1);
    t.append(spec.type_default());
    t.append(FIELD_2);
    assert(t@ =~= start + field_line(*r, *name));
}

fn push_entry_lines(t: &mut String, r: &Renderer, specs: &Vec<String>)
    requires
        all_usable(r.specializations@, specs@),
        4 * specs@.len() <= usize::MAX,
    ensures
        final(t)@ == old(t)@ + entry_lines(specs@.len()),
{
    let ghost start = t@;
    let n = specs.len();
    let mut k: usize = 0;
    while k < n
        invariant
            all_usable(r.specializations@, specs@),
            4 * specs@.len() <= usize::MAX,
            n == specs@.len(),
            k <= n,
            t@ == start + entry_lines(k as nat),
        decreases n - k,
    {
        assert(spec_usable(r.specializations@, specs@[k as int]@));
        let spec = find_spec(r, specs[k].as_str());
        let size = spec.type_size();
        push_entry_line(t, k, size);
        k = k + 1;
    }
}

fn push_field_lines(t: &mut String, r: &Renderer, specs: &Vec<String>)
    requires
        all_usable(r.specializations@, specs@),
    ensures
        final(t)@ == old(t)@ + field_lines(*r, specs@, specs@.len() as int),
{
    let ghost start = t@;
    let n = specs.len();
    let mut k: usize = 0;
    while k < n
        invariant
            all_usable(r.specializations@, specs@),
            n == specs@.len(),
            k <= n,
            t@ == start + field_lines(*r, specs@, k as int),
        decreases n - k,
    {
        assert(spec_usable(r.specializations@, specs@[k as int]@));
        push_field_line(t, r, &specs[k]);
        k = k + 1;
    }
}

fn push_specialization_text(t: &mut String, r: &Renderer, p: &Pipeline)
    requires
        pipeline_ok(*r, *p),
    ensures
        final(t)@ == old(t)@ + specialization_text(*r, *p),
{
    let ghost start = t@;
    match &p.fragment_specialization {
        Some(specs) => {
            assert(all_usable(r.specializations@, specs@));
            let n = specs.len();
            t.append(ENTRIES_0);
            t.append(p.name.as_str());
            t.append(ENTRIES_1);
            let ghost s1 = t@;
            push_entry_lines(t, r, specs);
            let camel = to_camelcase(p.name.as_str());
            push_info_text(t, p, n, &camel);
            let ghost s2 = t@;
            push_field_lines(t, r, specs);
            t.append(SCRATCH_END_0);
            assert(t@ =~= s2 + field_lines(*r, specs@, specs@.len() as int) + SCRATCH_END_0@);
            assert(t@ =~= start + specialization_text(*r, *p));
        },
        None => {
            assert(t@ =~= start + specialization_text(*r, *p));
        },
    }
}

fn set_layouts_ptr_str(p: &Pipeline) -> (res: String)
    ensures
        res@ == set_layouts_ptr(*p),
{
    if p.descriptor_sets.len() > 1 {
        let mut s = String::from_str(SCRATCH_ARRAY);
        s.append(p.name.as_str());
        s.append(LAYOUTS_PTR_END);
        s
    } else {
        String::from_str(NULL_PTR)
    }
}

fn specialization_ptr_str(p: &Pipeline) -> (res: String)
    ensures
        res@ == specialization_ptr(*p),
{
    if p.fragment_specialization.is_some() {
        let mut s = String::from_str(SCRATCH_REF);
        s.append(p.name.as_str());
        s.append(INFO_PTR_END);
        s
    } else {
        String::from_str(NULL_PTR)
    }
}

fn push_layout_stages(t: &mut String, p: &Pipeline)
    ensures
        final(t)@ == old(t)@ + layout_stages(*p),
{
    let ghost start = t@;
    let layouts_ptr = set_layouts_ptr_str(p);
    let info_ptr = specialization_ptr_str(p);
    t.append(LAYOUT_0);
    t.append(p.name.as_str());
    t.append(LAYOUT_1);
    push_decimal(t, p.descriptor_sets.len() as u64);
    t.append(LAYOUT_2);
    t.append(layouts_ptr.as_str());
    t.append(LAYOUT_3);
    t.append(p.name.as_str());
    t.append(LAYOUT_4);
    t.append(info_ptr.as_str());
    t.append(LAYOUT_5);
    assert(t@ =~= start + layout_stages(*p));
}

/// The scratch data of a graphics pipeline before its vertex input, as
/// [`spec_pipeline_layout`] states.
pub fn pipeline_layout_text(r: &Renderer, p: &Pipeline) -> (res: Option<String>)
    ensures
        match res {
            Some(t) => spec_pipeline_layout(*r, *p) == Some(t@),
            None => spec_pipeline_layout(*r, *p) is None,
        },
{
    if !check_pipeline(r, p) {
        return None;
    }
    let mut t = String::new();
    push_layouts_line(&mut t, p);
    push_specialization_text(&mut t, r, p);
    push_layout_stages(&mut t, p);
    Some(t)
}

/// The whole scratch data of a graphics pipeline of subpass `subpass_index`, as
/// [`spec_pipeline_scratch`] states: layout, specialization, shader stages, vertex input and
/// fixed-function states.
pub fn pipeline_scratch_text(r: &Renderer, p: &Pipeline, s: &Subpass, subpass_index: usize) -> (res:
    Option<String>)
    requires
        formats_known(p.vertex_bindings@) ==> vertex_counts_fit(p.vertex_bindings@),
    ensures
        match res {
            Some(t) => spec_pipeline_scratch(*r, *p, *s, subpass_index) == Some(t@),
            None => spec_pipeline_scratch(*r, *p, *s, subpass_index) is None,
        },
{
    let layout = pipeline_layout_text(r, p);
    let state = pipeline_state_text(p, s, subpass_index);
    match (layout, state) {
        (Some(a), Some(b)) => {
            let mut t = a;
            t.append(b.as_str());
            Some(t)
        },
        _ => None,
    }
}

} // verus!
