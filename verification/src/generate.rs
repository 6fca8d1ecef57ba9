use vstd::prelude::*;
use crate::config::{Renderer, Sampler};
use crate::reflect::{
    collect_all_types, spec_collect_sets, spec_type_rust, SpecStruct, SpecType, Struct, Type, TypeInfo,
    members_view, structs_view,
};
use crate::descriptors::ReflectedSet;
use crate::text::{concat_map, decimal, lemma_concat_map_step, lemma_take_all, push_decimal};

verus! {

pub const SAMPLERS_OPEN: &'static str = "pub struct Samplers {";

pub const SAMPLER_FIELD_OPEN: &'static str = "    pub ";

pub const SAMPLER_FIELD_CLOSE: &'static str = ": vk::Sampler,\n";

pub const CLOSE_BRACE_LINE: &'static str = "}\n";

pub const SAMPLER_STATIC_OPEN: &'static str = "\nstatic SAMPLER_";

pub const SAMPLER_STATIC_TYPE: &'static str = ": vk::SamplerCreateInfo = vk::SamplerCreateInfo {\n        s_type: vk::StructureType::SAMPLER_CREATE_INFO,\n        p_next: std::ptr::null(),\n        flags: vk::SamplerCreateFlags::empty(),\n        mag_filter: vk::Filter::";

pub const SAMPLER_MIN_FILTER: &'static str = ",\n        min_filter: vk::Filter::";

pub const SAMPLER_ADDRESS_U: &'static str = ",\n        mipmap_mode: vk::SamplerMipmapMode::NEAREST,\n        address_mode_u: vk::SamplerAddressMode::";

pub const SAMPLER_ADDRESS_V: &'static str = ",\n        address_mode_v: vk::SamplerAddressMode::";

pub const SAMPLER_ADDRESS_W: &'static str = ",\n        address_mode_w: vk::SamplerAddressMode::";

pub const SAMPLER_REST: &'static str = ",\n        mip_lod_bias: 0.,\n        anisotropy_enable: 0,\n        max_anisotropy: 0.,\n        compare_enable: 0,\n        compare_op: vk::CompareOp::NEVER,\n        min_lod: 0.,\n        max_lod: 0.,\n        border_color: vk::BorderColor::FLOAT_TRANSPARENT_BLACK,\n        unnormalized_coordinates: ";

pub const SAMPLER_STATIC_CLOSE: &'static str = ",\n    };\n";

pub const CREATE_SAMPLERS_OPEN: &'static str = "\npub fn create_samplers(dev: &Dev) -> Samplers {\n";

pub const CREATE_SAMPLER_OPEN: &'static str = "    let ";

pub const CREATE_SAMPLER_MIDDLE: &'static str = " = unsafe { dev.create_sampler(&SAMPLER_";

pub const CREATE_SAMPLER_CLOSE: &'static str = ", None).unwrap_unchecked() };\n";

pub const SAMPLERS_LITERAL_OPEN: &'static str = "    Samplers {\n";

pub const SAMPLERS_LITERAL_FIELD_OPEN: &'static str = "        ";

pub const SAMPLERS_LITERAL_FIELD_CLOSE: &'static str = ",\n";

pub const SAMPLERS_CLEANUP_OPEN: &'static str = "    }\n}\n\nimpl Samplers {\n    pub fn cleanup(&self, dev: &Dev) {\n";

pub const DESTROY_SAMPLER_OPEN: &'static str = "        unsafe { dev.destroy_sampler(self.";

pub const DESTROY_SAMPLER_CLOSE: &'static str = ", None) };\n";

pub const SAMPLERS_CLEANUP_CLOSE: &'static str = "    }\n}\n";

/// The field of the `Samplers` struct for one sampler.
pub open spec fn sampler_field(s: Sampler) -> Seq<char> {
    SAMPLER_FIELD_OPEN@ + s.name@ + SAMPLER_FIELD_CLOSE@
}

/// The static `SamplerCreateInfo` of one sampler.
pub open spec fn sampler_static(s: Sampler) -> Seq<char> {
    SAMPLER_STATIC_OPEN@ + s.name@ + SAMPLER_STATIC_TYPE@ + s.filter@ + SAMPLER_MIN_FILTER@
        + s.filter@ + SAMPLER_ADDRESS_U@ + s.address_mode@ + SAMPLER_ADDRESS_V@
        + s.address_mode@ + SAMPLER_ADDRESS_W@ + s.address_mode@ + SAMPLER_REST@ + (if s.unnormalized_coordinates {
        "1"@
    } else {
        "0"@
    }) + SAMPLER_STATIC_CLOSE@
}

/// The statement creating one sampler.
pub open spec fn sampler_create(s: Sampler) -> Seq<char> {
    CREATE_SAMPLER_OPEN@ + s.name@ + CREATE_SAMPLER_MIDDLE@ + s.name@ + CREATE_SAMPLER_CLOSE@
}

/// The field of the `Samplers` literal for one sampler.
pub open spec fn sampler_literal_field(s: Sampler) -> Seq<char> {
    SAMPLERS_LITERAL_FIELD_OPEN@ + s.name@ + SAMPLERS_LITERAL_FIELD_CLOSE@
}

/// The statement destroying one sampler.
pub open spec fn sampler_destroy(s: Sampler) -> Seq<char> {
    DESTROY_SAMPLER_OPEN@ + s.name@ + DESTROY_SAMPLER_CLOSE@
}

/// The generated `samplers.rs`: the `Samplers` struct, a static create info per sampler,
/// `create_samplers` and `Samplers::cleanup`.
pub open spec fn spec_samplers_source(samplers: Seq<Sampler>) -> Seq<char> {
    SAMPLERS_OPEN@ + concat_map(samplers, |s: Sampler| sampler_field(s)) + CLOSE_BRACE_LINE@
        + concat_map(samplers, |s: Sampler| sampler_static(s)) + CREATE_SAMPLERS_OPEN@
        + concat_map(samplers, |s: Sampler| sampler_create(s)) + SAMPLERS_LITERAL_OPEN@
        + concat_map(samplers, |s: Sampler| sampler_literal_field(s)) + SAMPLERS_CLEANUP_OPEN@
        + concat_map(samplers, |s: Sampler| sampler_destroy(s)) + SAMPLERS_CLEANUP_CLOSE@
}

fn push_sampler_field(out: &mut String, s: &Sampler)
    ensures
        final(out)@ == old(out)@ + sampler_field(*s),
{
    out.append(SAMPLER_FIELD_OPEN);
    out.append(s.name.as_str());
    out.append(SAMPLER_FIELD_CLOSE);
}

fn push_sampler_static(out: &mut String, s: &Sampler)
    ensures
        final(out)@ == old(out)@ + sampler_static(*s),
{
    out.append(SAMPLER_STATIC_OPEN);
    out.append(s.name.as_str());
    out.append(SAMPLER_STATIC_TYPE);
    out.append(s.filter.as_str());
    out.append(SAMPLER_MIN_FILTER);
    out.append(s.filter.as_str());
    out.append(SAMPLER_ADDRESS_U);
    out.append(s.address_mode.as_str());
    out.append(SAMPLER_ADDRESS_V);
    out.append(s.address_mode.as_str());
    out.append(SAMPLER_ADDRESS_W);
    out.append(s.address_mode.as_str());
    out.append(SAMPLER_REST);
    if s.unnormalized_coordinates {
        out.append("1");
    } else {
        out.append("0");
    }
    out.append(SAMPLER_STATIC_CLOSE);
}

fn push_sampler_create(out: &mut String, s: &Sampler)
    ensures
        final(out)@ == old(out)@ + sampler_create(*s),
{
    out.append(CREATE_SAMPLER_OPEN);
    out.append(s.name.as_str());
    out.append(CREATE_SAMPLER_MIDDLE);
    out.append(s.name.as_str());
    out.append(CREATE_SAMPLER_CLOSE);
}

fn push_sampler_literal_field(out: &mut String, s: &Sampler)
    ensures
        final(out)@ == old(out)@ + sampler_literal_field(*s),
{
    out.append(SAMPLERS_LITERAL_FIELD_OPEN);
    out.append(s.name.as_str());
    out.append(SAMPLERS_LITERAL_FIELD_CLOSE);
}

fn push_sampler_destroy(out: &mut String, s: &Sampler)
    ensures
        final(out)@ == old(out)@ + sampler_destroy(*s),
{
    out.append(DESTROY_SAMPLER_OPEN);
    out.append(s.name.as_str());
    out.append(DESTROY_SAMPLER_CLOSE);
}

/// Which per-sampler section of `samplers.rs` to write.
pub open spec fn sampler_section(section: u8, s: Sampler) -> Seq<char> {
    if section == 0 {
        sampler_field(s)
    } else if section == 1 {
        sampler_static(s)
    } else if section == 2 {
        sampler_create(s)
    } else if section == 3 {
        sampler_literal_field(s)
    } else {
        sampler_destroy(s)
    }
}

fn push_sampler_sections(out: &mut String, samplers: &Vec<Sampler>, section: u8)
    ensures
        final(out)@ == old(out)@ + concat_map(samplers@, |s: Sampler| sampler_section(section, s)),
{
    let ghost start = out@;
    let mut i: usize = 0;
    while i < samplers.len()
        invariant
            i <= samplers@.len(),
            out@ == start + concat_map(samplers@.take(i as int), |s: Sampler| sampler_section(section, s)),
        decreases samplers@.len() - i,
    {
        let s = &samplers[i];
        proof {
            lemma_concat_map_step(samplers@, |s: Sampler| sampler_section(section, s), i as int);
        }
        let ghost before = out@;
        if section == 0 {
            push_sampler_field(out, s);
        } else if section == 1 {
            push_sampler_static(out, s);
        } else if section == 2 {
            push_sampler_create(out, s);
        } else if section == 3 {
            push_sampler_literal_field(out, s);
        } else {
            push_sampler_destroy(out, s);
        }
        assert(out@ == before + sampler_section(section, samplers@[i as int]));
        i = i + 1;
    }
    proof {
        lemma_take_all(samplers@);
    }
}

proof fn lemma_sections_are_maps(samplers: Seq<Sampler>)
    ensures
        concat_map(samplers, |s: Sampler| sampler_section(0, s)) == concat_map(
            samplers,
            |s: Sampler| sampler_field(s),
        ),
        concat_map(samplers, |s: Sampler| sampler_section(1, s)) == concat_map(
            samplers,
            |s: Sampler| sampler_static(s),
        ),
        concat_map(samplers, |s: Sampler| sampler_section(2, s)) == concat_map(
            samplers,
            |s: Sampler| sampler_create(s),
        ),
        concat_map(samplers, |s: Sampler| sampler_section(3, s)) == concat_map(
            samplers,
            |s: Sampler| sampler_literal_field(s),
        ),
        concat_map(samplers, |s: Sampler| sampler_section(4, s)) == concat_map(
            samplers,
            |s: Sampler| sampler_destroy(s),
        ),
{
    assert((|s: Sampler| sampler_section(0, s)) =~= (|s: Sampler| sampler_field(s)));
    assert((|s: Sampler| sampler_section(1, s)) =~= (|s: Sampler| sampler_static(s)));
    assert((|s: Sampler| sampler_section(2, s)) =~= (|s: Sampler| sampler_create(s)));
    assert((|s: Sampler| sampler_section(3, s)) =~= (|s: Sampler| sampler_literal_field(s)));
    assert((|s: Sampler| sampler_section(4, s)) =~= (|s: Sampler| sampler_destroy(s)));
}

/// The text of the generated `samplers.rs`.
pub fn generate_samplers(renderer: &Renderer) -> (res: String)
    ensures
        res@ == spec_samplers_source(renderer.samplers@),
{
    let samplers = &renderer.samplers;
    let mut out = String::from_str(SAMPLERS_OPEN);
    push_sampler_sections(&mut out, samplers, 0);
    out.append(CLOSE_BRACE_LINE);
    push_sampler_sections(&mut out, samplers, 1);
    out.append(CREATE_SAMPLERS_OPEN);
    push_sampler_sections(&mut out, samplers, 2);
    out.append(SAMPLERS_LITERAL_OPEN);
    push_sampler_sections(&mut out, samplers, 3);
    out.append(SAMPLERS_CLEANUP_OPEN);
    push_sampler_sections(&mut out, samplers, 4);
    out.append(SAMPLERS_CLEANUP_CLOSE);
    proof {
        lemma_sections_are_maps(samplers@);
    }
    out
}


pub const GPU_STRUCT_ALIGN: &'static str = "#[repr(C, align(";

pub const GPU_STRUCT_HEAD: &'static str = "))]\n#[derive(Clone, Copy, Debug)]\npub struct ";

pub const GPU_STRUCT_OPEN: &'static str = " {\n";

pub const GPU_MEMBER_OPEN: &'static str = "    pub ";

pub const GPU_MEMBER_TYPE: &'static str = ": ";

pub const GPU_MEMBER_CLOSE: &'static str = ",\n";

pub const GPU_STRUCT_CLOSE: &'static str = "}\n\n";

/// The field declaration of one struct member.
pub open spec fn gpu_member(m: (Seq<char>, SpecType)) -> Seq<char> {
    GPU_MEMBER_OPEN@ + m.0 + GPU_MEMBER_TYPE@ + spec_type_rust(m.1) + GPU_MEMBER_CLOSE@
}

/// The Rust definition of one GPU struct, aligned as the GPU lays it out.
pub open spec fn gpu_struct(s: (Seq<char>, SpecStruct)) -> Seq<char> {
    GPU_STRUCT_ALIGN@ + decimal(s.1.alignment) + GPU_STRUCT_HEAD@ + s.0 + GPU_STRUCT_OPEN@
        + concat_map(s.1.members, |m: (Seq<char>, SpecType)| gpu_member(m)) + GPU_STRUCT_CLOSE@
}

/// The generated `gpu.rs`: one definition per collected struct.
pub open spec fn spec_gpu_source(structs: Seq<(Seq<char>, SpecStruct)>) -> Seq<char> {
    concat_map(structs, |s: (Seq<char>, SpecStruct)| gpu_struct(s))
}

fn push_gpu_struct(out: &mut String, name: &String, s: &Struct)
    ensures
        final(out)@ == old(out)@ + gpu_struct((name@, s@)),
{
    out.append(GPU_STRUCT_ALIGN);
    push_decimal(out, s.alignment as u64);
    out.append(GPU_STRUCT_HEAD);
    out.append(name.as_str());
    out.append(GPU_STRUCT_OPEN);
    let ghost mv = members_view(s.members@);
    let ghost start = out@;
    let mut i: usize = 0;
    while i < s.members.len()
        invariant
            mv == members_view(s.members@),
            i <= s.members@.len(),
            out@ == start + concat_map(mv.take(i as int), |m: (Seq<char>, SpecType)| gpu_member(m)),
        decreases s.members@.len() - i,
    {
        let member = &s.members[i];
        proof {
            lemma_concat_map_step(mv, |m: (Seq<char>, SpecType)| gpu_member(m), i as int);
        }
        out.append(GPU_MEMBER_OPEN);
        out.append(member.0.as_str());
        out.append(GPU_MEMBER_TYPE);
        let typ = member.1.to_rust();
        out.append(typ.as_str());
        out.append(GPU_MEMBER_CLOSE);
        i = i + 1;
    }
    proof {
        lemma_take_all(mv);
    }
    out.append(GPU_STRUCT_CLOSE);
}

/// The text of the generated `gpu.rs`, defining each struct of `type_info` in order.
pub fn gpu_source(type_info: &TypeInfo) -> (res: String)
    ensures
        res@ == spec_gpu_source(type_info@),
{
    let ghost sv = type_info@;
    let mut out = String::new();
    let mut i: usize = 0;
    while i < type_info.structs.len()
        invariant
            sv == structs_view(type_info.structs@),
            i <= type_info.structs@.len(),
            out@ == concat_map(sv.take(i as int), |s: (Seq<char>, SpecStruct)| gpu_struct(s)),
        decreases type_info.structs@.len() - i,
    {
        let entry = &type_info.structs[i];
        proof {
            lemma_concat_map_step(sv, |s: (Seq<char>, SpecStruct)| gpu_struct(s), i as int);
        }
        push_gpu_struct(&mut out, &entry.0, &entry.1);
        i = i + 1;
    }
    proof {
        lemma_take_all(sv);
    }
    out
}

/// The text of the generated `gpu.rs` for the descriptor sets of the reflected shader: the
/// structs reachable from its bindings, collected as [`collect_all_types`] does, each defined in
/// order. `None` where collecting the types stops.
pub fn generate_gpu(sets: &Vec<ReflectedSet>) -> (res: Option<String>)
    ensures
        match res {
            Some(text) => spec_collect_sets(sets@) matches Some(structs) && text@ == spec_gpu_source(
                structs,
            ),
            None => spec_collect_sets(sets@) is None,
        },
{
    match collect_all_types(sets) {
        Some(type_info) => Some(gpu_source(&type_info)),
        None => None,
    }
}

} // verus!
