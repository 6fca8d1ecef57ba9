use vstd::prelude::*;
use crate::config::{Attachment, Dependency, Pass, Subpass};
use crate::text::{decimal, push_decimal, str_eq};

verus! {

pub const INDENT: &'static str = "    ";

pub const UNDERSCORE: &'static str = "_";

pub const LIST_END: &'static str = "    ],\n";

pub const COLOR_OPEN: &'static str = "_color: [\n";

pub const INPUT_OPEN: &'static str = "_input: [\n";

pub const REF_OPEN: &'static str = "        vk::AttachmentReference {\n            attachment: ";

pub const REF_LAYOUT: &'static str = ",\n            layout: vk::ImageLayout::";

pub const REF_CLOSE: &'static str = ",\n        },\n";

pub const INPUT_CLOSE: &'static str = ",\n            layout: vk::ImageLayout::SHADER_READ_ONLY_OPTIMAL,\n        },\n";

pub const DEPTH_OPEN: &'static str = "_depth: vk::AttachmentReference {\n        attachment: ";

pub const DEPTH_LAYOUT: &'static str = ",\n        layout: vk::ImageLayout::";

pub const DEPTH_CLOSE: &'static str = ",\n    },\n";

pub const ATTACHMENTS_OPEN: &'static str = "_attachments: [\n";

pub const AD_FORMAT: &'static str = "        vk::AttachmentDescription {\n            flags: vk::AttachmentDescriptionFlags::empty(),\n            format: ";

pub const AD_SAMPLES: &'static str = ",\n            samples: vk::SampleCountFlags::";

pub const AD_LOAD: &'static str = ",\n            load_op: vk::AttachmentLoadOp::";

pub const AD_STORE: &'static str = ",\n            store_op: vk::AttachmentStoreOp::";

pub const AD_FINAL: &'static str = ",\n            stencil_load_op: vk::AttachmentLoadOp::DONT_CARE,\n            stencil_store_op: vk::AttachmentStoreOp::DONT_CARE,\n            initial_layout: vk::ImageLayout::UNDEFINED,\n            final_layout: vk::ImageLayout::";

pub const ENTRY_CLOSE: &'static str = ",\n        },\n";

pub const FORMAT_PREFIX: &'static str = "vk::Format::";

pub const FORMAT_UNDEFINED: &'static str = "vk::Format::UNDEFINED";

pub const FORMAT_COLOR: &'static str = "COLOR_FORMAT";

pub const FORMAT_DEPTH: &'static str = "DEPTH_FORMAT";

pub const SAMPLES_MSAA: &'static str = "empty()";

pub const SAMPLES_ONE: &'static str = "TYPE_1";

pub const OP_CLEAR: &'static str = "CLEAR";

pub const OP_STORE: &'static str = "STORE";

pub const OP_DONT_CARE: &'static str = "DONT_CARE";

pub const SUBPASSES_OPEN: &'static str = "_subpasses: [\n";

pub const SD_INPUT_COUNT: &'static str = "        vk::SubpassDescription {\n            flags: vk::SubpassDescriptionFlags::empty(),\n            pipeline_bind_point: vk::PipelineBindPoint::GRAPHICS,\n            input_attachment_count: ";

pub const SD_INPUT_PTR: &'static str = ",\n            p_input_attachments: ";

pub const SD_COLOR_COUNT: &'static str = ",\n            color_attachment_count: ";

pub const SD_COLOR_PTR: &'static str = ",\n            p_color_attachments: ";

pub const SD_DEPTH_PTR: &'static str = ",\n            p_resolve_attachments: std::ptr::null(),\n            p_depth_stencil_attachment: ";

pub const SD_CLOSE: &'static str = ",\n            preserve_attachment_count: 0,\n            p_preserve_attachments: std::ptr::null(),\n        },\n";

pub const NULL_PTR: &'static str = "std::ptr::null()";

pub const SCRATCH_ARRAY: &'static str = "unsafe { SCRATCH.";

pub const SCRATCH_REF: &'static str = "unsafe { &SCRATCH.";

pub const COLOR_PTR_END: &'static str = "_color.as_ptr() }";

pub const INPUT_PTR_END: &'static str = "_input.as_ptr() }";

pub const DEPTH_PTR_END: &'static str = "_depth }";

pub const DEPENDENCIES_OPEN: &'static str = "_dependencies: [\n";

pub const DEP_SRC: &'static str = "        vk::SubpassDependency {\n            src_subpass: ";

pub const DEP_DST: &'static str = ",\n            dst_subpass: ";

pub const DEP_SRC_STAGE: &'static str = ",\n            src_stage_mask: vk::PipelineStageFlags::";

pub const DEP_DST_STAGE: &'static str = ",\n            dst_stage_mask: vk::PipelineStageFlags::";

pub const DEP_SRC_ACCESS: &'static str = ",\n            src_access_mask: vk::AccessFlags::";

pub const DEP_DST_ACCESS: &'static str = ",\n            dst_access_mask: vk::AccessFlags::";

pub const DEP_FLAGS: &'static str = ",\n            dependency_flags: ";

pub const FLAGS_BY_REGION: &'static str = "vk::DependencyFlags::BY_REGION";

pub const FLAGS_EMPTY: &'static str = "vk::DependencyFlags::empty()";

pub const PASS_INFO: &'static str = "_pass: vk::RenderPassCreateInfo {\n        s_type: vk::StructureType::RENDER_PASS_CREATE_INFO,\n        p_next: std::ptr::null(),\n        flags: vk::RenderPassCreateFlags::empty(),\n        attachment_count: ";

pub const PASS_ATTACHMENTS: &'static str = ",\n        p_attachments: unsafe { SCRATCH.";

pub const PASS_SUBPASS_COUNT: &'static str = "_attachments.as_ptr() },\n        subpass_count: ";

pub const PASS_SUBPASSES: &'static str = ",\n        p_subpasses: unsafe { SCRATCH.";

pub const PASS_DEPENDENCY_COUNT: &'static str = "_subpasses.as_ptr() },\n        dependency_count: ";

pub const PASS_DEPENDENCIES: &'static str = ",\n        p_dependencies: unsafe { SCRATCH.";

pub const PASS_CLOSE: &'static str = "_dependencies.as_ptr() },\n    },\n";

/// Number of attachments of a subpass: its color attachments and its depth attachment.
pub open spec fn sub_attachments(s: Subpass) -> nat {
    s.color_attachments@.len() + if s.depth_attachment is Some {
        1nat
    } else {
        0nat
    }
}

/// Index of the first attachment of subpass `n`: the attachments of the subpasses before it.
pub open spec fn attachments_before(subs: Seq<Subpass>, n: int) -> nat
    decreases n,
{
    if n <= 0 || n > subs.len() {
        0
    } else {
        attachments_before(subs, n - 1) + sub_attachments(subs[n - 1])
    }
}

/// Position of the last of the first `k` color attachments named `name`.
pub open spec fn last_color(colors: Seq<Attachment>, name: Seq<char>, k: int) -> Option<int>
    decreases k,
{
    if k <= 0 || k > colors.len() {
        None
    } else if colors[k - 1].name@ == name {
        Some(k - 1)
    } else {
        last_color(colors, name, k - 1)
    }
}

/// Attachment index of the last color attachment named `name` among the first `n` subpasses:
/// the index an input attachment of subpass `n - 1` refers to. `None` when there is none.
pub open spec fn input_index(subs: Seq<Subpass>, n: int, name: Seq<char>) -> Option<nat>
    decreases n,
{
    if n <= 0 || n > subs.len() {
        None
    } else {
        match last_color(
            subs[n - 1].color_attachments@,
            name,
            subs[n - 1].color_attachments@.len() as int,
        ) {
            Some(j) => Some((attachments_before(subs, n - 1) + j) as nat),
            None => input_index(subs, n - 1, name),
        }
    }
}

/// Position of the first of the first `n` subpasses named `name`.
pub open spec fn first_subpass(subs: Seq<Subpass>, name: Seq<char>, n: int) -> Option<int>
    decreases n,
{
    if n <= 0 || n > subs.len() {
        None
    } else {
        match first_subpass(subs, name, n - 1) {
            Some(i) => Some(i),
            None => if subs[n - 1].name@ == name {
                Some(n - 1)
            } else {
                None
            },
        }
    }
}

/// Whether every input attachment names a color attachment of its subpass or of an earlier one,
/// and every dependency names subpasses of the pass.
pub open spec fn pass_names_known(p: Pass) -> bool {
    let subs = p.subpasses@;
    &&& forall|i: int, k: int|
        0 <= i < subs.len() && 0 <= k < subs[i].input_attachment@.len() ==> #[trigger] input_index(
            subs,
            i + 1,
            subs[i].input_attachment@[k]@,
        ) is Some
    &&& forall|d: int|
        0 <= d < p.dependencies@.len() ==> #[trigger] first_subpass(
            subs,
            p.dependencies@[d].src.subpass@,
            subs.len() as int,
        ) is Some && first_subpass(subs, p.dependencies@[d].dst.subpass@, subs.len() as int) is Some
}

/// Prefix of the generated names of a subpass's arrays: pass name, underscore, subpass name.
pub open spec fn sub_prefix(pass: Seq<char>, s: Subpass) -> Seq<char> {
    pass + UNDERSCORE@ + s.name@
}

/// References to the first `k` color attachments of a subpass whose first attachment is `base`.
pub open spec fn color_refs(colors: Seq<Attachment>, base: nat, k: int) -> Seq<char>
    decreases k,
{
    if k <= 0 || k > colors.len() {
        seq![]
    } else {
        color_refs(colors, base, k - 1) + REF_OPEN@ + decimal((base + k - 1) as nat) + REF_LAYOUT@
            + colors[k - 1].layout@ + REF_CLOSE@
    }
}

/// References to the first `k` input attachments of subpass `i`.
pub open spec fn input_refs(subs: Seq<Subpass>, i: int, inputs: Seq<String>, k: int) -> Seq<char>
    decreases k,
{
    if k <= 0 || k > inputs.len() {
        seq![]
    } else {
        input_refs(subs, i, inputs, k - 1) + REF_OPEN@ + decimal(
            input_index(subs, i + 1, inputs[k - 1]@).unwrap(),
        ) + INPUT_CLOSE@
    }
}

/// The reference to the depth attachment of a subpass whose first attachment is `base`, if it
/// has one: it follows the color attachments.
pub open spec fn depth_ref(pass: Seq<char>, s: Subpass, base: nat) -> Seq<char> {
    match s.depth_attachment {
        Some(d) => INDENT@ + sub_prefix(pass, s) + DEPTH_OPEN@ + decimal(
            base + s.color_attachments@.len(),
        ) + DEPTH_LAYOUT@ + d.layout@ + DEPTH_CLOSE@,
        None => seq![],
    }
}

/// The attachment references of subpass `i`: its color array, depth reference and input array,
/// each only when the subpass has such attachments.
pub open spec fn subpass_refs(pass: Seq<char>, subs: Seq<Subpass>, i: int) -> Seq<char> {
    color_part(pass, subs[i], attachments_before(subs, i)) + depth_ref(
        pass,
        subs[i],
        attachments_before(subs, i),
    ) + input_part(pass, subs, i)
}

/// The color reference array of a subpass whose first attachment is `base`, if it has color
/// attachments.
pub open spec fn color_part(pass: Seq<char>, s: Subpass, base: nat) -> Seq<char> {
    let colors = s.color_attachments@;
    if colors.len() == 0 {
        seq![]
    } else {
        INDENT@ + sub_prefix(pass, s) + COLOR_OPEN@ + color_refs(colors, base, colors.len() as int)
            + LIST_END@
    }
}

/// The input reference array of subpass `i`, if it has input attachments.
pub open spec fn input_part(pass: Seq<char>, subs: Seq<Subpass>, i: int) -> Seq<char> {
    let inputs = subs[i].input_attachment@;
    if inputs.len() == 0 {
        seq![]
    } else {
        INDENT@ + sub_prefix(pass, subs[i]) + INPUT_OPEN@ + input_refs(
            subs,
            i,
            inputs,
            inputs.len() as int,
        ) + LIST_END@
    }
}

/// The attachment references of the first `n` subpasses.
pub open spec fn all_refs(pass: Seq<char>, subs: Seq<Subpass>, n: int) -> Seq<char>
    decreases n,
{
    if n <= 0 || n > subs.len() {
        seq![]
    } else {
        all_refs(pass, subs, n - 1) + subpass_refs(pass, subs, n - 1)
    }
}

/// The format an attachment description names.
pub open spec fn format_text(a: Attachment, color: bool) -> Seq<char> {
    match a.format {
        Some(f) => FORMAT_PREFIX@ + f@,
        None => if a.swapchain {
            FORMAT_UNDEFINED@
        } else if color {
            FORMAT_COLOR@
        } else {
            FORMAT_DEPTH@
        },
    }
}

/// The description of one attachment of a subpass.
pub open spec fn attachment_entry(a: Attachment, color: bool, msaa: bool) -> Seq<char> {
    AD_FORMAT@ + format_text(a, color) + AD_SAMPLES@ + (if msaa {
        SAMPLES_MSAA@
    } else {
        SAMPLES_ONE@
    }) + AD_LOAD@ + (if a.clear {
        OP_CLEAR@
    } else {
        OP_DONT_CARE@
    }) + AD_STORE@ + (if a.store {
        OP_STORE@
    } else {
        OP_DONT_CARE@
    }) + AD_FINAL@ + (match a.layout_final {
        Some(l) => l@,
        None => a.layout@,
    }) + ENTRY_CLOSE@
}

/// The descriptions of the first `k` color attachments of a subpass.
pub open spec fn color_entries(colors: Seq<Attachment>, msaa: bool, k: int) -> Seq<char>
    decreases k,
{
    if k <= 0 || k > colors.len() {
        seq![]
    } else {
        color_entries(colors, msaa, k - 1) + attachment_entry(colors[k - 1], true, msaa)
    }
}

/// The descriptions of a subpass's attachments: the color attachments, then the depth one.
pub open spec fn subpass_attachment_entries(s: Subpass) -> Seq<char> {
    color_entries(s.color_attachments@, s.msaa, s.color_attachments@.len() as int) + match s.depth_attachment {
        Some(d) => attachment_entry(d, false, s.msaa),
        None => seq![],
    }
}

/// The attachment descriptions of the first `n` subpasses.
pub open spec fn all_attachment_entries(subs: Seq<Subpass>, n: int) -> Seq<char>
    decreases n,
{
    if n <= 0 || n > subs.len() {
        seq![]
    } else {
        all_attachment_entries(subs, n - 1) + subpass_attachment_entries(subs[n - 1])
    }
}

/// Pointer expression to one of a subpass's attachment arrays, or null when it is empty.
pub open spec fn array_ptr(prefix: Seq<char>, present: bool, end: Seq<char>) -> Seq<char> {
    if present {
        SCRATCH_ARRAY@ + prefix + end
    } else {
        NULL_PTR@
    }
}

/// The description of a subpass.
pub open spec fn subpass_entry(pass: Seq<char>, s: Subpass) -> Seq<char> {
    let prefix = sub_prefix(pass, s);
    let inputs = s.input_attachment@.len();
    let colors = s.color_attachments@.len();
    SD_INPUT_COUNT@ + decimal(inputs) + SD_INPUT_PTR@ + array_ptr(prefix, inputs != 0, INPUT_PTR_END@)
        + SD_COLOR_COUNT@ + decimal(colors) + SD_COLOR_PTR@ + array_ptr(
        prefix,
        colors != 0,
        COLOR_PTR_END@,
    ) + SD_DEPTH_PTR@ + (if s.depth_attachment is Some {
        SCRATCH_REF@ + prefix + DEPTH_PTR_END@
    } else {
        NULL_PTR@
    }) + SD_CLOSE@
}

/// The descriptions of the first `n` subpasses.
pub open spec fn subpass_entries(pass: Seq<char>, subs: Seq<Subpass>, n: int) -> Seq<char>
    decreases n,
{
    if n <= 0 || n > subs.len() {
        seq![]
    } else {
        subpass_entries(pass, subs, n - 1) + subpass_entry(pass, subs[n - 1])
    }
}

/// The description of a dependency, with the indices of its subpasses.
pub open spec fn dependency_entry(src: nat, dst: nat, d: Dependency) -> Seq<char> {
    DEP_SRC@ + decimal(src) + DEP_DST@ + decimal(dst) + DEP_SRC_STAGE@ + d.src.stage_mask@
        + DEP_DST_STAGE@ + d.dst.stage_mask@ + DEP_SRC_ACCESS@ + d.src.access_mask@
        + DEP_DST_ACCESS@ + d.dst.access_mask@ + DEP_FLAGS@ + (if d.by_region {
        FLAGS_BY_REGION@
    } else {
        FLAGS_EMPTY@
    }) + ENTRY_CLOSE@
}

/// The descriptions of the first `n` dependencies of the pass.
pub open spec fn dependency_entries(p: Pass, n: int) -> Seq<char>
    decreases n,
{
    let subs = p.subpasses@;
    let deps = p.dependencies@;
    if n <= 0 || n > deps.len() {
        seq![]
    } else {
        dependency_entries(p, n - 1) + dependency_entry(
            first_subpass(subs, deps[n - 1].src.subpass@, subs.len() as int).unwrap() as nat,
            first_subpass(subs, deps[n - 1].dst.subpass@, subs.len() as int).unwrap() as nat,
            deps[n - 1],
        )
    }
}

/// The render pass create info of the pass.
pub open spec fn pass_info(p: Pass) -> Seq<char> {
    let name = p.name@;
    INDENT@ + name + PASS_INFO@ + decimal(attachments_before(p.subpasses@, p.subpasses@.len() as int))
        + PASS_ATTACHMENTS@ + name + PASS_SUBPASS_COUNT@ + decimal(p.subpasses@.len())
        + PASS_SUBPASSES@ + name + PASS_DEPENDENCY_COUNT@ + decimal(p.dependencies@.len())
        + PASS_DEPENDENCIES@ + name + PASS_CLOSE@
}

/// The scratch data of a render pass: the attachment references of each subpass (indices run
/// on across subpasses, color attachments first, then the depth attachment; an input attachment
/// refers to the last color attachment of its name in its subpass or an earlier one), the
/// attachment descriptions, the subpass descriptions, the dependencies between subpasses, and
/// the create info. `None` when an input attachment or a dependency names nothing in the pass.
pub open spec fn spec_render_pass(p: Pass) -> Option<Seq<char>> {
    let name = p.name@;
    let subs = p.subpasses@;
    let n = subs.len() as int;
    if pass_names_known(p) {
        Some(
            all_refs(name, subs, n) + INDENT@ + name + ATTACHMENTS_OPEN@ + all_attachment_entries(
                subs,
                n,
            ) + LIST_END@ + INDENT@ + name + SUBPASSES_OPEN@ + subpass_entries(name, subs, n)
                + LIST_END@ + INDENT@ + name + DEPENDENCIES_OPEN@ + dependency_entries(
                p,
                p.dependencies@.len() as int,
            ) + LIST_END@ + pass_info(p),
        )
    } else {
        None
    }
}

proof fn lemma_attachments_monotone(subs: Seq<Subpass>, i: int, k: int)
    requires
        0 <= i <= k <= subs.len(),
    ensures
        attachments_before(subs, i) <= attachments_before(subs, k),
    decreases k - i,
{
    if i < k {
        lemma_attachments_monotone(subs, i, k - 1);
    }
}

proof fn lemma_last_color_bound(colors: Seq<Attachment>, name: Seq<char>, k: int)
    requires
        0 <= k <= colors.len(),
    ensures
        last_color(colors, name, k) matches Some(j) ==> 0 <= j < k,
    decreases k,
{
    if k > 0 {
        lemma_last_color_bound(colors, name, k - 1);
    }
}

proof fn lemma_input_index_bound(subs: Seq<Subpass>, n: int, name: Seq<char>)
    requires
        0 <= n <= subs.len(),
    ensures
        input_index(subs, n, name) matches Some(x) ==> x < attachments_before(subs, n),
    decreases n,
{
    if n > 0 {
        lemma_input_index_bound(subs, n - 1, name);
        let colors = subs[n - 1].color_attachments@;
        lemma_last_color_bound(colors, name, colors.len() as int);
        lemma_attachments_monotone(subs, n - 1, n);
    }
}

proof fn lemma_first_subpass_none(subs: Seq<Subpass>, name: Seq<char>, n: int)
    requires
        0 <= n <= subs.len(),
        forall|j: int| 0 <= j < n ==> #[trigger] subs[j].name@ != name,
    ensures
        first_subpass(subs, name, n) is None,
    decreases n,
{
    if n > 0 {
        lemma_first_subpass_none(subs, name, n - 1);
    }
}

proof fn lemma_first_subpass_at(subs: Seq<Subpass>, name: Seq<char>, n: int, r: int)
    requires
        0 <= r < n <= subs.len(),
        subs[r].name@ == name,
        forall|j: int| 0 <= j < r ==> #[trigger] subs[j].name@ != name,
    ensures
        first_subpass(subs, name, n) == Some(r),
    decreases n,
{
    if n - 1 > r {
        lemma_first_subpass_at(subs, name, n - 1, r);
    } else {
        lemma_first_subpass_none(subs, name, r);
    }
}

proof fn lemma_first_subpass_found(subs: Seq<Subpass>, name: Seq<char>, n: int)
    requires
        0 <= n <= subs.len(),
    ensures
        first_subpass(subs, name, n) matches Some(r) ==> 0 <= r < n && subs[r].name@ == name,
        first_subpass(subs, name, n) is None ==> forall|j: int| 0 <= j < n ==> #[trigger] subs[j].name@ != name,
    decreases n,
{
    if n > 0 {
        lemma_first_subpass_found(subs, name, n - 1);
    }
}

/// Position of the last color attachment named `name`.
fn find_last_color(colors: &Vec<Attachment>, name: &str) -> (res: Option<usize>)
    ensures
        match res {
            Some(j) => last_color(colors@, name@, colors@.len() as int) == Some(j as int),
            None => last_color(colors@, name@, colors@.len() as int) is None,
        },
{
    let mut res: Option<usize> = None;
    let mut j: usize = 0;
    while j < colors.len()
        invariant
            j <= colors@.len(),
            match res {
                Some(x) => last_color(colors@, name@, j as int) == Some(x as int),
                None => last_color(colors@, name@, j as int) is None,
            },
        decreases colors@.len() - j,
    {
        if str_eq(colors[j].name.as_str(), name) {
            res = Some(j);
        }
        j = j + 1;
    }
    res
}

/// Attachment index that an input attachment of subpass `i` named `name` refers to.
fn find_input_index(subs: &Vec<Subpass>, i: usize, name: &str) -> (res: Option<usize>)
    requires
        i < subs@.len(),
        attachments_before(subs@, subs@.len() as int) <= usize::MAX,
    ensures
        match res {
            Some(x) => input_index(subs@, i + 1, name@) == Some(x as nat),
            None => input_index(subs@, i + 1, name@) is None,
        },
{
    let mut res: Option<usize> = None;
    let mut base: usize = 0;
    let mut m: usize = 0;
    let n = subs.len();
    while m <= i
        invariant
            n == subs@.len(),
            i < subs@.len(),
            attachments_before(subs@, subs@.len() as int) <= usize::MAX,
            m <= i + 1,
            base == attachments_before(subs@, m as int),
            match res {
                Some(x) => input_index(subs@, m as int, name@) == Some(x as nat),
                None => input_index(subs@, m as int, name@) is None,
            },
        decreases i + 1 - m,
    {
        proof {
            lemma_attachments_monotone(subs@, (m + 1) as int, subs@.len() as int);
            let colors = subs@[m as int].color_attachments@;
            lemma_last_color_bound(colors, name@, colors.len() as int);
        }
        let s = &subs[m];
        match find_last_color(&s.color_attachments, name) {
            Some(j) => {
                res = Some(base + j);
            },
            None => {},
        }
        let count = s.attachment_count();
        base = base + count;
        m = m + 1;
    }
    res
}

/// Index of the subpass named `name`, when there is one.
fn find_subpass(p: &Pass, name: &str) -> (res: Option<usize>)
    ensures
        match res {
            Some(r) => first_subpass(p.subpasses@, name@, p.subpasses@.len() as int) == Some(
                r as int,
            ),
            None => first_subpass(p.subpasses@, name@, p.subpasses@.len() as int) is None,
        },
{
    let mut i: usize = 0;
    while i < p.subpasses.len()
        invariant
            i <= p.subpasses@.len(),
            forall|j: int| 0 <= j < i ==> #[trigger] p.subpasses@[j].name@ != name@,
        decreases p.subpasses@.len() - i,
    {
        if str_eq(p.subpasses[i].name.as_str(), name) {
            let r = p.subpass_index(name);
            proof {
                lemma_first_subpass_at(p.subpasses@, name@, p.subpasses@.len() as int, r as int);
            }
            return Some(r);
        }
        i = i + 1;
    }
    proof {
        lemma_first_subpass_none(p.subpasses@, name@, p.subpasses@.len() as int);
    }
    None
}

/// Whether the input attachments and dependencies of the pass all name something in it.
fn check_names(p: &Pass) -> (res: bool)
    requires
        attachments_before(p.subpasses@, p.subpasses@.len() as int) <= usize::MAX,
    ensures
        res == pass_names_known(*p),
{
    let subs = &p.subpasses;
    let mut i: usize = 0;
    while i < subs.len()
        invariant
            *subs == p.subpasses,
            attachments_before(subs@, subs@.len() as int) <= usize::MAX,
            i <= subs@.len(),
            forall|i2: int, k: int|
                0 <= i2 < i && 0 <= k < subs@[i2].input_attachment@.len() ==> #[trigger] input_index(
                    subs@,
                    i2 + 1,
                    subs@[i2].input_attachment@[k]@,
                ) is Some,
        decreases subs@.len() - i,
    {
        let inputs = &subs[i].input_attachment;
        let mut k: usize = 0;
        while k < inputs.len()
            invariant
                *subs == p.subpasses,
                attachments_before(subs@, subs@.len() as int) <= usize::MAX,
                i < subs@.len(),
                *inputs == subs@[i as int].input_attachment,
                k <= inputs@.len(),
                forall|i2: int, k2: int|
                    0 <= i2 < i && 0 <= k2 < subs@[i2].input_attachment@.len() ==> #[trigger] input_index(
                        subs@,
                        i2 + 1,
                        subs@[i2].input_attachment@[k2]@,
                    ) is Some,
                forall|k2: int|
                    0 <= k2 < k ==> #[trigger] input_index(subs@, i + 1, inputs@[k2]@) is Some,
            decreases inputs@.len() - k,
        {
            if find_input_index(subs, i, inputs[k].as_str()).is_none() {
                assert(input_index(
                    subs@,
                    i + 1,
                    subs@[i as int].input_attachment@[k as int]@,
                ) is None);
                return false;
            }
            k = k + 1;
        }
        i = i + 1;
    }
    let deps = &p.dependencies;
    let mut d: usize = 0;
    while d < deps.len()
        invariant
            *deps == p.dependencies,
            d <= deps@.len(),
            forall|d2: int|
                0 <= d2 < d ==> #[trigger] first_subpass(
                    p.subpasses@,
                    deps@[d2].src.subpass@,
                    p.subpasses@.len() as int,
                ) is Some && first_subpass(
                    p.subpasses@,
                    deps@[d2].dst.subpass@,
                    p.subpasses@.len() as int,
                ) is Some,
        decreases deps@.len() - d,
    {
        if find_subpass(p, deps[d].src.subpass.as_str()).is_none() || find_subpass(
            p,
            deps[d].dst.subpass.as_str(),
        ).is_none() {
            assert(!(first_subpass(
                p.subpasses@,
                deps@[d as int].src.subpass@,
                p.subpasses@.len() as int,
            ) is Some && first_subpass(
                p.subpasses@,
                deps@[d as int].dst.subpass@,
                p.subpasses@.len() as int,
            ) is Some));
            return false;
        }
        d = d + 1;
    }
    true
}

/// Appends `pass`, an underscore and the subpass's name.
fn push_prefix(t: &mut String, pass: &str, s: &Subpass)
    ensures
        final(t)@ == old(t)@ + sub_prefix(pass@, *s),
{
    t.append(pass);
    t.append(UNDERSCORE);
    t.append(s.name.as_str());
}

/// Appends the references to the color attachments of a subpass.
fn push_color_refs(t: &mut String, colors: &Vec<Attachment>, base: usize)
    requires
        base + colors@.len() <= usize::MAX,
    ensures
        final(t)@ == old(t)@ + color_refs(colors@, base as nat, colors@.len() as int),
{
    let ghost start = t@;
    let mut k: usize = 0;
    while k < colors.len()
        invariant
            base + colors@.len() <= usize::MAX,
            k <= colors@.len(),
            t@ == start + color_refs(colors@, base as nat, k as int),
        decreases colors@.len() - k,
    {
        t.append(REF_OPEN);
        push_decimal(t, (base + k) as u64);
        t.append(REF_LAYOUT);
        t.append(colors[k].layout.as_str());
        t.append(REF_CLOSE);
        assert(t@ =~= start + color_refs(colors@, base as nat, (k + 1) as int));
        k = k + 1;
    }
}

/// Appends the references to the input attachments of subpass `i`.
fn push_input_refs(t: &mut String, subs: &Vec<Subpass>, i: usize)
    requires
        i < subs@.len(),
        attachments_before(subs@, subs@.len() as int) <= usize::MAX,
        forall|k: int|
            0 <= k < subs@[i as int].input_attachment@.len() ==> #[trigger] input_index(
                subs@,
                i + 1,
                subs@[i as int].input_attachment@[k]@,
            ) is Some,
    ensures
        final(t)@ == old(t)@ + input_refs(
            subs@,
            i as int,
            subs@[i as int].input_attachment@,
            subs@[i as int].input_attachment@.len() as int,
        ),
{
    let ghost start = t@;
    let inputs = &subs[i].input_attachment;
    let mut k: usize = 0;
    while k < inputs.len()
        invariant
            i < subs@.len(),
            attachments_before(subs@, subs@.len() as int) <= usize::MAX,
            *inputs == subs@[i as int].input_attachment,
            forall|k2: int|
                0 <= k2 < inputs@.len() ==> #[trigger] input_index(subs@, i + 1, inputs@[k2]@) is Some,
            k <= inputs@.len(),
            t@ == start + input_refs(subs@, i as int, inputs@, k as int),
        decreases inputs@.len() - k,
    {
        assert(input_index(subs@, i + 1, inputs@[k as int]@) is Some);
        match find_input_index(subs, i, inputs[k].as_str()) {
            Some(x) => {
                t.append(REF_OPEN);
                push_decimal(t, x as u64);
                t.append(INPUT_CLOSE);
            },
            None => {},
        }
        assert(t@ =~= start + input_refs(subs@, i as int, inputs@, (k + 1) as int));
        k = k + 1;
    }
}

/// Appends the color reference array of a subpass.
fn push_color_part(t: &mut String, pass: &str, s: &Subpass, base: usize)
    requires
        base + s.color_attachments@.len() <= usize::MAX,
    ensures
        final(t)@ == old(t)@ + color_part(pass@, *s, base as nat),
{
    let ghost start = t@;
    let colors = &s.color_attachments;
    if colors.len() != 0 {
        t.append(INDENT);
        push_prefix(t, pass, s);
        t.append(COLOR_OPEN);
        push_color_refs(t, colors, base);
        t.append(LIST_END);
    }
    assert(t@ =~= start + color_part(pass@, *s, base as nat));
}

/// Appends the depth reference of a subpass.
fn push_depth_part(t: &mut String, pass: &str, s: &Subpass, base: usize)
    requires
        base + s.color_attachments@.len() <= usize::MAX,
    ensures
        final(t)@ == old(t)@ + depth_ref(pass@, *s, base as nat),
{
    let ghost start = t@;
    match &s.depth_attachment {
        Some(d) => {
            t.append(INDENT);
            push_prefix(t, pass, s);
            t.append(DEPTH_OPEN);
            push_decimal(t, (base + s.color_attachments.len()) as u64);
            t.append(DEPTH_LAYOUT);
            t.append(d.layout.as_str());
            t.append(DEPTH_CLOSE);
        },
        None => {},
    }
    assert(t@ =~= start + depth_ref(pass@, *s, base as nat));
}

/// Appends the input reference array of subpass `i`.
fn push_input_part(t: &mut String, pass: &str, subs: &Vec<Subpass>, i: usize)
    requires
        i < subs@.len(),
        attachments_before(subs@, subs@.len() as int) <= usize::MAX,
        forall|k: int|
            0 <= k < subs@[i as int].input_attachment@.len() ==> #[trigger] input_index(
                subs@,
                i + 1,
                subs@[i as int].input_attachment@[k]@,
            ) is Some,
    ensures
        final(t)@ == old(t)@ + input_part(pass@, subs@, i as int),
{
    let ghost start = t@;
    let s = &subs[i];
    if s.input_attachment.len() != 0 {
        t.append(INDENT);
        push_prefix(t, pass, s);
        t.append(INPUT_OPEN);
        push_input_refs(t, subs, i);
        t.append(LIST_END);
    }
    assert(t@ =~= start + input_part(pass@, subs@, i as int));
}

/// Appends the attachment references of subpass `i`.
fn push_subpass_refs(t: &mut String, pass: &str, subs: &Vec<Subpass>, i: usize, base: usize)
    requires
        i < subs@.len(),
        base == attachments_before(subs@, i as int),
        attachments_before(subs@, subs@.len() as int) <= usize::MAX,
        forall|k: int|
            0 <= k < subs@[i as int].input_attachment@.len() ==> #[trigger] input_index(
                subs@,
                i + 1,
                subs@[i as int].input_attachment@[k]@,
            ) is Some,
    ensures
        final(t)@ == old(t)@ + subpass_refs(pass@, subs@, i as int),
{
    proof {
        lemma_attachments_monotone(subs@, (i + 1) as int, subs@.len() as int);
    }
    let ghost start = t@;
    push_color_part(t, pass, &subs[i], base);
    push_depth_part(t, pass, &subs[i], base);
    push_input_part(t, pass, subs, i);
    assert(t@ =~= start + subpass_refs(pass@, subs@, i as int));
}

/// Appends the attachment references of all subpasses.
fn push_all_refs(t: &mut String, p: &Pass)
    requires
        attachments_before(p.subpasses@, p.subpasses@.len() as int) <= usize::MAX,
        pass_names_known(*p),
    ensures
        final(t)@ == old(t)@ + all_refs(p.name@, p.subpasses@, p.subpasses@.len() as int),
{
    let ghost start = t@;
    let subs = &p.subpasses;
    let mut base: usize = 0;
    let mut i: usize = 0;
    while i < subs.len()
        invariant
            *subs == p.subpasses,
            attachments_before(subs@, subs@.len() as int) <= usize::MAX,
            pass_names_known(*p),
            i <= subs@.len(),
            base == attachments_before(subs@, i as int),
            t@ == start + all_refs(p.name@, subs@, i as int),
        decreases subs@.len() - i,
    {
        proof {
            lemma_attachments_monotone(subs@, (i + 1) as int, subs@.len() as int);
        }
        assert forall|k: int| 0 <= k < subs@[i as int].input_attachment@.len() implies #[trigger] input_index(
            subs@,
            i + 1,
            subs@[i as int].input_attachment@[k]@,
        ) is Some by {}
        push_subpass_refs(t, p.name.as_str(), subs, i, base);
        let count = subs[i].attachment_count();
        base = base + count;
        i = i + 1;
    }
}

/// The format an attachment description names.
fn format_str(a: &Attachment, color: bool) -> (res: String)
    ensures
        res@ == format_text(*a, color),
{
    match &a.format {
        Some(f) => {
            let mut r = String::from_str(FORMAT_PREFIX);
            r.append(f.as_str());
            r
        },
        None => String::from_str(
            if a.swapchain {
                FORMAT_UNDEFINED
            } else if color {
                FORMAT_COLOR
            } else {
                FORMAT_DEPTH
            },
        ),
    }
}

fn samples_str(msaa: bool) -> (res: &'static str)
    ensures
        res@ == (if msaa {
            SAMPLES_MSAA@
        } else {
            SAMPLES_ONE@
        }),
{
    if msaa {
        SAMPLES_MSAA
    } else {
        SAMPLES_ONE
    }
}

fn op_str(on: bool, op: &'static str) -> (res: &'static str)
    ensures
        res@ == (if on {
            op@
        } else {
            OP_DONT_CARE@
        }),
{
    if on {
        op
    } else {
        OP_DONT_CARE
    }
}

fn final_layout_str(a: &Attachment) -> (res: &str)
    ensures
        res@ == (match a.layout_final {
            Some(l) => l@,
            None => a.layout@,
        }),
{
    match &a.layout_final {
        Some(l) => l.as_str(),
        None => a.layout.as_str(),
    }
}

/// Appends the description of one attachment.
fn push_attachment_entry(t: &mut String, a: &Attachment, color: bool, msaa: bool)
    ensures
        final(t)@ == old(t)@ + attachment_entry(*a, color, msaa),
{
    let ghost start = t@;
    let format = format_str(a, color);
    let samples = samples_str(msaa);
    let load = op_str(a.clear, OP_CLEAR);
    let store = op_str(a.store, OP_STORE);
    let layout = final_layout_str(a);
    t.append(AD_FORMAT);
    t.append(format.as_str());
    t.append(AD_SAMPLES);
    t.append(samples);
    t.append(AD_LOAD);
    t.append(load);
    t.append(AD_STORE);
    t.append(store);
    t.append(AD_FINAL);
    t.append(layout);
    t.append(ENTRY_CLOSE);
    assert(t@ =~= start + attachment_entry(*a, color, msaa));
}

/// Appends the descriptions of the attachments of all subpasses.
fn push_attachment_entries(t: &mut String, subs: &Vec<Subpass>)
    ensures
        final(t)@ == old(t)@ + all_attachment_entries(subs@, subs@.len() as int),
{
    let ghost start = t@;
    let mut i: usize = 0;
    while i < subs.len()
        invariant
            i <= subs@.len(),
            t@ == start + all_attachment_entries(subs@, i as int),
        decreases subs@.len() - i,
    {
        let s = &subs[i];
        let ghost before = t@;
        let colors = &s.color_attachments;
        let mut k: usize = 0;
        while k < colors.len()
            invariant
                *colors == s.color_attachments,
                k <= colors@.len(),
                t@ == before + color_entries(colors@, s.msaa, k as int),
            decreases colors@.len() - k,
        {
            push_attachment_entry(t, &colors[k], true, s.msaa);
            k = k + 1;
        }
        match &s.depth_attachment {
            Some(d) => push_attachment_entry(t, d, false, s.msaa),
            None => {},
        }
        assert(t@ =~= before + subpass_attachment_entries(*s));
        i = i + 1;
    }
}

/// Pointer expression to one of a subpass's attachment arrays, or null when it is empty.
fn array_ptr_str(pass: &str, s: &Subpass, present: bool, end: &'static str) -> (res: String)
    ensures
        res@ == array_ptr(sub_prefix(pass@, *s), present, end@),
{
    if present {
        let mut r = String::from_str(SCRATCH_ARRAY);
        push_prefix(&mut r, pass, s);
        r.append(end);
        r
    } else {
        String::from_str(NULL_PTR)
    }
}

/// Pointer expression to a subpass's depth reference, or null when it has none.
fn depth_ptr_str(pass: &str, s: &Subpass) -> (res: String)
    ensures
        res@ == (if s.depth_attachment is Some {
            SCRATCH_REF@ + sub_prefix(pass@, *s) + DEPTH_PTR_END@
        } else {
            NULL_PTR@
        }),
{
    if s.depth_attachment.is_some() {
        let mut r = String::from_str(SCRATCH_REF);
        push_prefix(&mut r, pass, s);
        r.append(DEPTH_PTR_END);
        r
    } else {
        String::from_str(NULL_PTR)
    }
}

/// Appends the description of a subpass.
#[verifier::rlimit(60)]
fn push_subpass_entry(t: &mut String, pass: &str, s: &Subpass)
    ensures
        final(t)@ == old(t)@ + subpass_entry(pass@, *s),
{
    let ghost start = t@;
    let inputs = s.input_attachment.len();
    let colors = s.color_attachments.len();
    let input_ptr = array_ptr_str(pass, s, inputs != 0, INPUT_PTR_END);
    let color_ptr = array_ptr_str(pass, s, colors != 0, COLOR_PTR_END);
    let depth_ptr = depth_ptr_str(pass, s);
    let ghost part1 = SD_INPUT_COUNT@ + decimal(inputs as nat) + SD_INPUT_PTR@ + input_ptr@;
    let ghost part2 = SD_COLOR_COUNT@ + decimal(colors as nat) + SD_COLOR_PTR@ + color_ptr@;
    let ghost part3 = SD_DEPTH_PTR@ + depth_ptr@ + SD_CLOSE@;
    t.append(SD_INPUT_COUNT);
    push_decimal(t, inputs as u64);
    t.append(SD_INPUT_PTR);
    t.append(input_ptr.as_str());
    assert(t@ =~= start + part1);
    let ghost s1 = t@;
    t.append(SD_COLOR_COUNT);
    push_decimal(t, colors as u64);
    t.append(SD_COLOR_PTR);
    t.append(color_ptr.as_str());
    assert(t@ =~= s1 + part2);
    let ghost s2 = t@;
    t.append(SD_DEPTH_PTR);
    t.append(depth_ptr.as_str());
    t.append(SD_CLOSE);
    assert(t@ =~= s2 + part3);
    assert(subpass_entry(pass@, *s) =~= part1 + part2 + part3);
    assert(t@ =~= start + subpass_entry(pass@, *s));
}

/// Appends the descriptions of all subpasses.
fn push_subpass_entries(t: &mut String, pass: &str, subs: &Vec<Subpass>)
    ensures
        final(t)@ == old(t)@ + subpass_entries(pass@, subs@, subs@.len() as int),
{
    let ghost start = t@;
    let mut i: usize = 0;
    while i < subs.len()
        invariant
            i <= subs@.len(),
            t@ == start + subpass_entries(pass@, subs@, i as int),
        decreases subs@.len() - i,
    {
        push_subpass_entry(t, pass, &subs[i]);
        i = i + 1;
    }
}

/// Appends the description of a dependency between the subpasses `src` and `dst`.
fn push_dependency_entry(t: &mut String, src: usize, dst: usize, d: &Dependency)
    ensures
        final(t)@ == old(t)@ + dependency_entry(src as nat, dst as nat, *d),
{
    let ghost start = t@;
    t.append(DEP_SRC);
    push_decimal(t, src as u64);
    t.append(DEP_DST);
    push_decimal(t, dst as u64);
    t.append(DEP_SRC_STAGE);
    t.append(d.src.stage_mask.as_str());
    t.append(DEP_DST_STAGE);
    t.append(d.dst.stage_mask.as_str());
    t.append(DEP_SRC_ACCESS);
    t.append(d.src.access_mask.as_str());
    t.append(DEP_DST_ACCESS);
    t.append(d.dst.access_mask.as_str());
    t.append(DEP_FLAGS);
    t.append(
        if d.by_region {
            FLAGS_BY_REGION
        } else {
            FLAGS_EMPTY
        },
    );
    t.append(ENTRY_CLOSE);
    assert(t@ =~= start + dependency_entry(src as nat, dst as nat, *d));
}

/// Appends the descriptions of the dependencies of the pass.
fn push_dependency_entries(t: &mut String, p: &Pass)
    requires
        pass_names_known(*p),
    ensures
        final(t)@ == old(t)@ + dependency_entries(*p, p.dependencies@.len() as int),
{
    let ghost start = t@;
    let deps = &p.dependencies;
    let mut d: usize = 0;
    while d < deps.len()
        invariant
            *deps == p.dependencies,
            pass_names_known(*p),
            d <= deps@.len(),
            t@ == start + dependency_entries(*p, d as int),
        decreases deps@.len() - d,
    {
        let dep = &deps[d];
        assert(first_subpass(p.subpasses@, deps@[d as int].src.subpass@, p.subpasses@.len() as int) is Some);
        match (find_subpass(p, dep.src.subpass.as_str()), find_subpass(p, dep.dst.subpass.as_str())) {
            (Some(si), Some(di)) => push_dependency_entry(t, si, di, dep),
            _ => {},
        }
        d = d + 1;
    }
}

/// Appends the render pass create info.
fn push_pass_info(t: &mut String, p: &Pass, attachment_total: usize)
    requires
        attachment_total == attachments_before(p.subpasses@, p.subpasses@.len() as int),
    ensures
        final(t)@ == old(t)@ + pass_info(*p),
{
    let ghost start = t@;
    let name = p.name.as_str();
    t.append(INDENT);
    t.append(name);
    t.append(PASS_INFO);
    push_decimal(t, attachment_total as u64);
    t.append(PASS_ATTACHMENTS);
    t.append(name);
    t.append(PASS_SUBPASS_COUNT);
    push_decimal(t, p.subpasses.len() as u64);
    t.append(PASS_SUBPASSES);
    t.append(name);
    t.append(PASS_DEPENDENCY_COUNT);
    push_decimal(t, p.dependencies.len() as u64);
    t.append(PASS_DEPENDENCIES);
    t.append(name);
    t.append(PASS_CLOSE);
    assert(t@ =~= start + pass_info(*p));
}

/// Total number of attachments of the pass.
fn attachment_total(subs: &Vec<Subpass>) -> (res: usize)
    requires
        attachments_before(subs@, subs@.len() as int) <= usize::MAX,
    ensures
        res == attachments_before(subs@, subs@.len() as int),
{
    let mut total: usize = 0;
    let mut i: usize = 0;
    while i < subs.len()
        invariant
            attachments_before(subs@, subs@.len() as int) <= usize::MAX,
            i <= subs@.len(),
            total == attachments_before(subs@, i as int),
        decreases subs@.len() - i,
    {
        proof {
            lemma_attachments_monotone(subs@, (i + 1) as int, subs@.len() as int);
        }
        let count = subs[i].attachment_count();
        total = total + count;
        i = i + 1;
    }
    total
}

/// The scratch data of a render pass, as [`spec_render_pass`] states: attachment references,
/// attachment and subpass descriptions, dependencies and the create info. `None` when an input
/// attachment names no color attachment of its subpass or an earlier one, or a dependency names
/// a subpass the pass does not have.
pub fn render_pass_text(p: &Pass) -> (res: Option<String>)
    requires
        attachments_before(p.subpasses@, p.subpasses@.len() as int) <= usize::MAX,
    ensures
        match res {
            Some(t) => spec_render_pass(*p) == Some(t@),
            None => spec_render_pass(*p) is None,
        },
{
    if !check_names(p) {
        return None;
    }
    let name = p.name.as_str();
    let mut t = String::new();
    push_all_refs(&mut t, p);
    t.append(INDENT);
    t.append(name);
    t.append(ATTACHMENTS_OPEN);
    push_attachment_entries(&mut t, &p.subpasses);
    t.append(LIST_END);
    t.append(INDENT);
    t.append(name);
    t.append(SUBPASSES_OPEN);
    push_subpass_entries(&mut t, name, &p.subpasses);
    t.append(LIST_END);
    t.append(INDENT);
    t.append(name);
    t.append(DEPENDENCIES_OPEN);
    push_dependency_entries(&mut t, p);
    t.append(LIST_END);
    let total = attachment_total(&p.subpasses);
    push_pass_info(&mut t, p, total);
    Some(t)
}

/// Law: an input attachment of subpass `n - 1` refers to a color attachment with its name, in
/// that subpass or an earlier one: its index is that color attachment's position in the pass's
/// attachment list, which lies before the attachments of the later subpasses.
pub proof fn law_input_refers_to_named_color(subs: Seq<Subpass>, n: int, name: Seq<char>)
    requires
        0 <= n <= subs.len(),
        input_index(subs, n, name) is Some,
    ensures
        exists|m: int, j: int|
            0 <= m < n && 0 <= j < subs[m].color_attachments@.len()
                && #[trigger] subs[m].color_attachments@[j].name@ == name && input_index(
                subs,
                n,
                name,
            ) == Some((attachments_before(subs, m) + j) as nat),
        input_index(subs, n, name).unwrap() < attachments_before(subs, n),
    decreases n,
{
    lemma_input_index_bound(subs, n, name);
    let colors = subs[n - 1].color_attachments@;
    lemma_last_color_found(colors, name, colors.len() as int);
    match last_color(colors, name, colors.len() as int) {
        Some(j) => {
            assert(subs[n - 1].color_attachments@[j].name@ == name);
        },
        None => {
            law_input_refers_to_named_color(subs, n - 1, name);
            let (m, j) = choose|m: int, j: int|
                0 <= m < n - 1 && 0 <= j < subs[m].color_attachments@.len()
                    && #[trigger] subs[m].color_attachments@[j].name@ == name && input_index(
                    subs,
                    n - 1,
                    name,
                ) == Some((attachments_before(subs, m) + j) as nat);
            assert(subs[m].color_attachments@[j].name@ == name);
        },
    }
}

proof fn lemma_last_color_found(colors: Seq<Attachment>, name: Seq<char>, k: int)
    requires
        0 <= k <= colors.len(),
    ensures
        last_color(colors, name, k) matches Some(j) ==> 0 <= j < k && colors[j].name@ == name,
    decreases k,
{
    if k > 0 {
        lemma_last_color_found(colors, name, k - 1);
    }
}

} // verus!
