use vstd::prelude::*;
use crate::codegen::{attribute_size, spec_attribute_size};
use crate::config::{VertexAttribute, VertexBinding};
use crate::text::{decimal, push_decimal, str_eq};

verus! {

pub const BINDINGS_OPEN: &'static str = "_vertex_bindings: [\n";

pub const ATTRIBUTES_OPEN: &'static str = "_vertex_attributes: [\n";

pub const LIST_INDENT: &'static str = "    ";

pub const LIST_CLOSE: &'static str = "    ],\n";

pub const BINDING_INDEX: &'static str = "        vk::VertexInputBindingDescription {\n            binding: ";

pub const BINDING_STRIDE: &'static str = ",\n            stride: ";

pub const BINDING_RATE: &'static str = ",\n            input_rate: vk::VertexInputRate::";

pub const ENTRY_CLOSE: &'static str = ",\n        },\n";

pub const ATTRIBUTE_BINDING: &'static str = "        vk::VertexInputAttributeDescription {\n            binding: ";

pub const ATTRIBUTE_LOCATION: &'static str = ",\n            location: ";

pub const ATTRIBUTE_FORMAT: &'static str = ",\n            format: vk::Format::";

pub const ATTRIBUTE_OFFSET: &'static str = ",\n            offset: ";

/// Whether the generator knows the size of every attribute's format, in every binding.
pub open spec fn formats_known(bindings: Seq<VertexBinding>) -> bool {
    forall|i: int, j: int|
        0 <= i < bindings.len() && 0 <= j < bindings[i].attributes@.len()
            ==> #[trigger] spec_attribute_size(bindings[i].attributes@[j].format@) is Some
}

/// Size of an attribute whose format is known.
pub open spec fn size_of(a: VertexAttribute) -> nat {
    match spec_attribute_size(a.format@) {
        Some(n) => n,
        None => 0,
    }
}

/// Offset of attribute `j` in its binding: the sizes of the attributes before it, the unused
/// ones included.
pub open spec fn offset_before(attrs: Seq<VertexAttribute>, j: int) -> nat
    decreases j,
{
    if j <= 0 || j > attrs.len() {
        0
    } else {
        offset_before(attrs, j - 1) + size_of(attrs[j - 1])
    }
}

/// Number of used attributes among the first `j`.
pub open spec fn used_before(attrs: Seq<VertexAttribute>, j: int) -> nat
    decreases j,
{
    if j <= 0 || j > attrs.len() {
        0
    } else {
        used_before(attrs, j - 1) + if attrs[j - 1].unused {
            0nat
        } else {
            1nat
        }
    }
}

/// First location of binding `i`: the used attributes of the bindings before it.
pub open spec fn locations_before(bindings: Seq<VertexBinding>, i: int) -> nat
    decreases i,
{
    if i <= 0 || i > bindings.len() {
        0
    } else {
        locations_before(bindings, i - 1) + used_before(
            bindings[i - 1].attributes@,
            bindings[i - 1].attributes@.len() as int,
        )
    }
}

/// `n` rounded up to a multiple of four.
pub open spec fn round4(n: nat) -> nat {
    if n % 4 == 0 {
        n
    } else {
        (n + 4 - n % 4) as nat
    }
}

/// Stride of a binding: the sizes of all its attributes, rounded up to a multiple of four.
pub open spec fn stride(b: VertexBinding) -> nat {
    round4(offset_before(b.attributes@, b.attributes@.len() as int))
}

/// Whether the strides, offsets and locations of the bindings fit in `usize`.
pub open spec fn vertex_counts_fit(bindings: Seq<VertexBinding>) -> bool {
    &&& forall|i: int| 0 <= i < bindings.len() ==> #[trigger] stride(bindings[i]) <= usize::MAX
    &&& locations_before(bindings, bindings.len() as int) <= usize::MAX
}

/// The binding description of binding `i`.
pub open spec fn binding_entry(i: nat, b: VertexBinding) -> Seq<char> {
    BINDING_INDEX@ + decimal(i) + BINDING_STRIDE@ + decimal(stride(b)) + BINDING_RATE@ + b.rate@
        + ENTRY_CLOSE@
}

/// The binding descriptions of the first `n` bindings.
pub open spec fn binding_entries(bindings: Seq<VertexBinding>, n: int) -> Seq<char>
    decreases n,
{
    if n <= 0 || n > bindings.len() {
        seq![]
    } else {
        binding_entries(bindings, n - 1) + binding_entry((n - 1) as nat, bindings[n - 1])
    }
}

/// The attribute description of an attribute; nothing for an unused one.
pub open spec fn attribute_entry(binding: nat, location: nat, a: VertexAttribute, offset: nat) -> Seq<
    char,
> {
    if a.unused {
        seq![]
    } else {
        ATTRIBUTE_BINDING@ + decimal(binding) + ATTRIBUTE_LOCATION@ + decimal(location)
            + ATTRIBUTE_FORMAT@ + a.format@ + ATTRIBUTE_OFFSET@ + decimal(offset) + ENTRY_CLOSE@
    }
}

/// The attribute descriptions of the first `j` attributes of binding `binding`, whose first
/// location is `first`.
pub open spec fn attribute_entries(
    binding: nat,
    first: nat,
    attrs: Seq<VertexAttribute>,
    j: int,
) -> Seq<char>
    decreases j,
{
    if j <= 0 || j > attrs.len() {
        seq![]
    } else {
        attribute_entries(binding, first, attrs, j - 1) + attribute_entry(
            binding,
            first + used_before(attrs, j - 1),
            attrs[j - 1],
            offset_before(attrs, j - 1),
        )
    }
}

/// The attribute descriptions of the first `n` bindings, locations running on across them.
pub open spec fn all_attribute_entries(bindings: Seq<VertexBinding>, n: int) -> Seq<char>
    decreases n,
{
    if n <= 0 || n > bindings.len() {
        seq![]
    } else {
        all_attribute_entries(bindings, n - 1) + attribute_entries(
            (n - 1) as nat,
            locations_before(bindings, n - 1),
            bindings[n - 1].attributes@,
            bindings[n - 1].attributes@.len() as int,
        )
    }
}

/// The vertex input arrays of a pipeline's scratch data: one binding description per binding,
/// with its stride, then one attribute description per used attribute, with its binding, its
/// location (counted across all bindings) and its offset in the binding. `None` when an
/// attribute has a format whose size is unknown.
pub open spec fn spec_vertex_input(pipeline: Seq<char>, bindings: Seq<VertexBinding>) -> Option<
    Seq<char>,
> {
    if formats_known(bindings) {
        Some(
            LIST_INDENT@ + pipeline + BINDINGS_OPEN@ + binding_entries(
                bindings,
                bindings.len() as int,
            ) + LIST_CLOSE@ + LIST_INDENT@ + pipeline + ATTRIBUTES_OPEN@ + all_attribute_entries(
                bindings,
                bindings.len() as int,
            ) + LIST_CLOSE@,
        )
    } else {
        None
    }
}

proof fn lemma_offset_monotone(attrs: Seq<VertexAttribute>, j: int, k: int)
    requires
        0 <= j <= k <= attrs.len(),
    ensures
        offset_before(attrs, j) <= offset_before(attrs, k),
    decreases k - j,
{
    if j < k {
        lemma_offset_monotone(attrs, j, k - 1);
    }
}

proof fn lemma_used_bound(attrs: Seq<VertexAttribute>, j: int)
    requires
        0 <= j <= attrs.len(),
    ensures
        used_before(attrs, j) <= j,
    decreases j,
{
    if j > 0 {
        lemma_used_bound(attrs, j - 1);
    }
}

proof fn lemma_used_monotone(attrs: Seq<VertexAttribute>, j: int, k: int)
    requires
        0 <= j <= k <= attrs.len(),
    ensures
        used_before(attrs, j) <= used_before(attrs, k),
    decreases k - j,
{
    if j < k {
        lemma_used_monotone(attrs, j, k - 1);
    }
}

proof fn lemma_locations_monotone(bindings: Seq<VertexBinding>, i: int, k: int)
    requires
        0 <= i <= k <= bindings.len(),
    ensures
        locations_before(bindings, i) <= locations_before(bindings, k),
    decreases k - i,
{
    if i < k {
        lemma_locations_monotone(bindings, i, k - 1);
    }
}

/// Whether the format's size is known.
fn format_known(format: &str) -> (res: bool)
    ensures
        res == spec_attribute_size(format@) is Some,
{
    str_eq(format, "R16_UINT") || str_eq(format, "R32_SFLOAT") || str_eq(format, "R32G32B32_SFLOAT")
        || str_eq(format, "R32G32B32A32_SFLOAT")
}

/// Whether every attribute format of every binding is known.
fn check_formats(bindings: &Vec<VertexBinding>) -> (res: bool)
    ensures
        res == formats_known(bindings@),
{
    let mut i: usize = 0;
    while i < bindings.len()
        invariant
            i <= bindings@.len(),
            forall|i2: int, j: int|
                0 <= i2 < i && 0 <= j < bindings@[i2].attributes@.len()
                    ==> #[trigger] spec_attribute_size(bindings@[i2].attributes@[j].format@) is Some,
        decreases bindings@.len() - i,
    {
        let attrs = &bindings[i].attributes;
        let mut j: usize = 0;
        while j < attrs.len()
            invariant
                i < bindings@.len(),
                *attrs == bindings@[i as int].attributes,
                j <= attrs@.len(),
                forall|i2: int, j2: int|
                    0 <= i2 < i && 0 <= j2 < bindings@[i2].attributes@.len()
                        ==> #[trigger] spec_attribute_size(bindings@[i2].attributes@[j2].format@) is Some,
                forall|j2: int|
                    0 <= j2 < j ==> #[trigger] spec_attribute_size(attrs@[j2].format@) is Some,
            decreases attrs@.len() - j,
        {
            if !format_known(attrs[j].format.as_str()) {
                assert(spec_attribute_size(bindings@[i as int].attributes@[j as int].format@) is None);
                return false;
            }
            j = j + 1;
        }
        i = i + 1;
    }
    true
}

/// Sum of the attribute sizes of a binding.
fn raw_stride(attrs: &Vec<VertexAttribute>) -> (res: usize)
    requires
        forall|j: int| 0 <= j < attrs@.len() ==> #[trigger] spec_attribute_size(attrs@[j].format@) is Some,
        offset_before(attrs@, attrs@.len() as int) <= usize::MAX,
    ensures
        res == offset_before(attrs@, attrs@.len() as int),
{
    let mut sum: usize = 0;
    let mut j: usize = 0;
    while j < attrs.len()
        invariant
            forall|j2: int| 0 <= j2 < attrs@.len() ==> #[trigger] spec_attribute_size(attrs@[j2].format@) is Some,
            offset_before(attrs@, attrs@.len() as int) <= usize::MAX,
            j <= attrs@.len(),
            sum == offset_before(attrs@, j as int),
        decreases attrs@.len() - j,
    {
        proof {
            lemma_offset_monotone(attrs@, (j + 1) as int, attrs@.len() as int);
        }
        assert(spec_attribute_size(attrs@[j as int].format@) is Some);
        let size = attribute_size(&attrs[j]);
        sum = sum + size;
        j = j + 1;
    }
    sum
}

/// Appends the binding descriptions.
fn push_binding_entries(t: &mut String, bindings: &Vec<VertexBinding>)
    requires
        formats_known(bindings@),
        vertex_counts_fit(bindings@),
    ensures
        final(t)@ == old(t)@ + binding_entries(bindings@, bindings@.len() as int),
{
    let ghost start = t@;
    let mut i: usize = 0;
    while i < bindings.len()
        invariant
            formats_known(bindings@),
            vertex_counts_fit(bindings@),
            i <= bindings@.len(),
            t@ == start + binding_entries(bindings@, i as int),
        decreases bindings@.len() - i,
    {
        let b = &bindings[i];
        assert(stride(bindings@[i as int]) <= usize::MAX);
        assert forall|j: int| 0 <= j < b.attributes@.len() implies #[trigger] spec_attribute_size(
            b.attributes@[j].format@,
        ) is Some by {
            assert(spec_attribute_size(bindings@[i as int].attributes@[j].format@) is Some);
        }
        let raw = raw_stride(&b.attributes);
        let s: usize = if raw % 4 == 0 {
            raw
        } else {
            raw + (4 - raw % 4)
        };
        assert(s == stride(*b));
        t.append(BINDING_INDEX);
        push_decimal(t, i as u64);
        t.append(BINDING_STRIDE);
        push_decimal(t, s as u64);
        t.append(BINDING_RATE);
        t.append(b.rate.as_str());
        t.append(ENTRY_CLOSE);
        assert(t@ =~= start + binding_entries(bindings@, i as int) + binding_entry(
            i as nat,
            bindings@[i as int],
        ));
        i = i + 1;
    }
}

/// Appends the attribute descriptions of binding `binding`, whose first location is `first`.
fn push_attribute_entries(
    t: &mut String,
    binding: usize,
    first: usize,
    attrs: &Vec<VertexAttribute>,
)
    requires
        forall|j: int| 0 <= j < attrs@.len() ==> #[trigger] spec_attribute_size(attrs@[j].format@) is Some,
        offset_before(attrs@, attrs@.len() as int) <= usize::MAX,
        first + used_before(attrs@, attrs@.len() as int) <= usize::MAX,
    ensures
        final(t)@ == old(t)@ + attribute_entries(
            binding as nat,
            first as nat,
            attrs@,
            attrs@.len() as int,
        ),
{
    let ghost start = t@;
    let mut offset: usize = 0;
    let mut location: usize = first;
    let mut j: usize = 0;
    while j < attrs.len()
        invariant
            forall|j2: int| 0 <= j2 < attrs@.len() ==> #[trigger] spec_attribute_size(attrs@[j2].format@) is Some,
            offset_before(attrs@, attrs@.len() as int) <= usize::MAX,
            first + used_before(attrs@, attrs@.len() as int) <= usize::MAX,
            j <= attrs@.len(),
            offset == offset_before(attrs@, j as int),
            location == first + used_before(attrs@, j as int),
            t@ == start + attribute_entries(binding as nat, first as nat, attrs@, j as int),
        decreases attrs@.len() - j,
    {
        proof {
            lemma_offset_monotone(attrs@, (j + 1) as int, attrs@.len() as int);
            lemma_used_monotone(attrs@, (j + 1) as int, attrs@.len() as int);
        }
        let a = &attrs[j];
        if !a.unused {
            t.append(ATTRIBUTE_BINDING);
            push_decimal(t, binding as u64);
            t.append(ATTRIBUTE_LOCATION);
            push_decimal(t, location as u64);
            t.append(ATTRIBUTE_FORMAT);
            t.append(a.format.as_str());
            t.append(ATTRIBUTE_OFFSET);
            push_decimal(t, offset as u64);
            t.append(ENTRY_CLOSE);
            location = location + 1;
        }
        assert(t@ =~= start + attribute_entries(binding as nat, first as nat, attrs@, j as int)
            + attribute_entry(
            binding as nat,
            (first + used_before(attrs@, j as int)) as nat,
            attrs@[j as int],
            offset_before(attrs@, j as int),
        ));
        assert(spec_attribute_size(attrs@[j as int].format@) is Some);
        let size = attribute_size(a);
        offset = offset + size;
        j = j + 1;
    }
}

/// Appends the attribute descriptions of all bindings.
fn push_all_attribute_entries(t: &mut String, bindings: &Vec<VertexBinding>)
    requires
        formats_known(bindings@),
        vertex_counts_fit(bindings@),
    ensures
        final(t)@ == old(t)@ + all_attribute_entries(bindings@, bindings@.len() as int),
{
    let ghost start = t@;
    let mut location: usize = 0;
    let mut i: usize = 0;
    while i < bindings.len()
        invariant
            formats_known(bindings@),
            vertex_counts_fit(bindings@),
            i <= bindings@.len(),
            location == locations_before(bindings@, i as int),
            t@ == start + all_attribute_entries(bindings@, i as int),
        decreases bindings@.len() - i,
    {
        let attrs = &bindings[i].attributes;
        proof {
            lemma_locations_monotone(bindings@, (i + 1) as int, bindings@.len() as int);
            lemma_offset_monotone(attrs@, attrs@.len() as int, attrs@.len() as int);
            assert(stride(bindings@[i as int]) <= usize::MAX);
        }
        assert forall|j: int| 0 <= j < attrs@.len() implies #[trigger] spec_attribute_size(
            attrs@[j].format@,
        ) is Some by {
            assert(spec_attribute_size(bindings@[i as int].attributes@[j].format@) is Some);
        }
        push_attribute_entries(t, i, location, attrs);
        location = location + used_count(attrs);
        i = i + 1;
    }
}

/// Number of used attributes.
fn used_count(attrs: &Vec<VertexAttribute>) -> (res: usize)
    ensures
        res == used_before(attrs@, attrs@.len() as int),
{
    let mut n: usize = 0;
    let mut j: usize = 0;
    while j < attrs.len()
        invariant
            j <= attrs@.len(),
            n == used_before(attrs@, j as int),
        decreases attrs@.len() - j,
    {
        proof {
            lemma_used_bound(attrs@, j as int);
        }
        if !attrs[j].unused {
            n = n + 1;
        }
        j = j + 1;
    }
    n
}

/// Number of used attributes over all bindings: the number of attribute descriptions.
pub fn attribute_count(bindings: &Vec<VertexBinding>) -> (res: usize)
    requires
        locations_before(bindings@, bindings@.len() as int) <= usize::MAX,
    ensures
        res == locations_before(bindings@, bindings@.len() as int),
{
    let mut n: usize = 0;
    let mut i: usize = 0;
    while i < bindings.len()
        invariant
            locations_before(bindings@, bindings@.len() as int) <= usize::MAX,
            i <= bindings@.len(),
            n == locations_before(bindings@, i as int),
        decreases bindings@.len() - i,
    {
        proof {
            lemma_locations_monotone(bindings@, (i + 1) as int, bindings@.len() as int);
        }
        n = n + used_count(&bindings[i].attributes);
        i = i + 1;
    }
    n
}

/// The vertex input arrays of a pipeline's scratch data, as [`spec_vertex_input`] states: the
/// binding descriptions with strides rounded up to four bytes, and the descriptions of the used
/// attributes, whose locations run on across bindings and whose offsets count unused
/// attributes too. `None` when an attribute's format has no known size.
pub fn vertex_input_text(pipeline: &str, bindings: &Vec<VertexBinding>) -> (res: Option<String>)
    requires
        formats_known(bindings@) ==> vertex_counts_fit(bindings@),
    ensures
        match res {
            Some(t) => spec_vertex_input(pipeline@, bindings@) == Some(t@),
            None => spec_vertex_input(pipeline@, bindings@) is None,
        },
{
    if !check_formats(bindings) {
        return None;
    }
    let mut t = String::new();
    t.append(LIST_INDENT);
    t.append(pipeline);
    t.append(BINDINGS_OPEN);
    push_binding_entries(&mut t, bindings);
    t.append(LIST_CLOSE);
    t.append(LIST_INDENT);
    t.append(pipeline);
    t.append(ATTRIBUTES_OPEN);
    push_all_attribute_entries(&mut t, bindings);
    t.append(LIST_CLOSE);
    Some(t)
}

/// Law: every attribute of a binding whose formats are known lies within the binding's stride:
/// its offset plus its size is at most the stride.
pub proof fn law_attributes_within_stride(b: VertexBinding, j: int)
    requires
        0 <= j < b.attributes@.len(),
    ensures
        offset_before(b.attributes@, j) + size_of(b.attributes@[j]) <= stride(b),
{
    let attrs = b.attributes@;
    lemma_offset_monotone(attrs, j + 1, attrs.len() as int);
}

} // verus!
