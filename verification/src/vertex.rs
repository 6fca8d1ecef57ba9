use vstd::prelude::*;

verus! {

/// Where one vertex attribute is read from: the binding, the shader location, the format (a
/// Vulkan `VkFormat` value) and the byte offset within a vertex.
#[derive(Debug, Clone, Copy, PartialEq, Eq, Structural)]
pub struct AttributeDescription {
    pub binding: u32,
    pub location: u32,
    pub format: i32,
    pub offset: u32,
}

/// Sum of the first `n` attribute sizes.
pub open spec fn size_prefix(sizes: Seq<usize>, n: int) -> int
    decreases n,
{
    if n <= 0 {
        0
    } else {
        size_prefix(sizes, n - 1) + sizes[n - 1]
    }
}

proof fn lemma_size_prefix_monotone(sizes: Seq<usize>, i: int, j: int)
    requires
        0 <= i <= j,
    ensures
        size_prefix(sizes, i) <= size_prefix(sizes, j),
    decreases j - i,
{
    if i < j {
        lemma_size_prefix_monotone(sizes, i, j - 1);
    }
}

/// The attribute descriptions of a vertex type whose attributes, in location order, have the
/// given formats and sizes in bytes: attribute `i` is at location `i`, packed right after the
/// attributes before it.
pub fn attribute_descriptions(binding: u32, formats: &Vec<i32>, sizes: &Vec<usize>) -> (res: Vec<
    AttributeDescription,
>)
    requires
        formats@.len() == sizes@.len(),
        size_prefix(sizes@, sizes@.len() as int) <= usize::MAX,
    ensures
        res@.len() == formats@.len(),
        forall|i: int|
            0 <= i < res@.len() ==> #[trigger] res@[i] == (AttributeDescription {
                binding,
                location: i as u32,
                format: formats@[i],
                offset: size_prefix(sizes@, i) as u32,
            }),
{
    let attribute_count = formats.len();
    let mut offset: usize = 0;
    let mut descriptions: Vec<AttributeDescription> = Vec::new();
    let mut i: usize = 0;
    while i < attribute_count
        invariant
            attribute_count == formats@.len(),
            formats@.len() == sizes@.len(),
            size_prefix(sizes@, sizes@.len() as int) <= usize::MAX,
            i <= attribute_count,
            offset == size_prefix(sizes@, i as int),
            descriptions@.len() == i,
            forall|k: int|
                0 <= k < i ==> #[trigger] descriptions@[k] == (AttributeDescription {
                    binding,
                    location: k as u32,
                    format: formats@[k],
                    offset: size_prefix(sizes@, k) as u32,
                }),
        decreases attribute_count - i,
    {
        descriptions.push(
            AttributeDescription {
                binding,
                location: i as u32,
                format: formats[i],
                offset: offset as u32,
            },
        );
        proof {
            lemma_size_prefix_monotone(sizes@, i + 1, sizes@.len() as int);
        }
        offset = offset + sizes[i];
        i = i + 1;
    }
    descriptions
}

} // verus!
